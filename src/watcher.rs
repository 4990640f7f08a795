//! A watcher: a registry key with its filter and cadence, handed once to a
//! background worker that feeds either a caller's channel or a lazily
//! started sequence of responses.
use crate::watch::{WatchError, WatchResponse};
use core::time::Duration;
use vstd::prelude::*;

verus! {

/// What a started worker feeds.
#[derive(Debug, Clone, Copy, PartialEq, Eq, Structural)]
pub enum Feed {
    /// A channel that the caller supplied.
    Channel,
    /// The channel behind the watcher's own sequence of responses.
    Sequence,
}

/// What a worker needs to run: the key, moved out of the watcher, and how
/// to watch it.
pub struct WorkerConfig<K> {
    pub reg_key: K,
    pub notify_filter: u32,
    pub watch_subtree: bool,
    pub tick_duration: Duration,
}

/// The state of a watcher as the contracts see it.
pub struct WatcherModel<K> {
    /// The key, while no worker has taken it.
    pub reg_key: Option<K>,
    pub notify_filter: u32,
    pub watch_subtree: bool,
    /// The rest between two watches of the worker.
    pub tick_duration: Duration,
    /// The worker that was started, if any.
    pub worker: Option<Feed>,
}

/// A registry key to be watched by a background worker.
pub struct Watcher<K> {
    reg_key: Option<K>,
    notify_filter: u32,
    watch_subtree: bool,
    tick_duration: Duration,
    worker: Option<Feed>,
}

impl<K> View for Watcher<K> {
    type V = WatcherModel<K>;

    closed spec fn view(&self) -> WatcherModel<K> {
        WatcherModel {
            reg_key: self.reg_key,
            notify_filter: self.notify_filter,
            watch_subtree: self.watch_subtree,
            tick_duration: self.tick_duration,
            worker: self.worker,
        }
    }
}

/// The watcher after its key is handed over, and what was handed over: the
/// key goes to at most one worker, and a watcher without it refuses.
pub open spec fn take_of<K>(m: WatcherModel<K>) -> (WatcherModel<K>, Result<WorkerConfig<K>, WatchError>) {
    let after = WatcherModel { reg_key: None, ..m };
    match m.reg_key {
        Some(k) => (
            after,
            Ok(
                WorkerConfig {
                    reg_key: k,
                    notify_filter: m.notify_filter,
                    watch_subtree: m.watch_subtree,
                    tick_duration: m.tick_duration,
                },
            ),
        ),
        None => (after, Err(WatchError::KeyConsumed)),
    }
}

/// What a poll of the watcher's sequence does next.
#[derive(Debug, Clone, Copy, PartialEq, Eq, Structural)]
pub enum PollStep {
    /// Start the worker that feeds the sequence; the poll is not ready.
    Start,
    /// Read what the worker has sent, without blocking.
    Receive,
    /// Fail: the sequence has no worker and can get none.
    Fail(WatchError),
}

/// The next step of a poll of the sequence of a watcher in state `m`.
pub open spec fn poll_step_of<K>(m: WatcherModel<K>) -> PollStep {
    match m.worker {
        Some(Feed::Sequence) => PollStep::Receive,
        Some(Feed::Channel) => PollStep::Fail(WatchError::NoWorker),
        None => if m.reg_key is Some {
            PollStep::Start
        } else {
            PollStep::Fail(WatchError::NoWorker)
        },
    }
}

/// What a non-blocking read of the worker's channel found.
#[derive(Debug, Clone, Copy, PartialEq, Eq, Structural)]
pub enum ChannelRead {
    /// A response was waiting.
    Value(WatchResponse),
    /// Nothing was waiting.
    Empty,
    /// The sending end is gone.
    Disconnected,
}

/// What one poll of the sequence yields.
#[derive(Debug, Clone, Copy, PartialEq, Eq, Structural)]
pub enum SequencePoll {
    /// The next response.
    Ready(WatchResponse),
    /// No response yet; the worker wakes the poller when one is sent.
    NotReady,
    /// The sequence has ended.
    Ended,
}

/// What a poll yields for a read of the worker's channel.
pub open spec fn sequence_item_of(read: ChannelRead) -> SequencePoll {
    match read {
        ChannelRead::Value(v) => SequencePoll::Ready(v),
        ChannelRead::Empty => SequencePoll::NotReady,
        ChannelRead::Disconnected => SequencePoll::Ended,
    }
}

/// What a poll yields for a read of the worker's channel: the response that
/// was waiting, not ready when nothing was, the end when the sender is gone.
pub fn sequence_item(read: ChannelRead) -> (r: SequencePoll)
    ensures
        r == sequence_item_of(read),
{
    match read {
        ChannelRead::Value(v) => SequencePoll::Ready(v),
        ChannelRead::Empty => SequencePoll::NotReady,
        ChannelRead::Disconnected => SequencePoll::Ended,
    }
}

/// A watcher hands its key over once: of two activations in a row, the
/// second fails with `KeyConsumed` and changes nothing, whatever the first
/// returned.
pub proof fn lemma_second_activation_fails<K>(m: WatcherModel<K>)
    ensures
        take_of(take_of(m).0).1 == Err::<WorkerConfig<K>, WatchError>(WatchError::KeyConsumed),
        take_of(take_of(m).0).0 == take_of(m).0,
{
}

/// Only one worker per watcher: once the key is handed over, a poll of the
/// sequence never starts another worker, whichever worker was recorded.
pub proof fn lemma_one_worker<K>(m: WatcherModel<K>, worker: Option<Feed>)
    ensures
        poll_step_of(WatcherModel { worker, ..take_of(m).0 }) != PollStep::Start,
{
}

impl<K> Watcher<K> {
    /// A watcher that holds `reg_key` and has no worker yet.
    pub fn new(reg_key: K, notify_filter: u32, watch_subtree: bool, tick_duration: Duration) -> (r:
        Self)
        ensures
            r@ == (WatcherModel {
                reg_key: Some(reg_key),
                notify_filter,
                watch_subtree,
                tick_duration,
                worker: None,
            }),
    {
        Watcher { reg_key: Some(reg_key), notify_filter, watch_subtree, tick_duration, worker: None }
    }

    /// The filter of change categories that the worker watches for.
    pub fn notify_filter(&self) -> (r: u32)
        ensures
            r == self@.notify_filter,
    {
        self.notify_filter
    }

    /// Whether changes below the key count too.
    pub fn watch_subtree(&self) -> (r: bool)
        ensures
            r == self@.watch_subtree,
    {
        self.watch_subtree
    }

    /// Whether the watcher still holds its key.
    pub fn holds_key(&self) -> (r: bool)
        ensures
            r == self@.reg_key is Some,
    {
        self.reg_key.is_some()
    }

    /// The worker that was started, if any.
    pub fn worker(&self) -> (r: Option<Feed>)
        ensures
            r == self@.worker,
    {
        self.worker
    }

    /// Moves the key out for a worker, with the filter, the subtree flag and
    /// the tick; fails with `KeyConsumed` where an earlier call took it.
    pub fn take_worker_config(&mut self) -> (r: Result<WorkerConfig<K>, WatchError>)
        ensures
            (final(self)@, r) == take_of(old(self)@),
    {
        match self.reg_key.take() {
            Some(k) => Ok(
                WorkerConfig {
                    reg_key: k,
                    notify_filter: self.notify_filter,
                    watch_subtree: self.watch_subtree,
                    tick_duration: self.tick_duration,
                },
            ),
            None => Err(WatchError::KeyConsumed),
        }
    }

    /// Records that a worker feeding `feed` was started.
    pub fn record_worker(&mut self, feed: Feed)
        ensures
            final(self)@ == (WatcherModel { worker: Some(feed), ..old(self)@ }),
    {
        self.worker = Some(feed);
    }

    /// The next step of a poll of the watcher's sequence: start its worker on
    /// the first poll, read the worker's channel on later ones, and fail
    /// where the key went to another worker.
    pub fn poll_step(&self) -> (r: PollStep)
        ensures
            r == poll_step_of(self@),
    {
        match self.worker {
            Some(Feed::Sequence) => PollStep::Receive,
            Some(Feed::Channel) => PollStep::Fail(WatchError::NoWorker),
            None => if self.reg_key.is_some() {
                PollStep::Start
            } else {
                PollStep::Fail(WatchError::NoWorker)
            },
        }
    }
}

} // verus!
