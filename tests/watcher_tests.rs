use reg_watcher::watch::{WatchError, WatchResponse};
use reg_watcher::watcher::{sequence_item, ChannelRead, Feed, PollStep, SequencePoll, Watcher};
use reg_watcher::worker::{Worker, WorkerAction, WorkerEvent, WorkerPhase};
use std::time::Duration;

#[test]
fn new_watcher_is_idle() {
    let w = Watcher::new(7u32, 4, false, Duration::from_millis(100));
    assert!(w.holds_key());
    assert_eq!(w.worker(), None);
    assert_eq!(w.notify_filter(), 4);
    assert!(!w.watch_subtree());
    assert_eq!(w.poll_step(), PollStep::Start);
}

#[test]
fn activation_hands_over_the_key_and_settings() {
    let mut w = Watcher::new(String::from("key"), 0x1000000F, true, Duration::from_secs(1));
    let c = w.take_worker_config().ok().unwrap();
    assert_eq!(c.reg_key, "key");
    assert_eq!(c.notify_filter, 0x1000000F);
    assert!(c.watch_subtree);
    assert_eq!(c.tick_duration, Duration::from_secs(1));
    assert!(!w.holds_key());
}

#[test]
fn second_activation_fails() {
    let mut w = Watcher::new(1u8, 1, false, Duration::from_millis(10));
    assert!(w.take_worker_config().is_ok());
    w.record_worker(Feed::Channel);
    assert!(matches!(w.take_worker_config(), Err(WatchError::KeyConsumed)));
}

#[test]
fn poll_after_channel_activation_fails() {
    let mut w = Watcher::new(1u8, 1, false, Duration::from_millis(10));
    assert!(w.take_worker_config().is_ok());
    w.record_worker(Feed::Channel);
    assert_eq!(w.poll_step(), PollStep::Fail(WatchError::NoWorker));
}

#[test]
fn poll_after_failed_start_fails() {
    let mut w = Watcher::new(1u8, 1, false, Duration::from_millis(10));
    assert!(w.take_worker_config().is_ok());
    assert_eq!(w.poll_step(), PollStep::Fail(WatchError::NoWorker));
}

#[test]
fn sequence_polls_read_after_start() {
    let mut w = Watcher::new(1u8, 1, false, Duration::from_millis(10));
    assert_eq!(w.poll_step(), PollStep::Start);
    assert!(w.take_worker_config().is_ok());
    w.record_worker(Feed::Sequence);
    assert_eq!(w.worker(), Some(Feed::Sequence));
    assert_eq!(w.poll_step(), PollStep::Receive);
    assert_eq!(w.poll_step(), PollStep::Receive);
}

#[test]
fn sequence_item_maps_channel_reads() {
    assert_eq!(
        sequence_item(ChannelRead::Value(WatchResponse::Notify)),
        SequencePoll::Ready(WatchResponse::Notify)
    );
    assert_eq!(sequence_item(ChannelRead::Empty), SequencePoll::NotReady);
    assert_eq!(sequence_item(ChannelRead::Disconnected), SequencePoll::Ended);
}

#[test]
fn worker_starts_by_watching() {
    let (w, a) = Worker::new();
    assert_eq!(a, WorkerAction::Watch);
    assert_eq!(w.phase(), WorkerPhase::Arming);
}

#[test]
fn one_change_gives_one_notify_then_rest() {
    let (mut w, _) = Worker::new();
    let mut sends = 0;
    let a = w.step(WorkerEvent::Watched(Ok(WatchResponse::Notify)));
    if let WorkerAction::Send(v) = a {
        assert_eq!(v, WatchResponse::Notify);
        sends += 1;
    }
    assert_eq!(w.step(WorkerEvent::Delivered(true)), WorkerAction::Sleep);
    assert_eq!(w.phase(), WorkerPhase::Resting);
    assert_eq!(w.step(WorkerEvent::Rested), WorkerAction::Watch);
    assert_eq!(w.phase(), WorkerPhase::Arming);
    assert_eq!(sends, 1);
}

#[test]
fn sends_match_completed_watches() {
    let (mut w, _) = Worker::new();
    let mut sends = 0;
    for _ in 0..3 {
        if let WorkerAction::Send(_) = w.step(WorkerEvent::Watched(Ok(WatchResponse::Notify))) {
            sends += 1;
        }
        assert!(!matches!(w.step(WorkerEvent::Delivered(true)), WorkerAction::Send(_)));
        assert!(!matches!(w.step(WorkerEvent::Rested), WorkerAction::Send(_)));
    }
    assert_eq!(sends, 3);
}

#[test]
fn lost_receiver_halts_worker() {
    let (mut w, _) = Worker::new();
    w.step(WorkerEvent::Watched(Ok(WatchResponse::Notify)));
    assert_eq!(
        w.step(WorkerEvent::Delivered(false)),
        WorkerAction::Halt(WatchError::PeerGone)
    );
    assert_eq!(w.phase(), WorkerPhase::Stopped(WatchError::PeerGone));
    assert!(!w.accepts(&WorkerEvent::Rested));
    assert!(!w.accepts(&WorkerEvent::Watched(Ok(WatchResponse::Notify))));
    assert!(!w.accepts(&WorkerEvent::Delivered(true)));
}

#[test]
fn failed_watch_halts_worker() {
    let (mut w, _) = Worker::new();
    assert_eq!(
        w.step(WorkerEvent::Watched(Err(WatchError::RegistrationFailed(87)))),
        WorkerAction::Halt(WatchError::RegistrationFailed(87))
    );
    assert_eq!(w.phase(), WorkerPhase::Stopped(WatchError::RegistrationFailed(87)));
}

#[test]
fn worker_accepts_only_the_awaited_outcome() {
    let (mut w, _) = Worker::new();
    assert!(w.accepts(&WorkerEvent::Watched(Ok(WatchResponse::Timeout))));
    assert!(!w.accepts(&WorkerEvent::Rested));
    w.step(WorkerEvent::Watched(Ok(WatchResponse::Timeout)));
    assert!(w.accepts(&WorkerEvent::Delivered(true)));
    assert!(!w.accepts(&WorkerEvent::Rested));
}
