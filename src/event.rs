//! The unique name of the wait event of one watch.
use vstd::prelude::*;
use vstd::string::*;

verus! {

/// The tag that ends every event name.
pub open spec fn event_suffix() -> Seq<char> {
    "-reg-watcher"@
}

/// A lowercase hexadecimal digit.
pub open spec fn is_lower_hex(c: char) -> bool {
    ('0' <= c && c <= '9') || ('a' <= c && c <= 'f')
}

/// Text of an identifier in hyphenated form: 8-4-4-4-12 lowercase hex
/// digits joined by hyphens.
pub open spec fn is_hyphenated_uuid(s: Seq<char>) -> bool {
    &&& s.len() == 36
    &&& forall|i: int|
        0 <= i < 36 ==> if i == 8 || i == 13 || i == 18 || i == 23 {
            s[i] == '-'
        } else {
            is_lower_hex(#[trigger] s[i])
        }
}

/// The UTF-16 code units of one character.
pub open spec fn utf16_of_char(c: char) -> Seq<u16> {
    let v = c as u32;
    if v < 0x10000 {
        seq![v as u16]
    } else {
        seq![(0xD800 + (v - 0x10000) / 0x400) as u16, (0xDC00 + (v - 0x10000) % 0x400) as u16]
    }
}

/// The UTF-16 code units of a text.
pub open spec fn utf16_of(s: Seq<char>) -> Seq<u16>
    decreases s.len(),
{
    if s.len() == 0 {
        seq![]
    } else {
        utf16_of(s.drop_last()) + utf16_of_char(s.last())
    }
}

/// No nul character stands anywhere but last.
pub open spec fn no_interior_nul(s: Seq<char>) -> bool {
    forall|i: int| 0 <= i < s.len() - 1 ==> s[i] != '\0'
}

/// The nul-terminated UTF-16 form of a text; a final nul is not doubled.
pub open spec fn wide_nul_of(s: Seq<char>) -> Seq<u16> {
    if s.len() > 0 && s.last() == '\0' {
        utf16_of(s)
    } else {
        utf16_of(s).push(0)
    }
}

/// Relies on uuid::Uuid::new_v4 and its hyphenated lowercase formatter: a
/// fresh random version-4 identifier as 36 characters of text.
#[verifier::external_body]
fn new_uuid_text() -> (r: String)
    ensures
        is_hyphenated_uuid(r@),
        r@[14] == '4',
{
    uuid::Uuid::new_v4().hyphenated().to_string()
}

/// Relies on widestring::U16CString::from_str and into_vec_with_nul: the
/// text encoded as UTF-16 with one nul terminator, refused where a nul
/// stands before the end.
#[verifier::external_body]
fn wide_with_nul(s: &str) -> (r: Option<Vec<u16>>)
    ensures
        r.is_some() <==> no_interior_nul(s@),
        r matches Some(v) ==> v@ == wide_nul_of(s@),
{
    widestring::U16CString::from_str(s).ok().map(|w| w.into_vec_with_nul())
}

/// The name of a wait event made from the identifier text `uid`.
pub fn event_name(uid: &str) -> (r: String)
    ensures
        r@ == uid@ + event_suffix(),
{
    let name = String::from_str(uid);
    proof {
        reveal_strlit("-reg-watcher");
    }
    name.concat("-reg-watcher")
}

/// The name of a wait event, as text and as the nul-terminated UTF-16 units
/// that the system receives.
pub struct EventName {
    pub text: String,
    pub wide: Vec<u16>,
}

/// A fresh event name: a random identifier followed by the tag, so that
/// concurrent watches never share an event.
pub fn new_event_name() -> (r: EventName)
    ensures
        r.text@.len() == 36 + event_suffix().len(),
        is_hyphenated_uuid(r.text@.subrange(0, 36)),
        r.text@.subrange(36, r.text@.len() as int) == event_suffix(),
        r.wide@ == utf16_of(r.text@).push(0),
{
    let uid = new_uuid_text();
    let text = event_name(uid.as_str());
    proof {
        reveal_strlit("-reg-watcher");
        assert(text@.subrange(0, 36) =~= uid@);
        assert(text@.subrange(36, text@.len() as int) =~= event_suffix());
        assert forall|i: int| 0 <= i < text@.len() - 1 implies text@[i] != '\0' by {
            if i < 36 {
                assert(text@[i] == uid@[i]);
            } else {
                assert(text@[i] == event_suffix()[i - 36]);
            }
        }
        assert(text@.last() != '\0');
    }
    match wide_with_nul(text.as_str()) {
        Some(wide) => EventName { text, wide },
        None => {
            proof {
                assert(false);
            }
            EventName { text, wide: Vec::new() }
        },
    }
}

} // verus!
