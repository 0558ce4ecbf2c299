//! The status string: a short, fixed-capacity text that names the
//! regulator's mode for the display and the log.

use vstd::prelude::*;
use vstd::utf8::encode_utf8;
use crate::shared::RM_LEN;

verus! {

/// A text of at most [`RM_LEN`] bytes, kept in a `heapless::String`.
#[verifier::external_body]
pub struct StatusText {
    text: heapless::String<RM_LEN>,
}

/// The characters that a status string holds.
pub uninterp spec fn status_text(status: StatusText) -> Seq<char>;

impl View for StatusText {
    type V = Seq<char>;

    open spec fn view(&self) -> Seq<char> {
        status_text(*self)
    }
}

/// `heapless::String::new`: a string that holds nothing.
#[verifier::external_body]
fn status_new() -> (status: StatusText)
    ensures
        status_text(status) == Seq::<char>::empty(),
{
    StatusText { text: heapless::String::new() }
}

/// `heapless::String::clear`: afterwards the string holds nothing.
#[verifier::external_body]
fn status_clear(status: &mut StatusText)
    ensures
        status_text(*final(status)) == Seq::<char>::empty(),
{
    status.text.clear()
}

/// `heapless::String::push_str`: appends `text` if the UTF-8 bytes of both
/// fit the capacity together, and leaves the string as it was if they do not.
#[verifier::external_body]
fn status_push_str(status: &mut StatusText, text: &str) -> (pushed: bool)
    ensures
        pushed == (encode_utf8(status_text(*old(status))).len() + encode_utf8(text@).len()
            <= RM_LEN),
        pushed ==> status_text(*final(status)) == status_text(*old(status)) + text@,
        !pushed ==> status_text(*final(status)) == status_text(*old(status)),
{
    status.text.push_str(text).is_ok()
}

/// `heapless::String::as_str`: the characters that the string holds.
#[verifier::external_body]
fn status_as_str(status: &StatusText) -> (text: &str)
    ensures
        text@ == status_text(*status),
{
    status.text.as_str()
}

impl StatusText {
    /// A status string that holds nothing.
    pub fn new() -> (status: StatusText)
        ensures
            status@ == Seq::<char>::empty(),
    {
        status_new()
    }

    /// The text.
    pub fn as_str(&self) -> (text: &str)
        ensures
            text@ == self@,
    {
        status_as_str(self)
    }

    /// Replaces the text by `text` if that fits the capacity; a text that
    /// does not fit leaves the string empty.
    pub fn set(&mut self, text: &str) -> (fits: bool)
        ensures
            fits == (encode_utf8(text@).len() <= RM_LEN),
            fits ==> final(self)@ == text@,
            !fits ==> final(self)@ == Seq::<char>::empty(),
    {
        status_clear(self);
        assert(encode_utf8(Seq::<char>::empty()).len() == 0);
        let fits: bool = status_push_str(self, text);
        assert(Seq::<char>::empty() + text@ =~= text@);
        fits
    }
}

} // verus!
