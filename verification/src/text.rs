//! Text that the engine hands out.

use vstd::prelude::*;
use vstd::utf8::{decode_utf8, valid_utf8};

verus! {

/// Why no `Text` was made.
#[derive(Debug, Clone, Copy, PartialEq, Eq)]
pub enum TextNewError {
    /// The engine's answer was a null pointer.
    NullPointer(),
}

impl TextNewError {
    /// The failure in words.
    pub fn to_string(&self) -> (message: String)
        ensures
            message@ == "Attempted to initialize with null pointer"@,
    {
        "Attempted to initialize with null pointer".to_owned()
    }
}

/// The bytes of one text from the engine: mostly UTF-8, but nothing here
/// relies on that. The view is the bytes as the engine wrote them.
#[derive(Debug)]
pub struct Text {
    bytes: Vec<u8>,
}

impl View for Text {
    type V = Seq<u8>;

    closed spec fn view(&self) -> Seq<u8> {
        self.bytes@
    }
}

/// What `String::from_utf8_lossy` makes of `bytes`: their text, with each
/// sequence that is not UTF-8 replaced by U+FFFD.
pub uninterp spec fn lossy_utf8(bytes: Seq<u8>) -> Seq<char>;

/// `String::from_utf8_lossy`, as an owned string. The result depends on the
/// bytes alone; where they are valid UTF-8 it is the text they encode, with
/// nothing replaced.
#[verifier::external_body]
fn from_utf8_lossy(bytes: &[u8]) -> (text: String)
    ensures
        text@ == lossy_utf8(bytes@),
        valid_utf8(bytes@) ==> text@ == decode_utf8(bytes@),
{
    String::from_utf8_lossy(bytes).into_owned()
}

impl Text {
    /// Wraps what the engine answered: `Some` with the bytes of its string,
    /// or `None` where it answered with a null pointer, which is refused.
    pub fn new(raw: Option<Vec<u8>>) -> (made: Result<Self, TextNewError>)
        ensures
            match raw {
                Some(bytes) => made matches Ok(text) && text@ == bytes@,
                None => made == Err::<Self, _>(TextNewError::NullPointer()),
            },
    {
        match raw {
            Some(bytes) => Ok(Text { bytes }),
            None => Err(TextNewError::NullPointer()),
        }
    }

    /// Wraps what the engine answered where a null pointer is a permitted
    /// answer and means that there is no text: it gives the empty text.
    pub fn new_or_empty(raw: Option<Vec<u8>>) -> (text: Self)
        ensures
            text@ == match raw {
                Some(bytes) => bytes@,
                None => Seq::<u8>::empty(),
            },
    {
        match raw {
            Some(bytes) => Text { bytes },
            None => Text { bytes: Vec::new() },
        }
    }

    /// The bytes of the text.
    pub fn as_bytes(&self) -> (bytes: &[u8])
        ensures
            bytes@ == self@,
    {
        self.bytes.as_slice()
    }

    /// The text as a string, with U+FFFD in place of what is not UTF-8.
    pub fn to_string(&self) -> (text: String)
        ensures
            text@ == lossy_utf8(self@),
            valid_utf8(self@) ==> text@ == decode_utf8(self@),
    {
        from_utf8_lossy(self.bytes.as_slice())
    }
}

} // verus!
