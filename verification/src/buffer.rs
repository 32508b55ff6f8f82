//! The value of a successful read.

use vstd::prelude::*;
use vstd::utf8::*;
use vstd::string::StringSliceAdditionalSpecFns;

verus! {

/// An owned byte sequence of exact length, as the engine returned it.
#[derive(Clone, Debug, PartialEq, Eq)]
pub struct DBVector {
    bytes: Vec<u8>,
}

impl View for DBVector {
    type V = Seq<u8>;

    closed spec fn view(&self) -> Seq<u8> {
        self.bytes@
    }
}

/// `core::str::from_utf8`, with its error dropped. Claimed: the result is
/// `Some` exactly for well-formed UTF-8, and the text then has the given
/// bytes as its encoding.
#[verifier::external_body]
fn utf8_text(bytes: &[u8]) -> (text: Option<&str>)
    ensures
        text.is_some() == valid_utf8(bytes@),
        text matches Some(s) ==> s.spec_bytes() == bytes@,
{
    core::str::from_utf8(bytes).ok()
}

impl DBVector {
    /// Takes ownership of the bytes of a value.
    pub fn from_vec(bytes: Vec<u8>) -> (v: DBVector)
        ensures
            v@ == bytes@,
    {
        DBVector { bytes }
    }

    /// The number of bytes.
    pub fn len(&self) -> (n: usize)
        ensures
            n == self@.len(),
    {
        self.bytes.len()
    }

    /// Whether the value has no bytes. An empty value is still a value.
    pub fn is_empty(&self) -> (b: bool)
        ensures
            b == (self@.len() == 0),
    {
        self.bytes.len() == 0
    }

    /// The bytes, borrowed.
    pub fn as_slice(&self) -> (s: &[u8])
        ensures
            s@ == self@,
    {
        self.bytes.as_slice()
    }

    /// The bytes, copied.
    pub fn to_vec(&self) -> (v: Vec<u8>)
        ensures
            v@ == self@,
    {
        self.bytes.clone()
    }

    /// The value as text: `Some` exactly where the bytes are well-formed
    /// UTF-8, and then the text that they encode.
    pub fn to_utf8(&self) -> (text: Option<&str>)
        ensures
            text.is_some() == valid_utf8(self@),
            text matches Some(s) ==> s.spec_bytes() == self@,
    {
        utf8_text(self.bytes.as_slice())
    }
}

} // verus!
