//! Strings as the kernel takes them.

use vstd::prelude::*;

verus! {

/// A string handed to the kernel: borrowed text, which the kernel reads as
/// that many bytes of UTF-8 and never writes.
#[derive(Clone, Copy, Debug)]
pub struct KStrCPtr<'a> {
    text: &'a str,
}

impl<'a> View for KStrCPtr<'a> {
    type V = Seq<char>;

    closed spec fn view(&self) -> Seq<char> {
        self.text@
    }
}

impl<'a> KStrCPtr<'a> {
    /// The kernel string that spells `text`.
    pub fn from_str(text: &'a str) -> (kstr: Self)
        ensures
            kstr@ == text@,
    {
        KStrCPtr { text }
    }

    /// The text of the string.
    pub fn as_str(&self) -> (text: &'a str)
        ensures
            text@ == self@,
    {
        self.text
    }

    /// The number of bytes the kernel is to read.
    pub fn len(&self) -> (bytes: usize)
        ensures
            bytes == vstd::utf8::encode_utf8(self@).len() as usize,
    {
        self.text.len()
    }
}

} // verus!
