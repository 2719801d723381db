//! Encoding items into byte buffers and decoding them back.

use vstd::prelude::*;
use vstd::string::StringSliceAdditionalSpecFns;

pub mod json;
mod serde_types;

verus! {

/// A buffer that encoded bytes are appended to.
pub trait EncoderWrite {
    /// The bytes the buffer holds.
    spec fn written(&self) -> Seq<u8>;

    fn write(&mut self, arg: &[u8])
        ensures
            final(self).written() == old(self).written() + arg@,
    ;
}

/// A buffer that holds bytes to decode.
pub trait DecoderRead {
    /// The bytes the buffer holds.
    spec fn content(&self) -> Seq<u8>;

    fn as_slice(&self) -> (r: &[u8])
        ensures
            r@ == self.content(),
    ;
}

impl EncoderWrite for Vec<u8> {
    open spec fn written(&self) -> Seq<u8> {
        self@
    }

    fn write(&mut self, arg: &[u8]) {
        let mut i: usize = 0;
        let ghost start = self@;
        while i < arg.len()
            invariant
                i <= arg@.len(),
                self@ == start + arg@.take(i as int),
            decreases arg@.len() - i,
        {
            self.push(arg[i]);
            i = i + 1;
            assert(self@ =~= start + arg@.take(i as int));
        }
        assert(arg@.take(arg@.len() as int) =~= arg@);
    }
}

impl DecoderRead for Vec<u8> {
    open spec fn content(&self) -> Seq<u8> {
        self@
    }

    fn as_slice(&self) -> (r: &[u8]) {
        self.as_slice()
    }
}

impl DecoderRead for &str {
    open spec fn content(&self) -> Seq<u8> {
        (*self).spec_bytes()
    }

    fn as_slice(&self) -> (r: &[u8]) {
        (*self).as_bytes()
    }
}

} // verus!
