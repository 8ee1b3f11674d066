//! Byte-at-a-time line reassembly.
//!
//! The output pipe is an unframed byte stream: there is no length
//! prefix, so a line exists only once its terminator byte has been
//! seen, and a partial line must never be handed on.  A `LineBuffer`
//! accumulates bytes one at a time and yields each complete line,
//! terminator included, exactly as the bytes arrived.

use vstd::prelude::*;

verus! {

/// The byte that terminates a line.
pub const LINE_TERMINATOR: u8 = 10;

/// Accumulates bytes read one at a time from the output pipe until a
/// line terminator completes a line.
pub struct LineBuffer {
    buf: Vec<u8>,
}

impl LineBuffer {
    /// The bytes of the line under assembly, in arrival order.
    pub closed spec fn pending(&self) -> Seq<u8> {
        self.buf@
    }

    /// An empty buffer: no partial line pending.
    pub fn new() -> (r: LineBuffer)
        ensures
            r.pending() == Seq::<u8>::empty(),
    {
        let r = LineBuffer { buf: Vec::new() };
        proof {
            assert(r.pending() =~= Seq::<u8>::empty());
        }
        r
    }

    /// Takes the next byte of the stream.  A terminator completes the
    /// pending line and yields it, terminator included, leaving the
    /// buffer empty for the next line; any other byte is appended and
    /// nothing is yielded.
    pub fn push_byte(&mut self, b: u8) -> (r: Option<Vec<u8>>)
        ensures
            b == LINE_TERMINATOR ==> {
                &&& r matches Some(line) && line@ == old(self).pending().push(LINE_TERMINATOR)
                &&& final(self).pending() == Seq::<u8>::empty()
            },
            b != LINE_TERMINATOR ==> {
                &&& r is None
                &&& final(self).pending() == old(self).pending().push(b)
            },
    {
        self.buf.push(b);
        if b == LINE_TERMINATOR {
            let mut line: Vec<u8> = Vec::new();
            core::mem::swap(&mut line, &mut self.buf);
            proof {
                assert(self.pending() =~= Seq::<u8>::empty());
            }
            Some(line)
        } else {
            None
        }
    }
}

} // verus!
