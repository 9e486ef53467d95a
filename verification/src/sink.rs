//! The minimal byte-sink capability the screen writes through.
//!
//! A sink either accepts a whole slice of bytes or reports a transport
//! error and accepts nothing of it, so a caller always knows exactly which
//! bytes the sink holds.  The in-memory [`MemSink`] is the sink the tests
//! and the unverified device transports use.

use vstd::prelude::*;

use crate::ScreenError;

verus! {

/// A buffered destination for outgoing bytes.
pub trait Sink: Sized {
    /// All bytes the sink has accepted so far, oldest first.
    spec fn accepted(&self) -> Seq<u8>;

    /// Accept the whole of `buf`, or report a transport error and accept
    /// nothing of it.  Returns the count of bytes accepted.
    fn write(&mut self, buf: &[u8]) -> (r: Result<usize, ScreenError>)
        ensures
            match r {
                Ok(n) => n == buf@.len() && final(self).accepted() == old(self).accepted() + buf@,
                Err(e) => e == ScreenError::Transport
                    && final(self).accepted() == old(self).accepted(),
            },
    ;

    /// Push everything accepted so far towards the transport.  What the
    /// sink has accepted does not change.
    fn flush(&mut self) -> (r: Result<(), ScreenError>)
        ensures
            match r {
                Ok(_) => final(self).accepted() == old(self).accepted(),
                Err(e) => e == ScreenError::Transport
                    && final(self).accepted() == old(self).accepted(),
            },
    ;
}

/// An in-memory sink: a growable buffer that accepts every write.
pub struct MemSink {
    data: Vec<u8>,
}

impl MemSink {
    /// Create an empty in-memory sink.
    pub fn new() -> (s: MemSink)
        ensures
            s.accepted() == Seq::<u8>::empty(),
    {
        MemSink { data: Vec::new() }
    }

    /// Borrow everything the sink has accepted so far.
    pub fn data(&self) -> (r: &Vec<u8>)
        ensures
            r@ == self.accepted(),
    {
        &self.data
    }

    /// Take everything the sink has accepted so far, leaving it empty.
    pub fn take(&mut self) -> (r: Vec<u8>)
        ensures
            r@ == old(self).accepted(),
            final(self).accepted() == Seq::<u8>::empty(),
    {
        let mut out: Vec<u8> = Vec::new();
        core::mem::swap(&mut self.data, &mut out);
        out
    }
}

impl Sink for MemSink {
    closed spec fn accepted(&self) -> Seq<u8> {
        self.data@
    }

    fn write(&mut self, buf: &[u8]) -> (r: Result<usize, ScreenError>) {
        let mut i: usize = 0;
        while i < buf.len()
            invariant
                i <= buf@.len(),
                self.data@ == old(self).data@ + buf@.take(i as int),
            decreases buf@.len() - i,
        {
            self.data.push(buf[i]);
            i = i + 1;
            proof {
                assert(self.data@ =~= old(self).data@ + buf@.take(i as int));
            }
        }
        proof {
            assert(self.data@ =~= old(self).data@ + buf@);
        }
        Ok(buf.len())
    }

    fn flush(&mut self) -> (r: Result<(), ScreenError>) {
        Ok(())
    }
}

} // verus!
