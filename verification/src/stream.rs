//! Abstract byte streams. The framing codec and the device clients read and
//! write through this trait; an in-memory channel implements it for loopback
//! use and tests, while real sockets implement it outside the verified
//! library.

use crate::err_house::ErrorKind;
use vstd::prelude::*;

verus! {

broadcast use vstd::seq_lib::group_seq_lib_default, vstd::seq::group_seq_axioms;

/// A two-way ordered byte stream: one incoming direction that reads consume
/// and one outgoing direction that writes extend. A read-only or write-only
/// endpoint simply fails the other operation.
pub trait ByteChannel {
    /// The bytes still to be read, in arrival order.
    spec fn incoming(&self) -> Seq<u8>;

    /// All bytes written so far, in departure order.
    spec fn outgoing(&self) -> Seq<u8>;

    /// Reads exactly `n` bytes from the head of the incoming direction, or
    /// fails with an I/O-class error. On failure the amount consumed is
    /// unspecified; the outgoing direction is never touched.
    fn read_bytes(&mut self, n: usize) -> (r: Result<Vec<u8>, ErrorKind>)
        ensures
            final(self).outgoing() == old(self).outgoing(),
            match r {
                Ok(v) => {
                    &&& old(self).incoming().len() >= n
                    &&& v@ == old(self).incoming().take(n as int)
                    &&& final(self).incoming() == old(self).incoming().skip(n as int)
                },
                Err(e) => e == ErrorKind::IoTimeOut || e == ErrorKind::IoError,
            },
    ;

    /// Appends the whole buffer to the outgoing direction, or fails with an
    /// I/O error; the incoming direction is never touched.
    fn write_bytes(&mut self, buf: &[u8]) -> (r: Result<(), ErrorKind>)
        ensures
            final(self).incoming() == old(self).incoming(),
            match r {
                Ok(()) => final(self).outgoing() == old(self).outgoing() + buf@,
                Err(e) => e == ErrorKind::IoError,
            },
    ;
}

/// An in-memory two-way stream: reads consume a fixed buffer of pre-received
/// bytes, writes accumulate into a transcript.
pub struct MemChannel {
    pub rx: Vec<u8>,
    pub rx_pos: usize,
    pub tx: Vec<u8>,
}

impl MemChannel {
    /// A channel that will serve `rx` to reads and record writes.
    pub fn new(rx: Vec<u8>) -> (r: MemChannel)
        ensures
            r.incoming() == rx@,
            r.outgoing() == Seq::<u8>::empty(),
    {
        MemChannel { rx, rx_pos: 0, tx: Vec::new() }
    }

    /// The transcript of everything written to the channel.
    pub fn sent_bytes(&self) -> (r: &Vec<u8>)
        ensures
            r@ == self.outgoing(),
    {
        &self.tx
    }
}

impl ByteChannel for MemChannel {
    open spec fn incoming(&self) -> Seq<u8> {
        self.rx@.skip(self.rx_pos as int)
    }

    open spec fn outgoing(&self) -> Seq<u8> {
        self.tx@
    }

    fn read_bytes(&mut self, n: usize) -> (r: Result<Vec<u8>, ErrorKind>) {
        if !(self.rx_pos <= self.rx.len()) {
            return Err(ErrorKind::IoError);
        }
        if n > self.rx.len() - self.rx_pos {
            return Err(ErrorKind::IoTimeOut);
        }
        let out = vstd::slice::slice_to_vec(
            vstd::slice::slice_subrange(self.rx.as_slice(), self.rx_pos, self.rx_pos + n),
        );
        self.rx_pos = self.rx_pos + n;
        proof {
            assert(out@ =~= old(self).incoming().take(n as int));
            assert(self.incoming() =~= old(self).incoming().skip(n as int));
        }
        Ok(out)
    }

    fn write_bytes(&mut self, buf: &[u8]) -> (r: Result<(), ErrorKind>) {
        crate::wire::push_all(&mut self.tx, buf);
        Ok(())
    }
}

} // verus!
