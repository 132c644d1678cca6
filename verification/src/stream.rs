//! A byte source held in memory and read front to back.

use crate::error::Socks4Error;
use vstd::prelude::*;
use vstd::slice::{slice_subrange, slice_to_vec};

verus! {

/// Bytes that arrived from a peer, with a mark of how far they have been read.
///
/// The view is what is still unread. Reading only ever moves the mark
/// forward: bytes that were taken are gone, also after a read that failed.
pub struct ByteStream {
    data: Vec<u8>,
    pos: usize,
}

impl View for ByteStream {
    type V = Seq<u8>;

    closed spec fn view(&self) -> Seq<u8> {
        self.data@.skip(self.pos as int)
    }
}

impl ByteStream {
    #[verifier::type_invariant]
    spec fn mark_in_bounds(self) -> bool {
        self.pos <= self.data@.len()
    }

    /// A stream over `data`, with nothing read yet.
    pub fn new(data: Vec<u8>) -> (stream: ByteStream)
        ensures
            stream@ == data@,
    {
        ByteStream { data, pos: 0 }
    }

    /// How many bytes are still unread.
    pub fn remaining(&self) -> (n: usize)
        ensures
            n == self@.len(),
    {
        proof {
            use_type_invariant(self);
        }
        self.data.len() - self.pos
    }

    /// Takes exactly `n` bytes off the front.
    ///
    /// Where fewer than `n` are left the read fails, and it leaves nothing
    /// behind: what was there is consumed, so that no later read can pick up
    /// the tail of a broken frame.
    pub fn read_exact(&mut self, n: usize) -> (taken: Result<Vec<u8>, Socks4Error>)
        ensures
            match taken {
                Ok(bytes) => {
                    &&& n <= old(self)@.len()
                    &&& bytes@ == old(self)@.take(n as int)
                    &&& final(self)@ == old(self)@.skip(n as int)
                },
                Err(error) => {
                    &&& n > old(self)@.len()
                    &&& error == Socks4Error::Framing
                    &&& final(self)@ == Seq::<u8>::empty()
                },
            },
    {
        proof {
            use_type_invariant(&*self);
        }
        let len: usize = self.data.len();
        if n <= len - self.pos {
            let end: usize = self.pos + n;
            let bytes: Vec<u8> = slice_to_vec(slice_subrange(self.data.as_slice(), self.pos, end));
            self.pos = end;
            Ok(bytes)
        } else {
            self.pos = len;
            Err(Socks4Error::Framing)
        }
    }

    /// Takes what is there off the front, up to `limit` bytes. At the end of
    /// the stream that is nothing, which is no failure.
    pub fn read(&mut self, limit: usize) -> (bytes: Vec<u8>)
        ensures
            bytes@ == old(self)@.take(read_len(old(self)@.len(), limit as nat) as int),
            final(self)@ == old(self)@.skip(read_len(old(self)@.len(), limit as nat) as int),
    {
        proof {
            use_type_invariant(&*self);
        }
        let left: usize = self.data.len() - self.pos;
        let n: usize = if limit < left {
            limit
        } else {
            left
        };
        let end: usize = self.pos + n;
        let bytes: Vec<u8> = slice_to_vec(slice_subrange(self.data.as_slice(), self.pos, end));
        self.pos = end;
        bytes
    }
}

/// How many bytes one read takes from a stream that holds `available`, when
/// it asks for up to `limit`.
pub open spec fn read_len(available: nat, limit: nat) -> nat {
    if limit < available {
        limit
    } else {
        available
    }
}

} // verus!
