//! Decorator that couples a cipher instance with a byte channel.
//!
//! A [`Stream`] owns a [`Rabbit`] and any channel object, and offers the
//! two keystream transformations a read/write wrapper needs: producing
//! the encrypted copy of outgoing bytes, and transforming incoming bytes
//! in place.  Both are proved to combine the data with the same
//! keystream that direct buffer encryption uses, so routing bytes
//! through a channel cannot change what they become.  The channel I/O
//! itself stays outside: the caller performs it with the bytes these
//! methods hand over.

use vstd::prelude::*;

use crate::cipher::advance;
use crate::cipher::keystream;
use crate::cipher::lemma_advance_step;
use crate::cipher::lemma_advance_wf;
use crate::cipher::lemma_keystream_index;
use crate::cipher::lemma_keystream_len;
use crate::cipher::xor_keystream;
use crate::cipher::Rabbit;
use crate::cipher::RabbitView;

verus! {

/// Wrapper that owns a cipher and a channel object of any type.
pub struct Stream<S> {
    stream: S,
    rabbit: Rabbit,
}

impl<S> Stream<S> {
    /// The abstract value of the owned cipher.
    pub closed spec fn cipher(self) -> RabbitView {
        self.rabbit@
    }

    /// The owned channel object.
    pub closed spec fn channel(self) -> S {
        self.stream
    }

    /// Couples a cipher with a channel object, taking ownership of both.
    pub fn new(rabbit: Rabbit, stream: S) -> (r: Stream<S>)
        ensures
            r.cipher() == rabbit@,
            r.channel() == stream,
    {
        Stream { stream, rabbit }
    }

    /// Hands the cipher and the channel back, ending the decoration.
    pub fn into_inner(self) -> (r: (Rabbit, S))
        ensures
            r.0@ == self.cipher(),
            r.1 == self.channel(),
    {
        let rabbit = self.rabbit;
        let stream = self.stream;
        (rabbit, stream)
    }

    /// Encrypts outgoing bytes: returns the transformed copy of `data`
    /// for the caller to write to the channel, consuming one keystream
    /// byte per data byte.
    pub fn write_bytes(&mut self, data: &[u8]) -> (out: Vec<u8>)
        requires
            old(self).cipher().wf(),
        ensures
            out@ == xor_keystream(old(self).cipher(), data@),
            final(self).cipher() == advance(old(self).cipher(), data@.len()),
            final(self).cipher().wf(),
            final(self).channel() == old(self).channel(),
    {
        let ghost v0 = self.rabbit@;
        let n = data.len();
        proof {
            lemma_keystream_len(v0, n as nat);
        }
        let mut out: Vec<u8> = Vec::new();
        let mut i: usize = 0;
        while i < n
            invariant
                v0.wf(),
                i <= n,
                n == data@.len(),
                self.rabbit@ == advance(v0, i as nat),
                self.rabbit@.wf(),
                self.stream == old(self).stream,
                out@.len() == i,
                keystream(v0, n as nat).len() == n,
                forall|j: int| 0 <= j < i ==> out@[j] == (data@[j] ^ keystream(v0, n as nat)[j]),
            decreases n - i,
        {
            proof {
                lemma_advance_wf(v0, i as nat);
                lemma_keystream_index(v0, n as nat, i as int);
                lemma_advance_step(v0, i as nat);
            }
            let b = self.rabbit.get_s_byte();
            out.push(data[i] ^ b);
            i = i + 1;
        }
        proof {
            assert(out@ =~= xor_keystream(v0, data@));
        }
        out
    }

    /// Decrypts incoming bytes in place: the caller fills `data` from
    /// the channel, and this transforms it with the same keystream that
    /// direct buffer decryption would use.
    pub fn read_bytes(&mut self, data: &mut [u8])
        requires
            old(self).cipher().wf(),
        ensures
            final(data)@ == xor_keystream(old(self).cipher(), old(data)@),
            final(self).cipher() == advance(old(self).cipher(), old(data)@.len()),
            final(self).cipher().wf(),
            final(self).channel() == old(self).channel(),
    {
        self.rabbit.decrypt_inplace(data);
    }
}

} // verus!
