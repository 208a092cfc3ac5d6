//! The cipher façade: key setup, reset and reinitialization, and the
//! exclusive-or combination of data with the keystream.
//!
//! A [`Rabbit`] instance owns two state snapshots — the master state
//! captured right after the key schedule, and the live state that evolves
//! as keystream bytes are produced — plus a 16-byte block buffer and a
//! cursor counting how many of its bytes have been consumed.  Its
//! abstract value is a [`RabbitView`], and the keystream it will produce
//! is the specification function [`keystream`] of that view alone, so
//! every contract here pins the exact bytes an operation reads or writes.

use vstd::prelude::*;

use crate::keys::InitVec;
use crate::keys::Key;
use crate::schedule::iv_setup_spec;
use crate::schedule::key_setup_spec;
use crate::schedule::setup_iv;
use crate::schedule::setup_key;
use crate::state::extract;
use crate::state::extract_spec;
use crate::state::next_state;
use crate::state::next_state_spec;
use crate::state::State;

verus! {

/// Abstract value of a cipher instance: the master state (the reset
/// point), the live state, the buffered keystream block, and the count
/// of buffered bytes already consumed (16 meaning the buffer is spent).
#[verifier::ext_equal]
pub struct RabbitView {
    pub master: State,
    pub state: State,
    pub buf: Seq<u8>,
    pub idx: int,
}

impl RabbitView {
    /// Well-formedness: the cursor lies in the buffer's range.
    pub open spec fn wf(self) -> bool {
        0 <= self.idx <= 16 && self.buf.len() == 16
    }
}

/// The view of a freshly set-up instance: live state equal to the given
/// snapshot, an all-zero buffer, and a spent cursor, so the first byte
/// request triggers a state update.
pub open spec fn fresh_view(master: State, live: State) -> RabbitView {
    RabbitView { master, state: live, buf: Seq::new(16, |i: int| 0u8), idx: 16 }
}

/// The view after one keystream byte has been produced: a spent buffer
/// is refilled from one state update first.
pub open spec fn advance1(v: RabbitView) -> RabbitView {
    if v.idx == 16 {
        let s = next_state_spec(v.state);
        RabbitView { master: v.master, state: s, buf: extract_spec(s), idx: 1 }
    } else {
        RabbitView { master: v.master, state: v.state, buf: v.buf, idx: v.idx + 1 }
    }
}

/// The next keystream byte of a view.
pub open spec fn stream_byte(v: RabbitView) -> u8 {
    if v.idx == 16 {
        extract_spec(next_state_spec(v.state))[0]
    } else {
        v.buf[v.idx]
    }
}

/// The view after `n` keystream bytes have been produced.
pub open spec fn advance(v: RabbitView, n: nat) -> RabbitView
    decreases n,
{
    if n == 0 {
        v
    } else {
        advance(advance1(v), (n - 1) as nat)
    }
}

/// The next `n` keystream bytes of a view.
pub open spec fn keystream(v: RabbitView, n: nat) -> Seq<u8>
    decreases n,
{
    if n == 0 {
        Seq::empty()
    } else {
        seq![stream_byte(v)] + keystream(advance1(v), (n - 1) as nat)
    }
}

/// `data` combined byte-for-byte with the keystream of `v` by
/// exclusive-or: what encryption and decryption both produce.
pub open spec fn xor_keystream(v: RabbitView, data: Seq<u8>) -> Seq<u8> {
    Seq::new(data.len(), |i: int| data[i] ^ keystream(v, data.len())[i])
}

/// Producing keystream bytes never changes the master state.
pub proof fn lemma_advance_master(v: RabbitView, n: nat)
    ensures
        advance(v, n).master == v.master,
    decreases n,
{
    if n > 0 {
        lemma_advance_master(advance1(v), (n - 1) as nat);
    }
}

/// Producing keystream bytes keeps a view well formed.
pub proof fn lemma_advance_wf(v: RabbitView, n: nat)
    requires
        v.wf(),
    ensures
        advance(v, n).wf(),
    decreases n,
{
    if n > 0 {
        if v.idx == 16 {
            crate::state::lemma_extract_len(next_state_spec(v.state));
        }
        lemma_advance_wf(advance1(v), (n - 1) as nat);
    }
}

/// Producing `n + 1` bytes is producing `n` bytes and then one more.
pub proof fn lemma_advance_step(v: RabbitView, n: nat)
    ensures
        advance(v, n + 1) == advance1(advance(v, n)),
    decreases n,
{
    if n == 0 {
        assert(advance(v, 1) == advance(advance1(v), 0));
        assert(advance(advance1(v), 0) == advance1(v));
    } else {
        lemma_advance_step(advance1(v), (n - 1) as nat);
        assert(advance(v, n + 1) == advance(advance1(v), n));
        assert(advance(v, n) == advance(advance1(v), (n - 1) as nat));
    }
}

/// The keystream has one byte per byte requested.
pub proof fn lemma_keystream_len(v: RabbitView, n: nat)
    ensures
        keystream(v, n).len() == n,
    decreases n,
{
    if n > 0 {
        lemma_keystream_len(advance1(v), (n - 1) as nat);
    }
}

/// Byte `i` of the keystream is the next byte of the view advanced by
/// `i`.
pub proof fn lemma_keystream_index(v: RabbitView, n: nat, i: int)
    requires
        0 <= i < n,
    ensures
        keystream(v, n).len() == n,
        keystream(v, n)[i] == stream_byte(advance(v, i as nat)),
    decreases n,
{
    lemma_keystream_len(v, n);
    if i > 0 {
        lemma_keystream_index(advance1(v), (n - 1) as nat, i - 1);
    }
}

/// Two views that agree on live state, buffer and cursor — whatever
/// their master states — produce the same keystream.
pub proof fn lemma_keystream_ignores_master(a: RabbitView, b: RabbitView, n: nat)
    requires
        a.state == b.state,
        a.buf == b.buf,
        a.idx == b.idx,
    ensures
        keystream(a, n) == keystream(b, n),
    decreases n,
{
    if n > 0 {
        lemma_keystream_ignores_master(advance1(a), advance1(b), (n - 1) as nat);
        assert(keystream(a, n) =~= keystream(b, n));
    }
}

/// Determinism: once the buffer is spent, the keystream depends on the
/// live state alone, so two instances whose live states agree — fresh,
/// reset or reinitialized — produce identical bytes.
pub proof fn lemma_keystream_deterministic(a: RabbitView, b: RabbitView, n: nat)
    requires
        a.state == b.state,
        a.idx == 16,
        b.idx == 16,
    ensures
        keystream(a, n) == keystream(b, n),
{
    if n > 0 {
        lemma_keystream_ignores_master(advance1(a), advance1(b), (n - 1) as nat);
        assert(keystream(a, n) =~= keystream(b, n));
    } else {
        assert(keystream(a, n) =~= keystream(b, n));
    }
}

/// Determinism of encryption: two instances whose live states agree and
/// whose buffers are spent — fresh, reset or reinitialized with the same
/// key and IV — turn the same plaintext into the same ciphertext.
pub proof fn lemma_encrypt_deterministic(a: RabbitView, b: RabbitView, data: Seq<u8>)
    requires
        a.state == b.state,
        a.idx == 16,
        b.idx == 16,
    ensures
        xor_keystream(a, data) == xor_keystream(b, data),
{
    lemma_keystream_deterministic(a, b, data.len());
    assert(xor_keystream(a, data) =~= xor_keystream(b, data));
}

/// Within one buffered block, producing bytes only moves the cursor:
/// the live state and the buffer stay as they are.
pub proof fn lemma_advance_within_block(v: RabbitView, m: nat)
    requires
        v.idx + m <= 16,
    ensures
        advance(v, m).state == v.state,
        advance(v, m).buf == v.buf,
        advance(v, m).idx == v.idx + m,
        advance(v, m).master == v.master,
    decreases m,
{
    if m > 0 {
        lemma_advance_within_block(advance1(v), (m - 1) as nat);
    }
}

/// Block pacing: from a spent buffer, consuming 16 keystream bytes
/// drives exactly one state update and spends the refilled buffer —
/// never more updates, never fewer.
pub proof fn lemma_block_pacing(v: RabbitView)
    requires
        v.idx == 16,
    ensures
        advance(v, 16).state == next_state_spec(v.state),
        advance(v, 16).idx == 16,
        advance(v, 16).master == v.master,
{
    assert(advance(v, 16) == advance(advance1(v), 15));
    lemma_advance_within_block(advance1(v), 15);
}

/// Involution: combining a message with the keystream twice, from the
/// same view both times, restores the message; decryption is encryption.
pub proof fn lemma_xor_involution(v: RabbitView, data: Seq<u8>)
    ensures
        xor_keystream(v, xor_keystream(v, data)) == data,
{
    lemma_keystream_len(v, data.len());
    assert forall|i: int| 0 <= i < data.len() implies xor_keystream(
        v,
        xor_keystream(v, data),
    )[i] == data[i] by {
        let d = data[i];
        let k = keystream(v, data.len())[i];
        assert((d ^ k) ^ k == d) by (bit_vector);
    }
    assert(xor_keystream(v, xor_keystream(v, data)) =~= data);
}

/// The Rabbit cipher: master and live state, one block of extracted
/// keystream bytes, and the count of them already consumed.
pub struct Rabbit {
    master_state: State,
    state: State,
    buf: [u8; 16],
    buf_idx: u8,
}

impl View for Rabbit {
    type V = RabbitView;

    closed spec fn view(&self) -> RabbitView {
        RabbitView {
            master: self.master_state,
            state: self.state,
            buf: self.buf@,
            idx: self.buf_idx as int,
        }
    }
}

impl Rabbit {
    /// Runs the key schedule on a zeroed state and keeps the result both
    /// as master state and as live state.
    pub fn new(key: &Key) -> (r: Rabbit)
        ensures
            r@ == fresh_view(key_setup_spec(key@), key_setup_spec(key@)),
            r@.wf(),
    {
        let mut state = State::default();
        setup_key(&mut state, key);
        let r = Rabbit { master_state: state, state, buf: [0; 16], buf_idx: 16 };
        proof {
            assert(r@ =~= fresh_view(key_setup_spec(key@), key_setup_spec(key@)));
        }
        r
    }

    /// Runs the key schedule, snapshots the result as master state —
    /// before the IV is applied — and then runs the IV schedule on the
    /// live state.
    pub fn new_iv(key: &Key, iv: &InitVec) -> (r: Rabbit)
        ensures
            r@ == fresh_view(
                key_setup_spec(key@),
                iv_setup_spec(key_setup_spec(key@), iv@),
            ),
            r@.wf(),
    {
        let mut state = State::default();
        setup_key(&mut state, key);
        let master_state = state;
        setup_iv(&mut state, iv);
        let r = Rabbit { master_state, state, buf: [0; 16], buf_idx: 16 };
        proof {
            assert(r@ =~= fresh_view(
                key_setup_spec(key@),
                iv_setup_spec(key_setup_spec(key@), iv@),
            ));
        }
        r
    }

    /// Restores the live state from the master state — the snapshot
    /// taken right after the key schedule, before any IV — and marks the
    /// buffer spent.
    pub fn reset(&mut self)
        ensures
            final(self)@ == (RabbitView {
                master: old(self)@.master,
                state: old(self)@.master,
                buf: old(self)@.buf,
                idx: 16,
            }),
            final(self)@.wf(),
    {
        self.state = self.master_state;
        self.buf_idx = 16;
    }

    /// Restores the live state from the master state and then runs the
    /// IV schedule with the given IV, reusing one key schedule across
    /// many IVs.
    pub fn reinit(&mut self, iv: &InitVec)
        ensures
            final(self)@ == (RabbitView {
                master: old(self)@.master,
                state: iv_setup_spec(old(self)@.master, iv@),
                buf: old(self)@.buf,
                idx: 16,
            }),
            final(self)@.wf(),
    {
        self.state = self.master_state;
        self.buf_idx = 16;
        setup_iv(&mut self.state, iv);
    }

    /// Produces the next keystream byte, refilling the buffer with one
    /// state update when it is spent — exactly one update per 16 bytes.
    pub(crate) fn get_s_byte(&mut self) -> (b: u8)
        requires
            old(self)@.wf(),
        ensures
            final(self)@ == advance1(old(self)@),
            final(self)@.wf(),
            b == stream_byte(old(self)@),
    {
        if self.buf_idx == 16 {
            next_state(&mut self.state);
            let s = extract(&self.state);
            self.buf = s;
            self.buf_idx = 0;
        }
        let byte = self.buf[self.buf_idx as usize];
        self.buf_idx = self.buf_idx + 1;
        proof {
            assert(self@ =~= advance1(old(self)@));
        }
        byte
    }

    /// Encrypts `data` into the first `data.len()` bytes of `buf`,
    /// leaving the rest of `buf` unchanged.  The caller must supply a
    /// buffer at least as long as the data.
    pub fn encrypt(&mut self, data: &[u8], buf: &mut [u8])
        requires
            old(self)@.wf(),
            old(buf)@.len() >= data@.len(),
        ensures
            final(self)@ == advance(old(self)@, data@.len()),
            final(self)@.wf(),
            final(buf)@.len() == old(buf)@.len(),
            final(buf)@.subrange(0, data@.len() as int) == xor_keystream(old(self)@, data@),
            final(buf)@.subrange(data@.len() as int, old(buf)@.len() as int) == old(
                buf,
            )@.subrange(data@.len() as int, old(buf)@.len() as int),
    {
        let ghost v0 = self@;
        let ghost b0 = buf@;
        let n = data.len();
        proof {
            lemma_keystream_len(v0, n as nat);
        }
        let mut i: usize = 0;
        while i < n
            invariant
                v0.wf(),
                i <= n,
                n == data@.len(),
                self@ == advance(v0, i as nat),
                self@.wf(),
                buf@.len() == b0.len(),
                n <= b0.len(),
                keystream(v0, n as nat).len() == n,
                forall|j: int| 0 <= j < i ==> buf@[j] == (data@[j] ^ keystream(v0, n as nat)[j]),
                forall|j: int| i <= j < b0.len() ==> buf@[j] == b0[j],
            decreases n - i,
        {
            proof {
                lemma_advance_wf(v0, i as nat);
                lemma_keystream_index(v0, n as nat, i as int);
                lemma_advance_step(v0, i as nat);
            }
            let b = self.get_s_byte();
            buf[i] = data[i] ^ b;
            i = i + 1;
        }
        proof {
            assert(buf@.subrange(0, data@.len() as int) =~= xor_keystream(v0, data@));
            assert(buf@.subrange(data@.len() as int, b0.len() as int) =~= b0.subrange(
                data@.len() as int,
                b0.len() as int,
            ));
        }
    }

    /// Decrypts `data` into `buf`.  The cipher is symmetric: this is the
    /// same keystream combination as [`Rabbit::encrypt`].
    #[inline]
    pub fn decrypt(&mut self, data: &[u8], buf: &mut [u8])
        requires
            old(self)@.wf(),
            old(buf)@.len() >= data@.len(),
        ensures
            final(self)@ == advance(old(self)@, data@.len()),
            final(self)@.wf(),
            final(buf)@.len() == old(buf)@.len(),
            final(buf)@.subrange(0, data@.len() as int) == xor_keystream(old(self)@, data@),
            final(buf)@.subrange(data@.len() as int, old(buf)@.len() as int) == old(
                buf,
            )@.subrange(data@.len() as int, old(buf)@.len() as int),
    {
        self.encrypt(data, buf)
    }

    /// Encrypts the bytes of `data` in place.
    pub fn encrypt_inplace(&mut self, data: &mut [u8])
        requires
            old(self)@.wf(),
        ensures
            final(self)@ == advance(old(self)@, old(data)@.len()),
            final(self)@.wf(),
            final(data)@ == xor_keystream(old(self)@, old(data)@),
    {
        let ghost v0 = self@;
        let ghost d0 = data@;
        let n = data.len();
        proof {
            lemma_keystream_len(v0, n as nat);
        }
        let mut i: usize = 0;
        while i < n
            invariant
                v0.wf(),
                i <= n,
                n == d0.len(),
                data@.len() == d0.len(),
                self@ == advance(v0, i as nat),
                self@.wf(),
                keystream(v0, n as nat).len() == n,
                forall|j: int| 0 <= j < i ==> data@[j] == (d0[j] ^ keystream(v0, n as nat)[j]),
                forall|j: int| i <= j < d0.len() ==> data@[j] == d0[j],
            decreases n - i,
        {
            proof {
                lemma_advance_wf(v0, i as nat);
                lemma_keystream_index(v0, n as nat, i as int);
                lemma_advance_step(v0, i as nat);
            }
            let b = self.get_s_byte();
            data[i] = data[i] ^ b;
            i = i + 1;
        }
        proof {
            assert(data@ =~= xor_keystream(v0, d0));
        }
    }

    /// Decrypts the bytes of `data` in place; identical to
    /// [`Rabbit::encrypt_inplace`], the cipher being symmetric.
    #[inline]
    pub fn decrypt_inplace(&mut self, data: &mut [u8])
        requires
            old(self)@.wf(),
        ensures
            final(self)@ == advance(old(self)@, old(data)@.len()),
            final(self)@.wf(),
            final(data)@ == xor_keystream(old(self)@, old(data)@),
    {
        self.encrypt_inplace(data)
    }
}

/// Reset correctness: after any number of keystream bytes, restoring the
/// master state reproduces byte-for-byte the keystream of a freshly
/// constructed instance with the same key.
pub proof fn lemma_reset_reproduces(key: Seq<u8>, n: nat, m: nat)
    ensures
        keystream(
            RabbitView {
                master: advance(fresh_view(key_setup_spec(key), key_setup_spec(key)), n).master,
                state: advance(fresh_view(key_setup_spec(key), key_setup_spec(key)), n).master,
                buf: advance(fresh_view(key_setup_spec(key), key_setup_spec(key)), n).buf,
                idx: 16,
            },
            m,
        ) == keystream(fresh_view(key_setup_spec(key), key_setup_spec(key)), m),
{
    let v0 = fresh_view(key_setup_spec(key), key_setup_spec(key));
    lemma_advance_master(v0, n);
    let r = RabbitView {
        master: advance(v0, n).master,
        state: advance(v0, n).master,
        buf: advance(v0, n).buf,
        idx: 16,
    };
    lemma_keystream_deterministic(r, v0, m);
}

/// Reinitialization independence: reinitializing with an IV — from any
/// point in the keystream — produces the same keystream as a fresh
/// instance constructed with the same key and that IV, so one key
/// schedule serves many IVs.
pub proof fn lemma_reinit_matches_fresh(key: Seq<u8>, iv: Seq<u8>, v: RabbitView, m: nat)
    requires
        v.master == key_setup_spec(key),
    ensures
        keystream(
            RabbitView {
                master: v.master,
                state: iv_setup_spec(v.master, iv),
                buf: v.buf,
                idx: 16,
            },
            m,
        ) == keystream(
            fresh_view(key_setup_spec(key), iv_setup_spec(key_setup_spec(key), iv)),
            m,
        ),
{
    let r = RabbitView {
        master: v.master,
        state: iv_setup_spec(v.master, iv),
        buf: v.buf,
        idx: 16,
    };
    let f = fresh_view(key_setup_spec(key), iv_setup_spec(key_setup_spec(key), iv));
    lemma_keystream_deterministic(r, f, m);
}

} // verus!
