//! The cipher state and its update function.
//!
//! The state consists of eight 32-bit state words `x0..x7`, eight 32-bit
//! counter words `c0..c7`, and a single carry bit that flows between
//! counter additions.  One call of [`next_state`] advances the counter
//! system and mixes the state words through the squaring nonlinearity;
//! [`extract`] then derives 16 keystream bytes from the state words.
//!
//! Every executable routine here is proved to compute exactly its
//! specification function, so the whole transition is a pure function of
//! the previous state.

use vstd::prelude::*;

verus! {

/// Word size of the cipher: all word arithmetic is modulo 2^32.
pub const WORDSIZE: u64 = 0x1_0000_0000;

/// Per-word additive constants for the counter system.
pub const A0: u32 = 0x4D34D34D;
pub const A1: u32 = 0xD34D34D3;
pub const A2: u32 = 0x34D34D34;
pub const A3: u32 = 0x4D34D34D;
pub const A4: u32 = 0xD34D34D3;
pub const A5: u32 = 0x34D34D34;
pub const A6: u32 = 0x4D34D34D;
pub const A7: u32 = 0xD34D34D3;

/// The inner cipher state: eight state words, eight counter words and the
/// carry bit that persists across counter updates.
#[derive(Clone, Copy, PartialEq, Eq, Structural, Debug)]
pub struct State {
    pub x0: u32,
    pub x1: u32,
    pub x2: u32,
    pub x3: u32,
    pub x4: u32,
    pub x5: u32,
    pub x6: u32,
    pub x7: u32,
    pub c0: u32,
    pub c1: u32,
    pub c2: u32,
    pub c3: u32,
    pub c4: u32,
    pub c5: u32,
    pub c6: u32,
    pub c7: u32,
    pub carry: u8,
}

impl State {
    /// The all-zero state, the starting point of the key schedule.
    pub open spec fn zeroed() -> State {
        State {
            x0: 0, x1: 0, x2: 0, x3: 0, x4: 0, x5: 0, x6: 0, x7: 0,
            c0: 0, c1: 0, c2: 0, c3: 0, c4: 0, c5: 0, c6: 0, c7: 0,
            carry: 0,
        }
    }
}

impl Default for State {
    fn default() -> (r: State)
        ensures
            r == State::zeroed(),
    {
        State {
            x0: 0, x1: 0, x2: 0, x3: 0, x4: 0, x5: 0, x6: 0, x7: 0,
            c0: 0, c1: 0, c2: 0, c3: 0, c4: 0, c5: 0, c6: 0, c7: 0,
            carry: 0,
        }
    }
}

/// Addition modulo 2^32.
pub open spec fn wadd_spec(a: u32, b: u32) -> u32 {
    ((a + b) % 0x1_0000_0000) as u32
}

/// Left rotation of a 32-bit word by 8 bits.
pub open spec fn rotl8_spec(x: u32) -> u32 {
    (x << 8) | (x >> 24)
}

/// Left rotation of a 32-bit word by 16 bits.
pub open spec fn rotl16_spec(x: u32) -> u32 {
    (x << 16) | (x >> 16)
}

/// The g-function: add a state word and a counter word modulo 2^32,
/// square the 32-bit sum to 64 bits, and fold the high half onto the low
/// half with exclusive-or.
pub open spec fn g_spec(u: u32, v: u32) -> u32 {
    let uv: u64 = ((u + v) % 0x1_0000_0000) as u64;
    let sq: u64 = (uv * uv) as u64;
    (sq ^ (sq >> 32)) as u32
}

/// One counter-system update: each counter word receives its additive
/// constant plus the incoming carry, the carry out of bit 31 flows into
/// the next word, and the final carry is kept for the next update.
pub open spec fn counter_update_spec(s: State) -> State {
    let t0: u64 = (s.c0 + A0 + s.carry) as u64;
    let b0: u8 = if t0 >= WORDSIZE { 1u8 } else { 0u8 };
    let t1: u64 = (s.c1 + A1 + b0) as u64;
    let b1: u8 = if t1 >= WORDSIZE { 1u8 } else { 0u8 };
    let t2: u64 = (s.c2 + A2 + b1) as u64;
    let b2: u8 = if t2 >= WORDSIZE { 1u8 } else { 0u8 };
    let t3: u64 = (s.c3 + A3 + b2) as u64;
    let b3: u8 = if t3 >= WORDSIZE { 1u8 } else { 0u8 };
    let t4: u64 = (s.c4 + A4 + b3) as u64;
    let b4: u8 = if t4 >= WORDSIZE { 1u8 } else { 0u8 };
    let t5: u64 = (s.c5 + A5 + b4) as u64;
    let b5: u8 = if t5 >= WORDSIZE { 1u8 } else { 0u8 };
    let t6: u64 = (s.c6 + A6 + b5) as u64;
    let b6: u8 = if t6 >= WORDSIZE { 1u8 } else { 0u8 };
    let t7: u64 = (s.c7 + A7 + b6) as u64;
    let b7: u8 = if t7 >= WORDSIZE { 1u8 } else { 0u8 };
    State {
        x0: s.x0, x1: s.x1, x2: s.x2, x3: s.x3,
        x4: s.x4, x5: s.x5, x6: s.x6, x7: s.x7,
        c0: (t0 % WORDSIZE) as u32,
        c1: (t1 % WORDSIZE) as u32,
        c2: (t2 % WORDSIZE) as u32,
        c3: (t3 % WORDSIZE) as u32,
        c4: (t4 % WORDSIZE) as u32,
        c5: (t5 % WORDSIZE) as u32,
        c6: (t6 % WORDSIZE) as u32,
        c7: (t7 % WORDSIZE) as u32,
        carry: b7,
    }
}

/// One full state update: counter update, then the g-function on every
/// (state word, counter word) pair, then the rotation-and-addition mix
/// that combines each g value with two of its neighbours.  Kept opaque:
/// reasoning about the keystream treats one update as a single step.
#[verifier::opaque]
pub open spec fn next_state_spec(s: State) -> State {
    let c = counter_update_spec(s);
    let g0: u32 = g_spec(s.x0, c.c0);
    let g1: u32 = g_spec(s.x1, c.c1);
    let g2: u32 = g_spec(s.x2, c.c2);
    let g3: u32 = g_spec(s.x3, c.c3);
    let g4: u32 = g_spec(s.x4, c.c4);
    let g5: u32 = g_spec(s.x5, c.c5);
    let g6: u32 = g_spec(s.x6, c.c6);
    let g7: u32 = g_spec(s.x7, c.c7);
    State {
        x0: wadd_spec(wadd_spec(g0, rotl16_spec(g7)), rotl16_spec(g6)),
        x1: wadd_spec(wadd_spec(g1, rotl8_spec(g0)), g7),
        x2: wadd_spec(wadd_spec(g2, rotl16_spec(g1)), rotl16_spec(g0)),
        x3: wadd_spec(wadd_spec(g3, rotl8_spec(g2)), g1),
        x4: wadd_spec(wadd_spec(g4, rotl16_spec(g3)), rotl16_spec(g2)),
        x5: wadd_spec(wadd_spec(g5, rotl8_spec(g4)), g3),
        x6: wadd_spec(wadd_spec(g6, rotl16_spec(g5)), rotl16_spec(g4)),
        x7: wadd_spec(wadd_spec(g7, rotl8_spec(g6)), g5),
        c0: c.c0, c1: c.c1, c2: c.c2, c3: c.c3,
        c4: c.c4, c5: c.c5, c6: c.c6, c7: c.c7,
        carry: c.carry,
    }
}

/// The 16 keystream bytes derived from a state: eight 16-bit words, each
/// the exclusive-or of halves of two fixed state words, serialized
/// least-significant byte first.  Kept opaque, like [`next_state_spec`].
#[verifier::opaque]
pub open spec fn extract_spec(s: State) -> Seq<u8> {
    let w0: u16 = (s.x0 ^ (s.x5 >> 16)) as u16;
    let w1: u16 = ((s.x0 >> 16) ^ s.x3) as u16;
    let w2: u16 = (s.x2 ^ (s.x7 >> 16)) as u16;
    let w3: u16 = ((s.x2 >> 16) ^ s.x5) as u16;
    let w4: u16 = (s.x4 ^ (s.x1 >> 16)) as u16;
    let w5: u16 = ((s.x4 >> 16) ^ s.x7) as u16;
    let w6: u16 = (s.x6 ^ (s.x3 >> 16)) as u16;
    let w7: u16 = ((s.x6 >> 16) ^ s.x1) as u16;
    seq![
        w0 as u8, (w0 >> 8) as u8,
        w1 as u8, (w1 >> 8) as u8,
        w2 as u8, (w2 >> 8) as u8,
        w3 as u8, (w3 >> 8) as u8,
        w4 as u8, (w4 >> 8) as u8,
        w5 as u8, (w5 >> 8) as u8,
        w6 as u8, (w6 >> 8) as u8,
        w7 as u8, (w7 >> 8) as u8,
    ]
}

/// The extraction always yields a full 16-byte block.
pub proof fn lemma_extract_len(s: State)
    ensures
        extract_spec(s).len() == 16,
{
    reveal(extract_spec);
}

/// Addition modulo 2^32.
fn wadd(a: u32, b: u32) -> (r: u32)
    ensures
        r == wadd_spec(a, b),
{
    ((a as u64 + b as u64) % WORDSIZE) as u32
}

/// Left rotation of a 32-bit word by 8 bits.
fn rotl8(x: u32) -> (r: u32)
    ensures
        r == rotl8_spec(x),
{
    (x << 8u32) | (x >> 24u32)
}

/// Left rotation of a 32-bit word by 16 bits.
fn rotl16(x: u32) -> (r: u32)
    ensures
        r == rotl16_spec(x),
{
    (x << 16u32) | (x >> 16u32)
}

/// The g-function of the state update.
fn g_func(u: u32, v: u32) -> (r: u32)
    ensures
        r == g_spec(u, v),
{
    let uv: u64 = (u as u64 + v as u64) % WORDSIZE;
    proof {
        assert(uv * uv <= 0xFFFF_FFFFu64 * 0xFFFF_FFFFu64) by (nonlinear_arith)
            requires
                uv <= 0xFFFF_FFFFu64,
        ;
    }
    let sq: u64 = uv * uv;
    #[verifier::truncate] ((sq ^ (sq >> 32u64)) as u32)
}

/// Advances the counter system by one step, threading the carry bit
/// through all eight words and keeping the final carry in the state.
pub fn counter_update(state: &mut State)
    ensures
        *final(state) == counter_update_spec(*old(state)),
{
    let t0: u64 = state.c0 as u64 + A0 as u64 + state.carry as u64;
    let b0: u8 = if t0 >= WORDSIZE { 1 } else { 0 };
    let t1: u64 = state.c1 as u64 + A1 as u64 + b0 as u64;
    let b1: u8 = if t1 >= WORDSIZE { 1 } else { 0 };
    let t2: u64 = state.c2 as u64 + A2 as u64 + b1 as u64;
    let b2: u8 = if t2 >= WORDSIZE { 1 } else { 0 };
    let t3: u64 = state.c3 as u64 + A3 as u64 + b2 as u64;
    let b3: u8 = if t3 >= WORDSIZE { 1 } else { 0 };
    let t4: u64 = state.c4 as u64 + A4 as u64 + b3 as u64;
    let b4: u8 = if t4 >= WORDSIZE { 1 } else { 0 };
    let t5: u64 = state.c5 as u64 + A5 as u64 + b4 as u64;
    let b5: u8 = if t5 >= WORDSIZE { 1 } else { 0 };
    let t6: u64 = state.c6 as u64 + A6 as u64 + b5 as u64;
    let b6: u8 = if t6 >= WORDSIZE { 1 } else { 0 };
    let t7: u64 = state.c7 as u64 + A7 as u64 + b6 as u64;
    let b7: u8 = if t7 >= WORDSIZE { 1 } else { 0 };
    state.c0 = (t0 % WORDSIZE) as u32;
    state.c1 = (t1 % WORDSIZE) as u32;
    state.c2 = (t2 % WORDSIZE) as u32;
    state.c3 = (t3 % WORDSIZE) as u32;
    state.c4 = (t4 % WORDSIZE) as u32;
    state.c5 = (t5 % WORDSIZE) as u32;
    state.c6 = (t6 % WORDSIZE) as u32;
    state.c7 = (t7 % WORDSIZE) as u32;
    state.carry = b7;
}

/// One full state update, as [`next_state_spec`] describes: counter
/// update, g-function on every lane, then the rotation-and-addition mix.
pub fn next_state(state: &mut State)
    ensures
        *final(state) == next_state_spec(*old(state)),
{
    proof {
        reveal(next_state_spec);
    }
    counter_update(state);
    let g0 = g_func(state.x0, state.c0);
    let g1 = g_func(state.x1, state.c1);
    let g2 = g_func(state.x2, state.c2);
    let g3 = g_func(state.x3, state.c3);
    let g4 = g_func(state.x4, state.c4);
    let g5 = g_func(state.x5, state.c5);
    let g6 = g_func(state.x6, state.c6);
    let g7 = g_func(state.x7, state.c7);
    state.x0 = wadd(wadd(g0, rotl16(g7)), rotl16(g6));
    state.x1 = wadd(wadd(g1, rotl8(g0)), g7);
    state.x2 = wadd(wadd(g2, rotl16(g1)), rotl16(g0));
    state.x3 = wadd(wadd(g3, rotl8(g2)), g1);
    state.x4 = wadd(wadd(g4, rotl16(g3)), rotl16(g2));
    state.x5 = wadd(wadd(g5, rotl8(g4)), g3);
    state.x6 = wadd(wadd(g6, rotl16(g5)), rotl16(g4));
    state.x7 = wadd(wadd(g7, rotl8(g6)), g5);
}

/// Derives the 16 keystream bytes of the current state without mutating
/// it, exactly as [`extract_spec`] describes.
pub fn extract(state: &State) -> (r: [u8; 16])
    ensures
        r@ == extract_spec(*state),
{
    let w0: u16 = #[verifier::truncate] ((state.x0 ^ (state.x5 >> 16u32)) as u16);
    let w1: u16 = #[verifier::truncate] (((state.x0 >> 16u32) ^ state.x3) as u16);
    let w2: u16 = #[verifier::truncate] ((state.x2 ^ (state.x7 >> 16u32)) as u16);
    let w3: u16 = #[verifier::truncate] (((state.x2 >> 16u32) ^ state.x5) as u16);
    let w4: u16 = #[verifier::truncate] ((state.x4 ^ (state.x1 >> 16u32)) as u16);
    let w5: u16 = #[verifier::truncate] (((state.x4 >> 16u32) ^ state.x7) as u16);
    let w6: u16 = #[verifier::truncate] ((state.x6 ^ (state.x3 >> 16u32)) as u16);
    let w7: u16 = #[verifier::truncate] (((state.x6 >> 16u32) ^ state.x1) as u16);
    let r: [u8; 16] = [
        #[verifier::truncate] (w0 as u8), (w0 >> 8u16) as u8,
        #[verifier::truncate] (w1 as u8), (w1 >> 8u16) as u8,
        #[verifier::truncate] (w2 as u8), (w2 >> 8u16) as u8,
        #[verifier::truncate] (w3 as u8), (w3 >> 8u16) as u8,
        #[verifier::truncate] (w4 as u8), (w4 >> 8u16) as u8,
        #[verifier::truncate] (w5 as u8), (w5 >> 8u16) as u8,
        #[verifier::truncate] (w6 as u8), (w6 >> 8u16) as u8,
        #[verifier::truncate] (w7 as u8), (w7 >> 8u16) as u8,
    ];
    proof {
        reveal(extract_spec);
        assert(r@ =~= extract_spec(*state));
    }
    r
}

} // verus!
