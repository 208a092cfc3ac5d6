//! Key and initialization-vector schedules.
//!
//! The key schedule expands the 16 key bytes into the initial state and
//! counter words, runs four state updates, and folds the state back into
//! the counters.  The IV schedule perturbs the counters of an already
//! keyed state with the 8 IV bytes and runs four more updates.  Both are
//! proved equal to their specification functions, so the state after
//! setup is a pure function of the key (and IV) bytes.

use vstd::prelude::*;

use crate::keys::InitVec;
use crate::keys::Key;
use crate::state::next_state;
use crate::state::next_state_spec;
use crate::state::State;

verus! {

/// The state after `n` state updates.
pub open spec fn steps_spec(s: State, n: nat) -> State
    decreases n,
{
    if n == 0 {
        s
    } else {
        next_state_spec(steps_spec(s, (n - 1) as nat))
    }
}

/// The state produced by the key schedule: the key bytes are read as
/// eight little-endian 16-bit subkeys, interleaved into the state and
/// counter words, mixed by four state updates, and finally each counter
/// word is combined with the state word four lanes away.
pub open spec fn key_setup_spec(key: Seq<u8>) -> State
    recommends
        key.len() == 16,
{
    let k0: u16 = (key[0] as u16) | ((key[1] as u16) << 8u16);
    let k1: u16 = (key[2] as u16) | ((key[3] as u16) << 8u16);
    let k2: u16 = (key[4] as u16) | ((key[5] as u16) << 8u16);
    let k3: u16 = (key[6] as u16) | ((key[7] as u16) << 8u16);
    let k4: u16 = (key[8] as u16) | ((key[9] as u16) << 8u16);
    let k5: u16 = (key[10] as u16) | ((key[11] as u16) << 8u16);
    let k6: u16 = (key[12] as u16) | ((key[13] as u16) << 8u16);
    let k7: u16 = (key[14] as u16) | ((key[15] as u16) << 8u16);
    let init = State {
        x0: ((k1 as u32) << 16u32) | (k0 as u32),
        x1: ((k6 as u32) << 16u32) | (k5 as u32),
        x2: ((k3 as u32) << 16u32) | (k2 as u32),
        x3: ((k0 as u32) << 16u32) | (k7 as u32),
        x4: ((k5 as u32) << 16u32) | (k4 as u32),
        x5: ((k2 as u32) << 16u32) | (k1 as u32),
        x6: ((k7 as u32) << 16u32) | (k6 as u32),
        x7: ((k4 as u32) << 16u32) | (k3 as u32),
        c0: ((k4 as u32) << 16u32) | (k5 as u32),
        c1: ((k1 as u32) << 16u32) | (k2 as u32),
        c2: ((k6 as u32) << 16u32) | (k7 as u32),
        c3: ((k3 as u32) << 16u32) | (k4 as u32),
        c4: ((k0 as u32) << 16u32) | (k1 as u32),
        c5: ((k5 as u32) << 16u32) | (k6 as u32),
        c6: ((k2 as u32) << 16u32) | (k3 as u32),
        c7: ((k7 as u32) << 16u32) | (k0 as u32),
        carry: 0,
    };
    let s = steps_spec(init, 4);
    State {
        x0: s.x0, x1: s.x1, x2: s.x2, x3: s.x3,
        x4: s.x4, x5: s.x5, x6: s.x6, x7: s.x7,
        c0: s.c0 ^ s.x4,
        c1: s.c1 ^ s.x5,
        c2: s.c2 ^ s.x6,
        c3: s.c3 ^ s.x7,
        c4: s.c4 ^ s.x0,
        c5: s.c5 ^ s.x1,
        c6: s.c6 ^ s.x2,
        c7: s.c7 ^ s.x3,
        carry: s.carry,
    }
}

/// The state produced by the IV schedule on a keyed state: the 8 IV
/// bytes form two little-endian 32-bit words, two more words are built
/// from their halves, all eight counter words are combined with that
/// four-word pattern repeated twice, and four state updates follow.
pub open spec fn iv_setup_spec(s: State, iv: Seq<u8>) -> State
    recommends
        iv.len() == 8,
{
    let i0: u32 = (iv[0] as u32) | ((iv[1] as u32) << 8u32) | ((iv[2] as u32) << 16u32)
        | ((iv[3] as u32) << 24u32);
    let i2: u32 = (iv[4] as u32) | ((iv[5] as u32) << 8u32) | ((iv[6] as u32) << 16u32)
        | ((iv[7] as u32) << 24u32);
    let i1: u32 = (i0 >> 16u32) | (i2 & 0xFFFF_0000u32);
    let i3: u32 = (i2 << 16u32) | (i0 & 0x0000_FFFFu32);
    let t = State {
        x0: s.x0, x1: s.x1, x2: s.x2, x3: s.x3,
        x4: s.x4, x5: s.x5, x6: s.x6, x7: s.x7,
        c0: s.c0 ^ i0,
        c1: s.c1 ^ i1,
        c2: s.c2 ^ i2,
        c3: s.c3 ^ i3,
        c4: s.c4 ^ i0,
        c5: s.c5 ^ i1,
        c6: s.c6 ^ i2,
        c7: s.c7 ^ i3,
        carry: s.carry,
    };
    steps_spec(t, 4)
}

/// Runs the key schedule on a state whose carry bit is clear, as it is
/// in a freshly zeroed state; afterwards the state is exactly
/// [`key_setup_spec`] of the key bytes.
pub fn setup_key(state: &mut State, key: &Key)
    requires
        old(state).carry == 0,
    ensures
        *final(state) == key_setup_spec(key@),
{
    let k0: u16 = (key.0[0] as u16) | ((key.0[1] as u16) << 8u16);
    let k1: u16 = (key.0[2] as u16) | ((key.0[3] as u16) << 8u16);
    let k2: u16 = (key.0[4] as u16) | ((key.0[5] as u16) << 8u16);
    let k3: u16 = (key.0[6] as u16) | ((key.0[7] as u16) << 8u16);
    let k4: u16 = (key.0[8] as u16) | ((key.0[9] as u16) << 8u16);
    let k5: u16 = (key.0[10] as u16) | ((key.0[11] as u16) << 8u16);
    let k6: u16 = (key.0[12] as u16) | ((key.0[13] as u16) << 8u16);
    let k7: u16 = (key.0[14] as u16) | ((key.0[15] as u16) << 8u16);

    state.x0 = ((k1 as u32) << 16u32) | (k0 as u32);
    state.x1 = ((k6 as u32) << 16u32) | (k5 as u32);
    state.x2 = ((k3 as u32) << 16u32) | (k2 as u32);
    state.x3 = ((k0 as u32) << 16u32) | (k7 as u32);
    state.x4 = ((k5 as u32) << 16u32) | (k4 as u32);
    state.x5 = ((k2 as u32) << 16u32) | (k1 as u32);
    state.x6 = ((k7 as u32) << 16u32) | (k6 as u32);
    state.x7 = ((k4 as u32) << 16u32) | (k3 as u32);
    state.c0 = ((k4 as u32) << 16u32) | (k5 as u32);
    state.c1 = ((k1 as u32) << 16u32) | (k2 as u32);
    state.c2 = ((k6 as u32) << 16u32) | (k7 as u32);
    state.c3 = ((k3 as u32) << 16u32) | (k4 as u32);
    state.c4 = ((k0 as u32) << 16u32) | (k1 as u32);
    state.c5 = ((k5 as u32) << 16u32) | (k6 as u32);
    state.c6 = ((k2 as u32) << 16u32) | (k3 as u32);
    state.c7 = ((k7 as u32) << 16u32) | (k0 as u32);

    let ghost init = *state;

    next_state(state);
    proof {
        assert(steps_spec(init, 0) == init);
        assert(*state == steps_spec(init, 1));
    }
    next_state(state);
    proof {
        assert(*state == steps_spec(init, 2));
    }
    next_state(state);
    proof {
        assert(*state == steps_spec(init, 3));
    }
    next_state(state);
    proof {
        assert(*state == steps_spec(init, 4));
    }

    state.c0 = state.c0 ^ state.x4;
    state.c1 = state.c1 ^ state.x5;
    state.c2 = state.c2 ^ state.x6;
    state.c3 = state.c3 ^ state.x7;
    state.c4 = state.c4 ^ state.x0;
    state.c5 = state.c5 ^ state.x1;
    state.c6 = state.c6 ^ state.x2;
    state.c7 = state.c7 ^ state.x3;

    proof {
        assert(*state == key_setup_spec(key@));
    }
}

/// Runs the IV schedule; afterwards the state is exactly
/// [`iv_setup_spec`] of the incoming state and the IV bytes.
pub fn setup_iv(state: &mut State, iv: &InitVec)
    ensures
        *final(state) == iv_setup_spec(*old(state), iv@),
{
    let i0: u32 = (iv.0[0] as u32) | ((iv.0[1] as u32) << 8u32) | ((iv.0[2] as u32) << 16u32)
        | ((iv.0[3] as u32) << 24u32);
    let i2: u32 = (iv.0[4] as u32) | ((iv.0[5] as u32) << 8u32) | ((iv.0[6] as u32) << 16u32)
        | ((iv.0[7] as u32) << 24u32);
    let i1: u32 = (i0 >> 16u32) | (i2 & 0xFFFF_0000u32);
    let i3: u32 = (i2 << 16u32) | (i0 & 0x0000_FFFFu32);

    state.c0 = state.c0 ^ i0;
    state.c1 = state.c1 ^ i1;
    state.c2 = state.c2 ^ i2;
    state.c3 = state.c3 ^ i3;
    state.c4 = state.c4 ^ i0;
    state.c5 = state.c5 ^ i1;
    state.c6 = state.c6 ^ i2;
    state.c7 = state.c7 ^ i3;

    let ghost mixed = *state;

    next_state(state);
    proof {
        assert(steps_spec(mixed, 0) == mixed);
        assert(*state == steps_spec(mixed, 1));
    }
    next_state(state);
    proof {
        assert(*state == steps_spec(mixed, 2));
    }
    next_state(state);
    proof {
        assert(*state == steps_spec(mixed, 3));
    }
    next_state(state);
    proof {
        assert(*state == steps_spec(mixed, 4));
    }

    proof {
        assert(*state == iv_setup_spec(*old(state), iv@));
    }
}

} // verus!
