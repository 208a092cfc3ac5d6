//! The fixed-size construction inputs of the cipher.
//!
//! A [`Key`] is exactly 16 bytes and an [`InitVec`] exactly 8 bytes.  A
//! caller holding a sized array constructs them directly; a byte slice of
//! unknown length goes through `from_slice`, which refuses any other
//! length instead of silently truncating or padding.

use vstd::prelude::*;

verus! {

/// 128-bit key, as 16 bytes.
#[derive(Clone)]
pub struct Key(pub [u8; 16]);

impl View for Key {
    type V = Seq<u8>;

    open spec fn view(&self) -> Seq<u8> {
        self.0@
    }
}

impl Key {
    /// Wraps a 16-byte array as a key.
    pub fn new(bytes: [u8; 16]) -> (r: Key)
        ensures
            r@ == bytes@,
    {
        Key(bytes)
    }

    /// Builds a key from a byte slice: succeeds exactly when the slice is
    /// 16 bytes long, and never truncates or pads.
    pub fn from_slice(bytes: &[u8]) -> (r: Option<Key>)
        ensures
            match r {
                Some(k) => bytes@.len() == 16 && k@ == bytes@,
                None => bytes@.len() != 16,
            },
    {
        if bytes.len() != 16 {
            return None;
        }
        let mut arr: [u8; 16] = [0; 16];
        let mut i: usize = 0;
        while i < 16
            invariant
                i <= 16,
                bytes@.len() == 16,
                arr@.len() == 16,
                forall|j: int| 0 <= j < i ==> arr@[j] == bytes@[j],
            decreases 16 - i,
        {
            arr[i] = bytes[i];
            i = i + 1;
        }
        proof {
            assert(arr@ =~= bytes@);
        }
        Some(Key(arr))
    }
}

/// 64-bit initialization vector, as 8 bytes.
#[derive(Clone)]
pub struct InitVec(pub [u8; 8]);

impl View for InitVec {
    type V = Seq<u8>;

    open spec fn view(&self) -> Seq<u8> {
        self.0@
    }
}

/// The little-endian byte serialization of a 64-bit value: the least
/// significant byte comes first.
pub open spec fn u64_le_spec(v: u64) -> Seq<u8> {
    seq![
        v as u8,
        (v >> 8u64) as u8,
        (v >> 16u64) as u8,
        (v >> 24u64) as u8,
        (v >> 32u64) as u8,
        (v >> 40u64) as u8,
        (v >> 48u64) as u8,
        (v >> 56u64) as u8,
    ]
}

impl InitVec {
    /// Wraps an 8-byte array as an initialization vector.
    pub fn new(bytes: [u8; 8]) -> (r: InitVec)
        ensures
            r@ == bytes@,
    {
        InitVec(bytes)
    }

    /// Builds an initialization vector from a byte slice: succeeds
    /// exactly when the slice is 8 bytes long.
    pub fn from_slice(bytes: &[u8]) -> (r: Option<InitVec>)
        ensures
            match r {
                Some(iv) => bytes@.len() == 8 && iv@ == bytes@,
                None => bytes@.len() != 8,
            },
    {
        if bytes.len() != 8 {
            return None;
        }
        let mut arr: [u8; 8] = [0; 8];
        let mut i: usize = 0;
        while i < 8
            invariant
                i <= 8,
                bytes@.len() == 8,
                arr@.len() == 8,
                forall|j: int| 0 <= j < i ==> arr@[j] == bytes@[j],
            decreases 8 - i,
        {
            arr[i] = bytes[i];
            i = i + 1;
        }
        proof {
            assert(arr@ =~= bytes@);
        }
        Some(InitVec(arr))
    }

    /// Builds an initialization vector from a 64-bit value, least
    /// significant byte first.
    pub fn from_u64(v: u64) -> (r: InitVec)
        ensures
            r@ == u64_le_spec(v),
    {
        let arr: [u8; 8] = [
            #[verifier::truncate] (v as u8),
            #[verifier::truncate] ((v >> 8u64) as u8),
            #[verifier::truncate] ((v >> 16u64) as u8),
            #[verifier::truncate] ((v >> 24u64) as u8),
            #[verifier::truncate] ((v >> 32u64) as u8),
            #[verifier::truncate] ((v >> 40u64) as u8),
            #[verifier::truncate] ((v >> 48u64) as u8),
            #[verifier::truncate] ((v >> 56u64) as u8),
        ];
        proof {
            assert(arr@ =~= u64_le_spec(v));
        }
        InitVec(arr)
    }
}

} // verus!
