//! Capability traits: the constraints an element type must satisfy before it
//! may be held in protected memory, and the optional capabilities (random
//! fill, zero fill, constant-time equality) that unlock the corresponding
//! container operations.

use vstd::prelude::*;

verus! {

/// An element type that may live inside a protected region: fixed size,
/// meaningful as plain bytes, and freely copyable in and out of the region.
pub trait Bytes: Copy + Sized {
    /// The size of one element, in bytes.
    spec fn spec_byte_size() -> nat;

    /// The value of an element whose bytes have all been erased to zero.
    spec fn erased_spec() -> Self;

    /// The size of one element, in bytes.
    fn byte_size() -> (r: usize)
        ensures
            r == Self::spec_byte_size(),
            1 <= r,
    ;

    /// The all-bytes-zero element value, used to fill freshly allocated
    /// regions and to scrub regions before their memory is released.
    fn erased() -> (r: Self)
        ensures
            r == Self::erased_spec(),
    ;
}

/// Marker capability: the all-bytes-zero value of this type is a
/// well-defined, meaningful zero state, so zero-filled containers and
/// move-from-existing-data construction are offered for it.
pub trait Zeroable: Bytes {

}

/// Capability: values of this type can be drawn from the process-wide
/// cryptographic random source. Nothing is promised of the values
/// themselves, only of how many there are.
pub trait Randomizable: Bytes {
    /// A vector of `len` elements drawn from the random source.
    fn random_vec(len: usize) -> (r: Vec<Self>)
        requires
            len * Self::spec_byte_size() <= usize::MAX,
        ensures
            r@.len() == len,
    ;
}

/// Capability: equality whose running time depends only on the length of
/// the data compared, never on its content or on the position of the first
/// mismatch.
pub trait ConstantEq: Bytes {
    /// Compares two elements without an early exit on mismatch.
    fn ct_eq(&self, other: &Self) -> (r: bool)
        ensures
            r == (*self == *other),
    ;
}

impl Bytes for u8 {
    open spec fn spec_byte_size() -> nat {
        1
    }

    open spec fn erased_spec() -> u8 {
        0
    }

    fn byte_size() -> (r: usize) {
        1
    }

    fn erased() -> (r: u8) {
        0
    }
}

impl Zeroable for u8 {

}

impl Randomizable for u8 {
    fn random_vec(len: usize) -> (r: Vec<u8>) {
        let mut buf: Vec<u8> = Vec::new();
        let mut i: usize = 0;
        while i < len
            invariant
                i <= len,
                buf@.len() == i,
            decreases len - i,
        {
            buf.push(0u8);
            i = i + 1;
        }
        crate::rng::fill_random(&mut buf);
        buf
    }
}

impl ConstantEq for u8 {
    fn ct_eq(&self, other: &Self) -> (r: bool) {
        let d = *self ^ *other;
        proof {
            let a = *self;
            let b = *other;
            assert(((a ^ b) == 0) == (a == b)) by (bit_vector);
        }
        d == 0
    }
}

impl Bytes for u64 {
    open spec fn spec_byte_size() -> nat {
        8
    }

    open spec fn erased_spec() -> u64 {
        0
    }

    fn byte_size() -> (r: usize) {
        8
    }

    fn erased() -> (r: u64) {
        0
    }
}

impl Zeroable for u64 {

}

impl Randomizable for u64 {
    fn random_vec(len: usize) -> (r: Vec<u64>) {
        let bytes = <u8 as Randomizable>::random_vec(len * 8);
        let mut out: Vec<u64> = Vec::new();
        let mut i: usize = 0;
        while i < len
            invariant
                i <= len,
                out@.len() == i,
                bytes@.len() == len * 8,
                len * 8 <= usize::MAX,
            decreases len - i,
        {
            let w = word_from_bytes(&bytes, 8 * i);
            out.push(w);
            i = i + 1;
        }
        out
    }
}

impl ConstantEq for u64 {
    fn ct_eq(&self, other: &Self) -> (r: bool) {
        let d = *self ^ *other;
        proof {
            let a = *self;
            let b = *other;
            assert(((a ^ b) == 0) == (a == b)) by (bit_vector);
        }
        d == 0
    }
}

/// Constant-time equality over two vectors of elements: one length check,
/// then an accumulated elementwise comparison with no early exit, so the
/// running time depends on the length alone.
pub fn constant_time_eq<T: ConstantEq>(a: &Vec<T>, b: &Vec<T>) -> (r: bool)
    ensures
        r == (a@ == b@),
{
    if a.len() != b.len() {
        return false;
    }
    let n = a.len();
    let mut all_eq = true;
    let mut i: usize = 0;
    while i < n
        invariant
            i <= n,
            n == a@.len(),
            n == b@.len(),
            all_eq <==> (forall|j: int| 0 <= j < i ==> a@[j] == b@[j]),
        decreases n - i,
    {
        let e = a[i].ct_eq(&b[i]);
        all_eq = all_eq && e;
        i = i + 1;
    }
    proof {
        if all_eq {
            assert(a@ =~= b@);
        }
    }
    all_eq
}

/// Eight consecutive bytes of `bytes`, starting at `start`, read as one
/// little-endian word.
fn word_from_bytes(bytes: &Vec<u8>, start: usize) -> u64
    requires
        start + 8 <= bytes@.len(),
        bytes@.len() <= usize::MAX,
{
    let b0 = bytes[start] as u64;
    let b1 = bytes[start + 1] as u64;
    let b2 = bytes[start + 2] as u64;
    let b3 = bytes[start + 3] as u64;
    let b4 = bytes[start + 4] as u64;
    let b5 = bytes[start + 5] as u64;
    let b6 = bytes[start + 6] as u64;
    let b7 = bytes[start + 7] as u64;
    b0 | (b1 << 8) | (b2 << 16) | (b3 << 24) | (b4 << 32) | (b5 << 40) | (b6 << 48) | (b7 << 56)
}

impl Bytes for [u8; 2] {
    open spec fn spec_byte_size() -> nat {
        2
    }

    open spec fn erased_spec() -> [u8; 2] {
        [0u8, 0u8]
    }

    fn byte_size() -> (r: usize) {
        2
    }

    fn erased() -> (r: [u8; 2]) {
        [0u8, 0u8]
    }
}

impl Zeroable for [u8; 2] {

}

impl Randomizable for [u8; 2] {
    fn random_vec(len: usize) -> (r: Vec<[u8; 2]>) {
        let bytes = <u8 as Randomizable>::random_vec(len * 2);
        let mut out: Vec<[u8; 2]> = Vec::new();
        let mut i: usize = 0;
        while i < len
            invariant
                i <= len,
                out@.len() == i,
                bytes@.len() == len * 2,
                len * 2 <= usize::MAX,
            decreases len - i,
        {
            out.push([bytes[2 * i], bytes[2 * i + 1]]);
            i = i + 1;
        }
        out
    }
}

impl ConstantEq for [u8; 2] {
    fn ct_eq(&self, other: &Self) -> (r: bool) {
        let d = (self[0] ^ other[0]) | (self[1] ^ other[1]);
        let r = d == 0;
        proof {
            broadcast use vstd::array::group_array_axioms;

            let a0 = self@[0];
            let a1 = self@[1];
            let b0 = other@[0];
            let b1 = other@[1];
            assert((((a0 ^ b0) | (a1 ^ b1)) == 0) <==> (a0 == b0 && a1 == b1)) by (bit_vector);
            if r {
                assert forall|i: int| 0 <= i < 2 implies self@[i] == other@[i] by {
                    if i == 0 {
                        assert(self@[0] == other@[0]);
                    } else {
                        assert(self@[1] == other@[1]);
                    }
                }
                assert(*self =~= *other);
            } else {
                assert(*self != *other);
            }
        }
        r
    }
}

impl Bytes for [u64; 8] {
    open spec fn spec_byte_size() -> nat {
        64
    }

    open spec fn erased_spec() -> [u64; 8] {
        [0u64, 0u64, 0u64, 0u64, 0u64, 0u64, 0u64, 0u64]
    }

    fn byte_size() -> (r: usize) {
        64
    }

    fn erased() -> (r: [u64; 8]) {
        [0u64, 0u64, 0u64, 0u64, 0u64, 0u64, 0u64, 0u64]
    }
}

impl Zeroable for [u64; 8] {

}

impl Randomizable for [u64; 8] {
    fn random_vec(len: usize) -> (r: Vec<[u64; 8]>) {
        let words = <u64 as Randomizable>::random_vec(len * 8);
        let mut out: Vec<[u64; 8]> = Vec::new();
        let mut i: usize = 0;
        while i < len
            invariant
                i <= len,
                out@.len() == i,
                words@.len() == len * 8,
                len * 64 <= usize::MAX,
            decreases len - i,
        {
            out.push(
                [
                    words[8 * i],
                    words[8 * i + 1],
                    words[8 * i + 2],
                    words[8 * i + 3],
                    words[8 * i + 4],
                    words[8 * i + 5],
                    words[8 * i + 6],
                    words[8 * i + 7],
                ],
            );
            i = i + 1;
        }
        out
    }
}

impl ConstantEq for [u64; 8] {
    fn ct_eq(&self, other: &Self) -> (r: bool) {
        let d = (self[0] ^ other[0]) | (self[1] ^ other[1]) | (self[2] ^ other[2]) | (self[3]
            ^ other[3]) | (self[4] ^ other[4]) | (self[5] ^ other[5]) | (self[6] ^ other[6]) | (
        self[7] ^ other[7]);
        let r = d == 0;
        proof {
            broadcast use vstd::array::group_array_axioms;

            let a0 = self@[0];
            let a1 = self@[1];
            let a2 = self@[2];
            let a3 = self@[3];
            let a4 = self@[4];
            let a5 = self@[5];
            let a6 = self@[6];
            let a7 = self@[7];
            let b0 = other@[0];
            let b1 = other@[1];
            let b2 = other@[2];
            let b3 = other@[3];
            let b4 = other@[4];
            let b5 = other@[5];
            let b6 = other@[6];
            let b7 = other@[7];
            assert((((a0 ^ b0) | (a1 ^ b1) | (a2 ^ b2) | (a3 ^ b3) | (a4 ^ b4) | (a5 ^ b5) | (a6
                ^ b6) | (a7 ^ b7)) == 0) <==> (a0 == b0 && a1 == b1 && a2 == b2 && a3 == b3 && a4
                == b4 && a5 == b5 && a6 == b6 && a7 == b7)) by (bit_vector);
            if r {
                assert forall|i: int| 0 <= i < 8 implies self@[i] == other@[i] by {
                    if i == 0 {
                        assert(self@[0] == other@[0]);
                    } else if i == 1 {
                        assert(self@[1] == other@[1]);
                    } else if i == 2 {
                        assert(self@[2] == other@[2]);
                    } else if i == 3 {
                        assert(self@[3] == other@[3]);
                    } else if i == 4 {
                        assert(self@[4] == other@[4]);
                    } else if i == 5 {
                        assert(self@[5] == other@[5]);
                    } else if i == 6 {
                        assert(self@[6] == other@[6]);
                    } else {
                        assert(self@[7] == other@[7]);
                    }
                }
                assert(*self =~= *other);
            } else {
                assert(*self != *other);
            }
        }
        r
    }
}

} // verus!
