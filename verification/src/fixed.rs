//! Fixed-size byte strings and 256-bit integers as plain values.
use vstd::prelude::*;

verus! {

/// A byte string of `N` bytes.
#[derive(Clone, Copy, Debug)]
pub struct FixedBytes<const N: usize>(pub [u8; N]);

/// A 32-byte hash or word.
pub type B256 = FixedBytes<32>;

/// A 20-byte account address.
pub type Address = FixedBytes<20>;

/// An 8-byte header nonce.
pub type B64 = FixedBytes<8>;

/// A 256-byte logs bloom.
pub type Bloom = FixedBytes<256>;

/// The bytes of a zero word.
pub const ZERO_WORD: [u8; 32] = [
    0, 0, 0, 0, 0, 0, 0, 0, 0, 0, 0, 0, 0, 0, 0, 0, 0, 0, 0, 0, 0, 0, 0, 0, 0, 0, 0, 0, 0, 0, 0, 0,
];

/// The bytes of a zero nonce.
pub const ZERO_NONCE: [u8; 8] = [0, 0, 0, 0, 0, 0, 0, 0];

impl<const N: usize> PartialEq for FixedBytes<N> {
    fn eq(&self, other: &Self) -> (r: bool) {
        let mut i: usize = 0;
        while i < N
            invariant
                i <= N,
                forall|k: int| 0 <= k < i ==> self.0@[k] == other.0@[k],
            decreases N - i,
        {
            if self.0[i] != other.0[i] {
                assert(self.0@[i as int] != other.0@[i as int]);
                return false;
            }
            i = i + 1;
        }
        assert(self.0 =~= other.0);
        true
    }
}

impl<const N: usize> Eq for FixedBytes<N> {

}

impl<const N: usize> vstd::std_specs::cmp::PartialEqSpecImpl for FixedBytes<N> {
    open spec fn obeys_eq_spec() -> bool {
        true
    }

    open spec fn eq_spec(&self, other: &Self) -> bool {
        *self == *other
    }
}

impl<const N: usize> FixedBytes<N> {
    /// Whether every byte is zero.
    pub open spec fn all_zero(self) -> bool {
        forall|k: int| 0 <= k < N ==> self.0@[k] == 0
    }

    /// Whether every byte is zero.
    pub fn is_zero(&self) -> (r: bool)
        ensures
            r == self.all_zero(),
    {
        let mut i: usize = 0;
        while i < N
            invariant
                i <= N,
                forall|k: int| 0 <= k < i ==> self.0@[k] == 0,
            decreases N - i,
        {
            if self.0[i] != 0 {
                return false;
            }
            i = i + 1;
        }
        true
    }
}

/// A 256-bit unsigned integer as four 64-bit limbs, least significant first.
#[derive(Clone, Copy, Debug, PartialEq, Eq, Structural)]
pub struct U256(pub u64, pub u64, pub u64, pub u64);

impl U256 {
    /// The integer that the limbs stand for.
    pub open spec fn value(self) -> nat {
        (self.0 + self.1 * 0x1_0000_0000_0000_0000 + self.2 * 0x1_0000_0000_0000_0000_0000_0000_0000_0000
            + self.3 * 0x1_0000_0000_0000_0000_0000_0000_0000_0000_0000_0000_0000_0000) as nat
    }

    /// The integer zero.
    pub fn zero() -> (r: Self)
        ensures
            r.value() == 0,
            r == U256(0, 0, 0, 0),
    {
        U256(0, 0, 0, 0)
    }

    /// The integer `n`.
    pub fn from_u64(n: u64) -> (r: Self)
        ensures
            r.value() == n,
            r == U256(n, 0, 0, 0),
    {
        U256(n, 0, 0, 0)
    }

    /// Whether the integer is zero.
    pub fn is_zero(&self) -> (r: bool)
        ensures
            r == (self.value() == 0),
    {
        self.0 == 0 && self.1 == 0 && self.2 == 0 && self.3 == 0
    }

    /// The integer as `u64`, if it fits.
    pub fn to_u64(&self) -> (r: Option<u64>)
        ensures
            r matches Some(n) ==> n == self.value(),
            r is None <==> self.value() > u64::MAX,
    {
        if self.1 == 0 && self.2 == 0 && self.3 == 0 {
            Some(self.0)
        } else {
            None
        }
    }
}

/// Whether two byte vectors hold the same bytes.
pub fn bytes_eq(a: &Vec<u8>, b: &Vec<u8>) -> (r: bool)
    ensures
        r == (a@ == b@),
{
    if a.len() != b.len() {
        return false;
    }
    let mut i: usize = 0;
    while i < a.len()
        invariant
            a.len() == b.len(),
            i <= a.len(),
            forall|k: int| 0 <= k < i ==> a@[k] == b@[k],
        decreases a.len() - i,
    {
        if a[i] != b[i] {
            return false;
        }
        i = i + 1;
    }
    assert(a@ =~= b@);
    true
}

/// A copy of a byte vector.
pub fn copy_bytes(bytes: &Vec<u8>) -> (r: Vec<u8>)
    ensures
        r@ == bytes@,
{
    let mut r: Vec<u8> = Vec::new();
    let mut i: usize = 0;
    while i < bytes.len()
        invariant
            i <= bytes.len(),
            r@ == bytes@.take(i as int),
        decreases bytes.len() - i,
    {
        r.push(bytes[i]);
        i = i + 1;
        assert(bytes@.take(i as int) =~= bytes@.take(i - 1).push(bytes@[i - 1]));
    }
    assert(bytes@.take(i as int) =~= bytes@);
    r
}

/// The address in the low 20 bytes of a word.
pub fn address_from_word(word: &B256) -> (r: Address)
    ensures
        r.0@ == word.0@.subrange(12, 32),
{
    let mut bytes: [u8; 20] = [0u8;20];
    let mut i: usize = 0;
    while i < 20
        invariant
            i <= 20,
            forall|k: int| 0 <= k < i ==> bytes@[k] == word.0@[12 + k],
        decreases 20 - i,
    {
        bytes[i] = word.0[i + 12];
        i = i + 1;
    }
    let r = FixedBytes(bytes);
    assert(r.0@ =~= word.0@.subrange(12, 32));
    r
}

/// A byte string is zero exactly if none of its bytes is anything else.
pub proof fn one_byte_makes_a_difference<const N: usize>(bytes: FixedBytes<N>, k: int)
    requires
        0 <= k < N,
    ensures
        bytes.0@[k] != 0 ==> !bytes.all_zero(),
        bytes.0@ == Seq::new(N as nat, |i: int| 0u8) ==> bytes.all_zero(),
{
}

/// The limbs stand for digits to the base of 2 to the 64th, least significant first: one more in the
/// first limb is one more, one more in a later limb is what the limb before it cannot hold any more,
/// and different limbs stand for different integers.
pub proof fn limbs_are_digits(a: U256, b: U256)
    ensures
        U256(0, 0, 0, 0).value() == 0,
        a.0 < u64::MAX ==> U256((a.0 + 1) as u64, a.1, a.2, a.3).value() == a.value() + 1,
        a.1 < u64::MAX ==> U256(0, (a.1 + 1) as u64, a.2, a.3).value() == U256(
            u64::MAX,
            a.1,
            a.2,
            a.3,
        ).value() + 1,
        a.2 < u64::MAX ==> U256(0, 0, (a.2 + 1) as u64, a.3).value() == U256(
            u64::MAX,
            u64::MAX,
            a.2,
            a.3,
        ).value() + 1,
        a.3 < u64::MAX ==> U256(0, 0, 0, (a.3 + 1) as u64).value() == U256(
            u64::MAX,
            u64::MAX,
            u64::MAX,
            a.3,
        ).value() + 1,
        a.value() == b.value() ==> a == b,
{
}

} // verus!
