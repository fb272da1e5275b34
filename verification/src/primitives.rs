//! Fixed-size values of the chain: addresses, hashes and 256-bit integers.

use vstd::prelude::*;

verus! {

/// A 20-byte account address.
#[derive(Clone, Copy, Debug)]
pub struct Address(pub [u8; 20]);

/// A 32-byte hash.
#[derive(Clone, Copy, Debug)]
pub struct H256(pub [u8; 32]);

/// An 8-byte value, used for the proof-of-work nonce of a header.
#[derive(Clone, Copy, Debug)]
pub struct H64(pub [u8; 8]);

/// An unsigned 256-bit integer, as four 64-bit limbs, least significant first.
#[derive(Clone, Copy, Debug)]
pub struct U256(pub [u64; 4]);

/// Whether every byte of `bytes` is zero.
pub open spec fn all_zero(bytes: Seq<u8>) -> bool {
    forall|i: int| 0 <= i < bytes.len() ==> bytes[i] == 0u8
}

/// Whether every byte of the slice is zero.
pub fn bytes_are_zero(bytes: &[u8]) -> (zero: bool)
    ensures
        zero == all_zero(bytes@),
{
    let mut i: usize = 0;
    while i < bytes.len()
        invariant
            i <= bytes.len(),
            forall|j: int| 0 <= j < i ==> bytes@[j] == 0u8,
        decreases bytes.len() - i,
    {
        if bytes[i] != 0 {
            return false;
        }
        i += 1;
    }
    true
}

impl View for Address {
    type V = Seq<u8>;

    open spec fn view(&self) -> Seq<u8> {
        self.0@
    }
}

impl Address {
    /// The bytes of the zero address.
    pub open spec fn spec_zero() -> Seq<u8> {
        Seq::new(20, |i: int| 0u8)
    }

    /// The address whose bytes are all zero.
    pub fn zero() -> (a: Address)
        ensures
            a@ == Address::spec_zero(),
            all_zero(a@),
    {
        Address([0u8; 20])
    }

    pub fn is_zero(&self) -> (zero: bool)
        ensures
            zero == all_zero(self@),
    {
        bytes_are_zero(self.0.as_slice())
    }

    pub fn as_bytes(&self) -> (bytes: &[u8])
        ensures
            bytes@ == self@,
    {
        self.0.as_slice()
    }
}

impl View for H256 {
    type V = Seq<u8>;

    open spec fn view(&self) -> Seq<u8> {
        self.0@
    }
}

impl H256 {
    /// The bytes of the zero hash.
    pub open spec fn spec_zero() -> Seq<u8> {
        Seq::new(32, |i: int| 0u8)
    }

    /// The hash whose bytes are all zero.
    pub fn zero() -> (h: H256)
        ensures
            h@ == H256::spec_zero(),
            all_zero(h@),
    {
        H256([0u8; 32])
    }

    pub fn is_zero(&self) -> (zero: bool)
        ensures
            zero == all_zero(self@),
    {
        bytes_are_zero(self.0.as_slice())
    }

    pub fn as_bytes(&self) -> (bytes: &[u8])
        ensures
            bytes@ == self@,
    {
        self.0.as_slice()
    }
}

impl View for H64 {
    type V = Seq<u8>;

    open spec fn view(&self) -> Seq<u8> {
        self.0@
    }
}

impl H64 {
    pub fn as_bytes(&self) -> (bytes: &[u8])
        ensures
            bytes@ == self@,
    {
        self.0.as_slice()
    }
}

/// Two to the power 64.
pub open spec fn limb_base() -> nat {
    0x1_0000_0000_0000_0000
}

impl View for U256 {
    type V = nat;

    /// The number that the four limbs stand for.
    open spec fn view(&self) -> nat {
        self.0@[0] as nat + limb_base() * (self.0@[1] as nat + limb_base() * (self.0@[2] as nat
            + limb_base() * (self.0@[3] as nat)))
    }
}

impl U256 {
    /// Whether the number fits in 64 bits.
    pub open spec fn fits_u64(&self) -> bool {
        self@ <= u64::MAX
    }

    pub fn zero() -> (n: U256)
        ensures
            n@ == 0,
    {
        U256([0u64; 4])
    }

    pub fn from_u64(value: u64) -> (n: U256)
        ensures
            n@ == value,
    {
        U256([value, 0, 0, 0])
    }

    pub fn is_zero(&self) -> (zero: bool)
        ensures
            zero == (self@ == 0),
    {
        proof {
            self.lemma_high_limbs();
        }
        self.0[0] == 0 && self.0[1] == 0 && self.0[2] == 0 && self.0[3] == 0
    }

    /// Whether the number fits in 64 bits.
    pub fn is_u64(&self) -> (fits: bool)
        ensures
            fits == self.fits_u64(),
    {
        proof {
            self.lemma_high_limbs();
        }
        self.0[1] == 0 && self.0[2] == 0 && self.0[3] == 0
    }

    /// The number as a `u64`.
    pub fn as_u64(&self) -> (value: u64)
        requires
            self.fits_u64(),
        ensures
            value == self@,
    {
        proof {
            self.lemma_high_limbs();
        }
        self.0[0]
    }

    /// The number is below two to the 64 exactly when the three high limbs are
    /// zero, and it is then the lowest limb.
    pub proof fn lemma_high_limbs(&self)
        ensures
            (self.0@[1] == 0 && self.0@[2] == 0 && self.0@[3] == 0) <==> self@ < limb_base(),
            (self.0@[1] == 0 && self.0@[2] == 0 && self.0@[3] == 0) ==> self@ == self.0@[0],
    {
        let b = limb_base();
        let l1 = self.0@[1] as nat;
        let l2 = self.0@[2] as nat;
        let l3 = self.0@[3] as nat;
        let inner = l1 + b * (l2 + b * l3);
        assert(l3 > 0 ==> b * l3 >= b) by (nonlinear_arith)
            requires
                b > 0,
        ;
        assert(l2 + b * l3 > 0 ==> b * (l2 + b * l3) >= b) by (nonlinear_arith)
            requires
                b > 0,
        ;
        assert(inner > 0 ==> b * inner >= b) by (nonlinear_arith)
            requires
                b > 0,
        ;
        assert(inner == 0 ==> b * inner == 0) by (nonlinear_arith);
    }
}

} // verus!
