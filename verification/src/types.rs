//! Primitive semantic types: 256-bit unsigned integers, 32-byte digests,
//! 20-byte addresses, chain identifiers and signatures, together with their
//! big-endian byte encodings used in signature payloads.

use vstd::prelude::*;

verus! {

broadcast use vstd::std_specs::vec::axiom_spec_len;

/// An unsigned 256-bit integer, held as four 64-bit limbs, most significant
/// limb first (`n3` is the most significant).
#[derive(Clone, Copy, PartialEq, Eq, Structural, Debug, Hash)]
pub struct U256 {
    pub n3: u64,
    pub n2: u64,
    pub n1: u64,
    pub n0: u64,
}

/// A 32-byte digest or hash-sized value, held as four 64-bit words, most
/// significant word first.
#[derive(Clone, Copy, PartialEq, Eq, Structural, Debug, Hash)]
pub struct H256 {
    pub b3: u64,
    pub b2: u64,
    pub b1: u64,
    pub b0: u64,
}

/// A 20-byte account or contract identifier, held as two 64-bit words and one
/// 32-bit word, most significant first.
#[derive(Clone, Copy, PartialEq, Eq, Structural, Debug, Hash)]
pub struct Address {
    pub a2: u64,
    pub a1: u64,
    pub a0: u32,
}

/// A 65-byte secp256k1 signature `(r, s, v)`.
#[derive(Clone, Copy, PartialEq, Eq, Structural, Debug)]
pub struct Signature {
    pub r: H256,
    pub s: H256,
    pub v: u8,
}

/// The chain on which the token networks live.
#[derive(Clone, Copy, PartialEq, Eq, Structural, Debug, Hash)]
pub enum ChainID {
    Mainnet,
    Ropsten,
    Rinkeby,
    Goerli,
    Kovan,
}

pub type TokenAmount = U256;
pub type LockedAmount = U256;
pub type Nonce = U256;
pub type ChannelIdentifier = U256;
pub type GasLimit = U256;

pub type BlockHash = H256;
pub type SecretHash = H256;
pub type MessageHash = H256;
pub type TransactionHash = H256;
pub type Locksroot = H256;
pub type BalanceHash = H256;
/// A 32-byte secret preimage.
pub type Secret = H256;
pub type RawSecret = H256;

pub type TokenAddress = Address;
pub type TokenNetworkAddress = Address;
pub type TokenNetworkRegistryAddress = Address;
pub type SecretRegistryAddress = Address;

pub type BlockNumber = u64;
pub type BlockExpiration = u64;
pub type BlockTimeout = u64;
pub type RevealTimeout = u64;
pub type SettleTimeout = u64;
pub type MessageIdentifier = u64;
pub type PaymentIdentifier = u64;

impl U256 {
    /// The mathematical value of the four limbs.
    pub open spec fn as_nat(self) -> nat {
        (self.n0 as nat) + (self.n1 as nat) * 0x1_0000_0000_0000_0000 + (self.n2 as nat)
            * 0x1_0000_0000_0000_0000_0000_0000_0000_0000 + (self.n3 as nat)
            * 0x1_0000_0000_0000_0000_0000_0000_0000_0000_0000_0000_0000_0000
    }

    pub fn zero() -> (r: U256)
        ensures
            r.as_nat() == 0,
            r == (U256 { n3: 0, n2: 0, n1: 0, n0: 0 }),
    {
        U256 { n3: 0, n2: 0, n1: 0, n0: 0 }
    }

    pub fn from_u64(n: u64) -> (r: U256)
        ensures
            r.as_nat() == n,
    {
        U256 { n3: 0, n2: 0, n1: 0, n0: n }
    }

    pub fn is_zero(self) -> (r: bool)
        ensures
            r == (self.as_nat() == 0),
    {
        self.n3 == 0 && self.n2 == 0 && self.n1 == 0 && self.n0 == 0
    }

    /// The sum at the limb level, or `None` when it does not fit in 256
    /// bits; the value-level meaning is stated on [`U256::checked_add`].
    pub open spec fn spec_add(self, other: U256) -> Option<U256> {
        let s0 = self.n0 + other.n0;
        let c0 = s0 / 0x1_0000_0000_0000_0000;
        let s1 = self.n1 + other.n1 + c0;
        let c1 = s1 / 0x1_0000_0000_0000_0000;
        let s2 = self.n2 + other.n2 + c1;
        let c2 = s2 / 0x1_0000_0000_0000_0000;
        let s3 = self.n3 + other.n3 + c2;
        let c3 = s3 / 0x1_0000_0000_0000_0000;
        if c3 == 0 {
            Some(
                U256 {
                    n3: (s3 % 0x1_0000_0000_0000_0000) as u64,
                    n2: (s2 % 0x1_0000_0000_0000_0000) as u64,
                    n1: (s1 % 0x1_0000_0000_0000_0000) as u64,
                    n0: (s0 % 0x1_0000_0000_0000_0000) as u64,
                },
            )
        } else {
            None
        }
    }

    /// The difference at the limb level, or `None` when the subtrahend is
    /// larger; the value-level meaning is stated on [`U256::checked_sub`].
    pub open spec fn spec_sub(self, other: U256) -> Option<U256> {
        let m0 = 0x1_0000_0000_0000_0000 + self.n0 - other.n0;
        let b0 = 1 - m0 / 0x1_0000_0000_0000_0000;
        let m1 = 0x1_0000_0000_0000_0000 + self.n1 - other.n1 - b0;
        let b1 = 1 - m1 / 0x1_0000_0000_0000_0000;
        let m2 = 0x1_0000_0000_0000_0000 + self.n2 - other.n2 - b1;
        let b2 = 1 - m2 / 0x1_0000_0000_0000_0000;
        let m3 = 0x1_0000_0000_0000_0000 + self.n3 - other.n3 - b2;
        let b3 = 1 - m3 / 0x1_0000_0000_0000_0000;
        if b3 == 0 {
            Some(
                U256 {
                    n3: (m3 % 0x1_0000_0000_0000_0000) as u64,
                    n2: (m2 % 0x1_0000_0000_0000_0000) as u64,
                    n1: (m1 % 0x1_0000_0000_0000_0000) as u64,
                    n0: (m0 % 0x1_0000_0000_0000_0000) as u64,
                },
            )
        } else {
            None
        }
    }

    /// One more than this value, or `None` at the top of the range.
    pub open spec fn spec_inc(self) -> Option<U256> {
        self.spec_add(U256 { n3: 0, n2: 0, n1: 0, n0: 1 })
    }

    /// Sum of the two values, or `None` when the sum does not fit in 256 bits.
    pub fn checked_add(self, other: U256) -> (r: Option<U256>)
        ensures
            r == self.spec_add(other),
            match r {
                Some(s) => s.as_nat() == self.as_nat() + other.as_nat(),
                None => self.as_nat() + other.as_nat()
                    >= 0x1_0000_0000_0000_0000_0000_0000_0000_0000_0000_0000_0000_0000_0000_0000_0000_0000,
            },
    {
        let base: u128 = 0x1_0000_0000_0000_0000;
        let s0: u128 = self.n0 as u128 + other.n0 as u128;
        let r0: u64 = (s0 % base) as u64;
        let c0: u128 = s0 / base;
        let s1: u128 = self.n1 as u128 + other.n1 as u128 + c0;
        let r1: u64 = (s1 % base) as u64;
        let c1: u128 = s1 / base;
        let s2: u128 = self.n2 as u128 + other.n2 as u128 + c1;
        let r2: u64 = (s2 % base) as u64;
        let c2: u128 = s2 / base;
        let s3: u128 = self.n3 as u128 + other.n3 as u128 + c2;
        let r3: u64 = (s3 % base) as u64;
        let c3: u128 = s3 / base;
        if c3 == 0 {
            Some(U256 { n3: r3, n2: r2, n1: r1, n0: r0 })
        } else {
            None
        }
    }

    /// Difference of the two values, or `None` when the subtrahend is larger.
    pub fn checked_sub(self, other: U256) -> (r: Option<U256>)
        ensures
            r == self.spec_sub(other),
            match r {
                Some(d) => d.as_nat() + other.as_nat() == self.as_nat(),
                None => self.as_nat() < other.as_nat(),
            },
    {
        let base: u128 = 0x1_0000_0000_0000_0000;
        let m0: u128 = base + self.n0 as u128 - other.n0 as u128;
        let r0: u64 = (m0 % base) as u64;
        let b0: u128 = 1 - m0 / base;
        let m1: u128 = base + self.n1 as u128 - other.n1 as u128 - b0;
        let r1: u64 = (m1 % base) as u64;
        let b1: u128 = 1 - m1 / base;
        let m2: u128 = base + self.n2 as u128 - other.n2 as u128 - b1;
        let r2: u64 = (m2 % base) as u64;
        let b2: u128 = 1 - m2 / base;
        let m3: u128 = base + self.n3 as u128 - other.n3 as u128 - b2;
        let r3: u64 = (m3 % base) as u64;
        let b3: u128 = 1 - m3 / base;
        if b3 == 0 {
            Some(U256 { n3: r3, n2: r2, n1: r1, n0: r0 })
        } else {
            None
        }
    }

    /// Sum of the two values, capped at the largest 256-bit value.
    pub fn saturating_add(self, other: U256) -> (r: U256)
        ensures
            r.as_nat() == if self.as_nat() + other.as_nat()
                < 0x1_0000_0000_0000_0000_0000_0000_0000_0000_0000_0000_0000_0000_0000_0000_0000_0000 {
                self.as_nat() + other.as_nat()
            } else {
                (0x1_0000_0000_0000_0000_0000_0000_0000_0000_0000_0000_0000_0000_0000_0000_0000_0000
                    - 1) as nat
            },
    {
        match self.checked_add(other) {
            Some(s) => s,
            None => U256 {
                n3: 0xFFFF_FFFF_FFFF_FFFF,
                n2: 0xFFFF_FFFF_FFFF_FFFF,
                n1: 0xFFFF_FFFF_FFFF_FFFF,
                n0: 0xFFFF_FFFF_FFFF_FFFF,
            },
        }
    }

    /// Difference of the two values, or zero when the subtrahend is larger.
    pub fn saturating_sub(self, other: U256) -> (r: U256)
        ensures
            r.as_nat() == if self.as_nat() >= other.as_nat() {
                self.as_nat() - other.as_nat()
            } else {
                0
            },
    {
        match self.checked_sub(other) {
            Some(d) => d,
            None => U256 { n3: 0, n2: 0, n1: 0, n0: 0 },
        }
    }

    pub fn lt(self, other: U256) -> (r: bool)
        ensures
            r == (self.as_nat() < other.as_nat()),
    {
        if self.n3 != other.n3 {
            self.n3 < other.n3
        } else if self.n2 != other.n2 {
            self.n2 < other.n2
        } else if self.n1 != other.n1 {
            self.n1 < other.n1
        } else {
            self.n0 < other.n0
        }
    }

    pub fn le(self, other: U256) -> (r: bool)
        ensures
            r == (self.as_nat() <= other.as_nat()),
    {
        !other.lt(self)
    }

    /// The larger of the two values.
    pub fn max_of(self, other: U256) -> (r: U256)
        ensures
            r.as_nat() == if self.as_nat() >= other.as_nat() {
                self.as_nat()
            } else {
                other.as_nat()
            },
            r == self || r == other,
    {
        if self.lt(other) {
            other
        } else {
            self
        }
    }
}

/// The big-endian bytes of a 64-bit word, most significant byte first.
pub open spec fn spec_u64_be_bytes(x: u64) -> Seq<u8> {
    seq![
        ((x / 0x100_0000_0000_0000) % 0x100) as u8,
        ((x / 0x1_0000_0000_0000) % 0x100) as u8,
        ((x / 0x100_0000_0000) % 0x100) as u8,
        ((x / 0x1_0000_0000) % 0x100) as u8,
        ((x / 0x100_0000) % 0x100) as u8,
        ((x / 0x1_0000) % 0x100) as u8,
        ((x / 0x100) % 0x100) as u8,
        (x % 0x100) as u8,
    ]
}

/// The 32 big-endian bytes of a 256-bit value.
pub open spec fn spec_u256_be_bytes(x: U256) -> Seq<u8> {
    spec_u64_be_bytes(x.n3) + spec_u64_be_bytes(x.n2) + spec_u64_be_bytes(x.n1)
        + spec_u64_be_bytes(x.n0)
}

/// The 32 big-endian bytes of a digest.
pub open spec fn spec_h256_be_bytes(x: H256) -> Seq<u8> {
    spec_u64_be_bytes(x.b3) + spec_u64_be_bytes(x.b2) + spec_u64_be_bytes(x.b1)
        + spec_u64_be_bytes(x.b0)
}

/// The 20 big-endian bytes of an address.
pub open spec fn spec_address_be_bytes(x: Address) -> Seq<u8> {
    spec_u64_be_bytes(x.a2) + spec_u64_be_bytes(x.a1) + spec_u32_be_bytes(x.a0)
}

/// The big-endian bytes of a 32-bit word.
pub open spec fn spec_u32_be_bytes(x: u32) -> Seq<u8> {
    seq![
        ((x / 0x100_0000) % 0x100) as u8,
        ((x / 0x1_0000) % 0x100) as u8,
        ((x / 0x100) % 0x100) as u8,
        (x % 0x100) as u8,
    ]
}

/// Appends the 8 big-endian bytes of `x` to `out`.
pub fn push_u64_be(out: &mut Vec<u8>, x: u64)
    ensures
        final(out)@ == old(out)@ + spec_u64_be_bytes(x),
{
    out.push(((x / 0x100_0000_0000_0000) % 0x100) as u8);
    out.push(((x / 0x1_0000_0000_0000) % 0x100) as u8);
    out.push(((x / 0x100_0000_0000) % 0x100) as u8);
    out.push(((x / 0x1_0000_0000) % 0x100) as u8);
    out.push(((x / 0x100_0000) % 0x100) as u8);
    out.push(((x / 0x1_0000) % 0x100) as u8);
    out.push(((x / 0x100) % 0x100) as u8);
    out.push((x % 0x100) as u8);
    proof {
        assert(out@ =~= old(out)@ + spec_u64_be_bytes(x));
    }
}

/// Appends the 4 big-endian bytes of `x` to `out`.
pub fn push_u32_be(out: &mut Vec<u8>, x: u32)
    ensures
        final(out)@ == old(out)@ + spec_u32_be_bytes(x),
{
    out.push(((x / 0x100_0000) % 0x100) as u8);
    out.push(((x / 0x1_0000) % 0x100) as u8);
    out.push(((x / 0x100) % 0x100) as u8);
    out.push((x % 0x100) as u8);
    proof {
        assert(out@ =~= old(out)@ + spec_u32_be_bytes(x));
    }
}

/// Appends the 32 big-endian bytes of `x` to `out`.
#[verifier::rlimit(50)]
pub fn push_u256_be(out: &mut Vec<u8>, x: U256)
    ensures
        final(out)@ == old(out)@ + spec_u256_be_bytes(x),
{
    push_u64_be(out, x.n3);
    push_u64_be(out, x.n2);
    push_u64_be(out, x.n1);
    push_u64_be(out, x.n0);
    proof {
        assert(out@ =~= old(out)@ + spec_u256_be_bytes(x));
    }
}

/// Appends the 32 big-endian bytes of `x` to `out`.
#[verifier::rlimit(50)]
pub fn push_h256_be(out: &mut Vec<u8>, x: H256)
    ensures
        final(out)@ == old(out)@ + spec_h256_be_bytes(x),
{
    push_u64_be(out, x.b3);
    push_u64_be(out, x.b2);
    push_u64_be(out, x.b1);
    push_u64_be(out, x.b0);
    proof {
        assert(out@ =~= old(out)@ + spec_h256_be_bytes(x));
    }
}

/// Appends the 20 big-endian bytes of `x` to `out`.
#[verifier::rlimit(50)]
pub fn push_address_be(out: &mut Vec<u8>, x: Address)
    ensures
        final(out)@ == old(out)@ + spec_address_be_bytes(x),
{
    push_u64_be(out, x.a2);
    push_u64_be(out, x.a1);
    push_u32_be(out, x.a0);
    proof {
        assert(out@ =~= old(out)@ + spec_address_be_bytes(x));
    }
}

impl H256 {
    pub fn zero() -> (r: H256)
        ensures
            r == (H256 { b3: 0, b2: 0, b1: 0, b0: 0 }),
    {
        H256 { b3: 0, b2: 0, b1: 0, b0: 0 }
    }
}

impl Address {
    pub fn zero() -> (r: Address)
        ensures
            r == (Address { a2: 0, a1: 0, a0: 0 }),
    {
        Address { a2: 0, a1: 0, a0: 0 }
    }
}

impl ChainID {
    /// The numeric chain identifier carried in signed payloads.
    pub open spec fn spec_id(self) -> u64 {
        match self {
            ChainID::Mainnet => 1,
            ChainID::Ropsten => 3,
            ChainID::Rinkeby => 4,
            ChainID::Goerli => 5,
            ChainID::Kovan => 42,
        }
    }

    pub fn id(self) -> (r: u64)
        ensures
            r == self.spec_id(),
    {
        match self {
            ChainID::Mainnet => 1,
            ChainID::Ropsten => 3,
            ChainID::Rinkeby => 4,
            ChainID::Goerli => 5,
            ChainID::Kovan => 42,
        }
    }
}

/// Reads a big-endian 64-bit word from 8 bytes of `s` starting at `i`.
pub open spec fn spec_u64_from_be(s: Seq<u8>, i: int) -> nat {
    (s[i] as nat) * 0x100_0000_0000_0000 + (s[i + 1] as nat) * 0x1_0000_0000_0000 + (s[i
        + 2] as nat) * 0x100_0000_0000 + (s[i + 3] as nat) * 0x1_0000_0000 + (s[i + 4] as nat)
        * 0x100_0000 + (s[i + 5] as nat) * 0x1_0000 + (s[i + 6] as nat) * 0x100 + (s[i + 7] as nat)
}

/// The digest whose words are read big-endian from the 32 bytes of `s`
/// starting at `i`.
pub open spec fn spec_h256_from_be(s: Seq<u8>, i: int) -> H256 {
    H256 {
        b3: spec_u64_from_be(s, i) as u64,
        b2: spec_u64_from_be(s, i + 8) as u64,
        b1: spec_u64_from_be(s, i + 16) as u64,
        b0: spec_u64_from_be(s, i + 24) as u64,
    }
}

fn u64_from_be(s: &Vec<u8>, i: usize) -> (r: u64)
    requires
        i + 8 <= s@.len(),
    ensures
        r == spec_u64_from_be(s@, i as int),
{
    let n: usize = s.len();
    let r: u64 = (s[i] as u64) * 0x100_0000_0000_0000 + (s[i + 1] as u64) * 0x1_0000_0000_0000 + (
    s[i + 2] as u64) * 0x100_0000_0000 + (s[i + 3] as u64) * 0x1_0000_0000 + (s[i + 4] as u64)
        * 0x100_0000 + (s[i + 5] as u64) * 0x1_0000 + (s[i + 6] as u64) * 0x100 + (s[i + 7] as u64);
    r
}

/// Reads a digest from 32 bytes of `s` starting at `i`.
pub fn h256_from_be(s: &Vec<u8>, i: usize) -> (r: H256)
    requires
        i + 32 <= s@.len(),
    ensures
        r == spec_h256_from_be(s@, i as int),
{
    let n: usize = s.len();
    H256 {
        b3: u64_from_be(s, i),
        b2: u64_from_be(s, i + 8),
        b1: u64_from_be(s, i + 16),
        b0: u64_from_be(s, i + 24),
    }
}

/// The 256-bit value read big-endian from the 32 bytes of `s` starting at `i`.
pub open spec fn spec_u256_from_be(s: Seq<u8>, i: int) -> U256 {
    U256 {
        n3: spec_u64_from_be(s, i) as u64,
        n2: spec_u64_from_be(s, i + 8) as u64,
        n1: spec_u64_from_be(s, i + 16) as u64,
        n0: spec_u64_from_be(s, i + 24) as u64,
    }
}

/// The address read big-endian from the last 20 bytes of the 32-byte word of
/// `s` starting at `i`, as contract event parameters carry addresses
/// right-aligned in one word.
pub open spec fn spec_address_from_be_word(s: Seq<u8>, i: int) -> Address {
    Address {
        a2: spec_u64_from_be(s, i + 12) as u64,
        a1: spec_u64_from_be(s, i + 20) as u64,
        a0: ((s[i + 28] as nat) * 0x100_0000 + (s[i + 29] as nat) * 0x1_0000 + (s[i + 30] as nat)
            * 0x100 + (s[i + 31] as nat)) as u32,
    }
}

/// Reads a 256-bit value from 32 bytes of `s` starting at `i`.
pub fn u256_from_be(s: &Vec<u8>, i: usize) -> (r: U256)
    requires
        i + 32 <= s@.len(),
    ensures
        r == spec_u256_from_be(s@, i as int),
{
    let n: usize = s.len();
    U256 {
        n3: u64_from_be(s, i),
        n2: u64_from_be(s, i + 8),
        n1: u64_from_be(s, i + 16),
        n0: u64_from_be(s, i + 24),
    }
}

/// Reads an address from the last 20 bytes of a 32-byte word of `s` starting
/// at `i`.
pub fn address_from_be_word(s: &Vec<u8>, i: usize) -> (r: Address)
    requires
        i + 32 <= s@.len(),
    ensures
        r == spec_address_from_be_word(s@, i as int),
{
    let n: usize = s.len();
    let a2: u64 = u64_from_be(s, i + 12);
    let a1: u64 = u64_from_be(s, i + 20);
    let a0: u32 = (s[i + 28] as u32) * 0x100_0000 + (s[i + 29] as u32) * 0x1_0000 + (s[i
        + 30] as u32) * 0x100 + (s[i + 31] as u32);
    Address { a2, a1, a0 }
}

} // verus!
