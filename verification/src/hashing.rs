//! The Keccak-256 digest used for locksroots, balance hashes and signed
//! payloads, and the personal-message framing applied before signing.

use vstd::prelude::*;

use crate::types::{spec_h256_from_be, H256};
use tiny_keccak::Hasher;

verus! {

broadcast use vstd::std_specs::vec::axiom_spec_len;

/// The Keccak-256 digest of a byte string. The digest is a function of the
/// bytes alone; its value is stated nowhere and is produced only by
/// [`keccak256`].
pub uninterp spec fn keccak_of(data: Seq<u8>) -> Seq<u8>;

/// Relies on tiny_keccak's `Keccak::v256`: the Keccak-256 digest of the
/// input bytes, 32 bytes long, depending on the input bytes alone.
#[verifier::external_body]
fn keccak256_bytes(data: &Vec<u8>) -> (r: Vec<u8>)
    ensures
        r@ == keccak_of(data@),
        r@.len() == 32,
{
    let mut hasher = tiny_keccak::Keccak::v256();
    hasher.update(data.as_slice());
    let mut out = [0u8; 32];
    hasher.finalize(&mut out);
    out.to_vec()
}

/// The Keccak-256 digest of `data`, read as a 32-byte big-endian digest
/// value.
pub open spec fn spec_keccak(data: Seq<u8>) -> H256 {
    spec_h256_from_be(keccak_of(data), 0)
}

/// Computes the Keccak-256 digest of `data`.
pub fn keccak256(data: &Vec<u8>) -> (r: H256)
    ensures
        r == spec_keccak(data@),
{
    let bytes = keccak256_bytes(data);
    crate::types::h256_from_be(&bytes, 0)
}

/// The digest a secret must hash to: the Keccak-256 of its 32 bytes.
pub open spec fn spec_secret_hash(secret: H256) -> H256 {
    spec_keccak(crate::types::spec_h256_be_bytes(secret))
}

/// Hashes a 32-byte secret to the secret hash its locks are keyed by.
pub fn secret_hash(secret: H256) -> (r: H256)
    ensures
        r == spec_secret_hash(secret),
{
    let mut b: Vec<u8> = Vec::new();
    crate::types::push_h256_be(&mut b, secret);
    proof {
        assert(b@ =~= crate::types::spec_h256_be_bytes(secret));
    }
    keccak256(&b)
}

/// The ASCII decimal digits of `n`, most significant first.
pub open spec fn spec_decimal(n: nat) -> Seq<u8>
    decreases n,
{
    if n < 10 {
        seq![(48 + n) as u8]
    } else {
        spec_decimal(n / 10).push((48 + n % 10) as u8)
    }
}

/// The ASCII decimal digits of `n`.
pub fn decimal_bytes(n: u64) -> (r: Vec<u8>)
    ensures
        r@ == spec_decimal(n as nat),
    decreases n,
{
    if n < 10 {
        let mut v: Vec<u8> = Vec::new();
        v.push((48 + n) as u8);
        proof {
            assert(v@ =~= spec_decimal(n as nat));
        }
        v
    } else {
        let mut v = decimal_bytes(n / 10);
        v.push((48 + n % 10) as u8);
        v
    }
}

/// The prefix of the personal-message framing: the byte `0x19` followed by
/// the ASCII text `Ethereum Signed Message:` and a newline.
pub open spec fn spec_personal_prefix() -> Seq<u8> {
    seq![
        0x19u8,
        69u8,
        116u8,
        104u8,
        101u8,
        114u8,
        101u8,
        117u8,
        109u8,
        32u8,
        83u8,
        105u8,
        103u8,
        110u8,
        101u8,
        100u8,
        32u8,
        77u8,
        101u8,
        115u8,
        115u8,
        97u8,
        103u8,
        101u8,
        58u8,
        10u8,
    ]
}

/// The personal-message framing applied before signing: prefix, the decimal
/// byte length of the payload, then the payload.
pub open spec fn spec_personal_message(data: Seq<u8>) -> Seq<u8> {
    spec_personal_prefix() + spec_decimal(data.len()) + data
}

/// Frames `data` as a personal message and hashes it; the digest is what a
/// message signature signs.
pub fn hash_data(data: &Vec<u8>) -> (r: H256)
    ensures
        r == spec_keccak(spec_personal_message(data@)),
{
    let mut msg: Vec<u8> = Vec::new();
    msg.push(0x19u8);
    msg.push(69u8);
    msg.push(116u8);
    msg.push(104u8);
    msg.push(101u8);
    msg.push(114u8);
    msg.push(101u8);
    msg.push(117u8);
    msg.push(109u8);
    msg.push(32u8);
    msg.push(83u8);
    msg.push(105u8);
    msg.push(103u8);
    msg.push(110u8);
    msg.push(101u8);
    msg.push(100u8);
    msg.push(32u8);
    msg.push(77u8);
    msg.push(101u8);
    msg.push(115u8);
    msg.push(115u8);
    msg.push(97u8);
    msg.push(103u8);
    msg.push(101u8);
    msg.push(58u8);
    msg.push(10u8);
    proof {
        assert(msg@ =~= spec_personal_prefix());
    }
    let len: usize = data.len();
    let digits = decimal_bytes(len as u64);
    proof {
        assert(msg@ =~= spec_personal_prefix() + digits@.subrange(0, 0));
    }
    let mut i: usize = 0;
    while i < digits.len()
        invariant
            0 <= i <= digits@.len(),
            msg@ == spec_personal_prefix() + digits@.subrange(0, i as int),
        decreases digits@.len() - i,
    {
        msg.push(digits[i]);
        i = i + 1;
        proof {
            assert(msg@ =~= spec_personal_prefix() + digits@.subrange(0, i as int));
        }
    }
    proof {
        assert(digits@.subrange(0, digits@.len() as int) =~= digits@);
        assert(msg@ =~= spec_personal_prefix() + digits@ + data@.subrange(0, 0));
    }
    let mut j: usize = 0;
    while j < data.len()
        invariant
            0 <= j <= data@.len(),
            digits@ == spec_decimal(data@.len()),
            msg@ == spec_personal_prefix() + digits@ + data@.subrange(0, j as int),
        decreases data@.len() - j,
    {
        msg.push(data[j]);
        j = j + 1;
        proof {
            assert(msg@ =~= spec_personal_prefix() + digits@ + data@.subrange(0, j as int));
        }
    }
    proof {
        assert(msg@ =~= spec_personal_message(data@));
    }
    keccak256(&msg)
}

} // verus!
