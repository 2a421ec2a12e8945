//! Byte-exact checks of the signed payload layouts, the digest helpers
//! against an independent Keccak-256 computation, and the log decoder.

use raiden::decode::{as_state_change, channel_opened, decode_log, DecodeError, Event, EventKind, EventSpecItem, Log, ParamKind, Token};
use raiden::hashing::{hash_data, keccak256, secret_hash};
use raiden::packing::{
    pack_acknowledgement, pack_balance_proof, pack_balance_proof_message, pack_secret_request,
    pack_secret_reveal, pack_withdraw, CanonicalIdentifier, CmdId, MessageTypeId,
};
use raiden::state::{compute_balance_hash, compute_locksroot, HashTimeLockState, MediationFeeConfig, PendingLocksState};
use raiden::state_change::StateChange;
use raiden::types::{Address, ChainID, Signature, H256, U256};
use tiny_keccak::Hasher;

fn keccak_reference(data: &[u8]) -> [u8; 32] {
    let mut hasher = tiny_keccak::Keccak::v256();
    hasher.update(data);
    let mut out = [0u8; 32];
    hasher.finalize(&mut out);
    out
}

fn h256_bytes(x: H256) -> Vec<u8> {
    let mut out = Vec::new();
    out.extend_from_slice(&x.b3.to_be_bytes());
    out.extend_from_slice(&x.b2.to_be_bytes());
    out.extend_from_slice(&x.b1.to_be_bytes());
    out.extend_from_slice(&x.b0.to_be_bytes());
    out
}

fn u256_bytes(x: U256) -> Vec<u8> {
    let mut out = Vec::new();
    out.extend_from_slice(&x.n3.to_be_bytes());
    out.extend_from_slice(&x.n2.to_be_bytes());
    out.extend_from_slice(&x.n1.to_be_bytes());
    out.extend_from_slice(&x.n0.to_be_bytes());
    out
}

fn address_bytes(x: Address) -> Vec<u8> {
    let mut out = Vec::new();
    out.extend_from_slice(&x.a2.to_be_bytes());
    out.extend_from_slice(&x.a1.to_be_bytes());
    out.extend_from_slice(&x.a0.to_be_bytes());
    out
}

fn word_u64(x: u64) -> Vec<u8> {
    let mut out = vec![0u8; 24];
    out.extend_from_slice(&x.to_be_bytes());
    out
}

fn canonical() -> CanonicalIdentifier {
    CanonicalIdentifier {
        chain_identifier: ChainID::Mainnet,
        token_network_address: Address { a2: 0x1111, a1: 0x2222, a0: 0x3333 },
        channel_identifier: U256 { n3: 0, n2: 0, n1: 0, n0: 77 },
    }
}

#[test]
fn balance_proof_packing_layout() {
    let nonce = U256 { n3: 0, n2: 0, n1: 0, n0: 5 };
    let balance_hash = H256 { b3: 1, b2: 2, b1: 3, b0: 4 };
    let additional_hash = H256 { b3: 9, b2: 8, b1: 7, b0: 6 };
    let packed = pack_balance_proof(
        nonce,
        balance_hash,
        additional_hash,
        canonical(),
        MessageTypeId::BalanceProof,
    );
    let mut expected = Vec::new();
    expected.extend(address_bytes(canonical().token_network_address));
    expected.extend(word_u64(1));
    expected.extend(word_u64(1));
    expected.extend(u256_bytes(canonical().channel_identifier));
    expected.extend(h256_bytes(balance_hash));
    expected.extend(u256_bytes(nonce));
    expected.extend(h256_bytes(additional_hash));
    assert_eq!(packed, expected);
    assert_eq!(packed.len(), 20 + 32 * 6);

    let sig = Signature { r: H256 { b3: 0, b2: 0, b1: 0, b0: 1 }, s: H256 { b3: 0, b2: 0, b1: 0, b0: 2 }, v: 27 };
    let with_sig = pack_balance_proof_message(
        nonce,
        balance_hash,
        additional_hash,
        canonical(),
        MessageTypeId::BalanceProof,
        sig,
    );
    assert_eq!(with_sig.len(), packed.len() + 65);
    assert_eq!(&with_sig[..packed.len()], &packed[..]);
    assert_eq!(with_sig[packed.len() + 64], 27);
}

#[test]
fn withdraw_packing_layout() {
    let participant = Address { a2: 5, a1: 6, a0: 7 };
    let total = U256 { n3: 0, n2: 0, n1: 0, n0: 40 };
    let packed = pack_withdraw(canonical(), participant, total, 2000);
    let mut expected = Vec::new();
    expected.extend(address_bytes(canonical().token_network_address));
    expected.extend(word_u64(1));
    expected.extend(u256_bytes(canonical().channel_identifier));
    expected.extend(address_bytes(participant));
    expected.extend(u256_bytes(total));
    expected.extend(word_u64(2000));
    assert_eq!(packed, expected);
}

#[test]
fn acknowledgement_packing_layout() {
    let packed = pack_acknowledgement(CmdId::Processed, 0x0102030405060708);
    assert_eq!(packed, vec![0, 0, 0, 0, 1, 2, 3, 4, 5, 6, 7, 8]);
    let delivered = pack_acknowledgement(CmdId::Delivered, 1);
    assert_eq!(delivered[0], 12);
}

#[test]
fn secret_message_packing_layouts() {
    let secrethash = H256 { b3: 0, b2: 0, b1: 0, b0: 9 };
    let packed = pack_secret_request(3, 4, secrethash, U256 { n3: 0, n2: 0, n1: 0, n0: 50 }, 1000);
    assert_eq!(packed.len(), 1 + 3 + 8 + 8 + 32 + 32 + 32);
    assert_eq!(packed[0], 3);
    let reveal = pack_secret_reveal(3, secrethash);
    assert_eq!(reveal.len(), 1 + 3 + 8 + 32);
    assert_eq!(reveal[0], 11);
}

#[test]
fn digests_match_an_independent_keccak() {
    // The locksroot of one lock is the Keccak-256 of its 96-byte encoding.
    let lock = HashTimeLockState {
        amount: U256 { n3: 0, n2: 0, n1: 0, n0: 50 },
        expiration: 1000,
        secrethash: H256 { b3: 4, b2: 3, b1: 2, b0: 1 },
    };
    let locksroot = compute_locksroot(&PendingLocksState { locks: vec![lock] });
    let mut encoded = Vec::new();
    encoded.extend(word_u64(1000));
    encoded.extend(u256_bytes(lock.amount));
    encoded.extend(h256_bytes(lock.secrethash));
    assert_eq!(encoded.len(), 96);
    assert_eq!(h256_bytes(locksroot), keccak_reference(&encoded).to_vec());

    // The balance hash binds transferred, locked and the locksroot.
    let transferred = U256 { n3: 0, n2: 0, n1: 0, n0: 100 };
    let locked = U256 { n3: 0, n2: 0, n1: 0, n0: 0 };
    let bh = compute_balance_hash(transferred, locked, locksroot);
    let mut payload = Vec::new();
    payload.extend(u256_bytes(transferred));
    payload.extend(u256_bytes(locked));
    payload.extend(h256_bytes(locksroot));
    assert_eq!(h256_bytes(bh), keccak_reference(&payload).to_vec());

    // A secret hashes to its lock key.
    let secret = H256 { b3: 0, b2: 0, b1: 0, b0: 5 };
    assert_eq!(
        h256_bytes(secret_hash(secret)),
        keccak_reference(&h256_bytes(secret)).to_vec()
    );

    // Plain keccak256 of arbitrary bytes.
    let data = vec![1u8, 2, 3];
    assert_eq!(h256_bytes(keccak256(&data)), keccak_reference(&[1, 2, 3]).to_vec());
}

#[test]
fn personal_message_framing() {
    // keccak("\x19Ethereum Signed Message:\n3" ++ [1, 2, 3])
    let mut framed = Vec::new();
    framed.extend_from_slice(b"\x19Ethereum Signed Message:\n3");
    framed.extend_from_slice(&[1, 2, 3]);
    let data = vec![1u8, 2, 3];
    assert_eq!(h256_bytes(hash_data(&data)), keccak_reference(&framed).to_vec());
}

#[test]
fn log_decoding_reads_topics_and_data_words() {
    let signature = H256 { b3: 0, b2: 0, b1: 0, b0: 0xAB };
    let registry = vec![EventSpecItem {
        signature,
        kind: EventKind::ChannelNewDeposit,
        indexed: vec![ParamKind::UintParam, ParamKind::AddressParam],
        data: vec![ParamKind::UintParam],
    }];
    let participant = Address { a2: 1, a1: 2, a0: 3 };
    let mut participant_word = vec![0u8; 12];
    participant_word.extend(address_bytes(participant));
    let log = Log {
        address: Address { a2: 9, a1: 9, a0: 9 },
        topics: vec![
            signature,
            H256 { b3: 0, b2: 0, b1: 0, b0: 77 },
            H256 {
                b3: u64::from_be_bytes(participant_word[0..8].try_into().unwrap()),
                b2: u64::from_be_bytes(participant_word[8..16].try_into().unwrap()),
                b1: u64::from_be_bytes(participant_word[16..24].try_into().unwrap()),
                b0: u64::from_be_bytes(participant_word[24..32].try_into().unwrap()),
            },
        ],
        data: word_u64(500),
        block_number: 12,
        block_hash: H256 { b3: 0, b2: 0, b1: 0, b0: 2 },
        transaction_hash: H256 { b3: 0, b2: 0, b1: 0, b0: 3 },
    };
    let event = decode_log(&registry, &log).unwrap();
    assert_eq!(event.name, EventKind::ChannelNewDeposit);
    assert_eq!(event.data.len(), 3);
    assert_eq!(event.data[0], Token::UintValue(U256 { n3: 0, n2: 0, n1: 0, n0: 77 }));
    assert_eq!(event.data[1], Token::AddressValue(participant));
    assert_eq!(event.data[2], Token::UintValue(U256 { n3: 0, n2: 0, n1: 0, n0: 500 }));

    // A log whose first topic matches nothing decodes to nothing.
    let unknown = Log { topics: vec![H256 { b3: 0, b2: 0, b1: 0, b0: 0xCD }], ..log };
    assert!(decode_log(&registry, &unknown).is_none());
}


#[test]
fn event_conversion_case_split() {
    let fee_config = || MediationFeeConfig {
        token_to_flat_fee: Vec::new(),
        token_to_proportional_fee: Vec::new(),
        token_to_proportional_imbalance_fee: Vec::new(),
        cap_meditation_fees: true,
    };
    let us = Address { a2: 0, a1: 0, a0: 1 };
    let them = Address { a2: 0, a1: 0, a0: 2 };
    let stranger = Address { a2: 0, a1: 0, a0: 3 };
    let base_event = |data: Vec<Token>| Event {
        name: EventKind::ChannelOpened,
        address: Address { a2: 0, a1: 0, a0: 30 },
        block_number: 7,
        block_hash: H256 { b3: 0, b2: 0, b1: 0, b0: 9 },
        transaction_hash: H256 { b3: 0, b2: 0, b1: 0, b0: 8 },
        data,
    };
    let uint = |n: u64| Token::UintValue(U256 { n3: 0, n2: 0, n1: 0, n0: n });
    let well_typed = |p1: Address, p2: Address, settle: Token| {
        vec![uint(1), Token::AddressValue(p1), Token::AddressValue(p2), settle]
    };

    // A channel between strangers is ignored with no state change.
    let event = base_event(well_typed(them, stranger, uint(500)));
    let r = channel_opened(&event, us, ChainID::Goerli, Address { a2: 0, a1: 0, a0: 20 },
        fee_config());
    assert_eq!(r, Ok(None));

    // A channel we take part in is created, with the other side as partner.
    let event = base_event(well_typed(us, them, uint(500)));
    let r = channel_opened(&event, us, ChainID::Goerli, Address { a2: 0, a1: 0, a0: 20 },
        fee_config());
    match r {
        Ok(Some(StateChange::ContractReceiveChannelOpened(x))) => {
            assert_eq!(x.channel_state.partner_state.address, them);
            assert_eq!(x.channel_state.settle_timeout, 500);
        }
        other => panic!("unexpected conversion: {:?}", other),
    }

    // A settle timeout below the reveal timeout draws the construction error.
    let event = base_event(well_typed(us, them, uint(10)));
    let r = channel_opened(&event, us, ChainID::Goerli, Address { a2: 0, a1: 0, a0: 20 },
        fee_config());
    assert!(matches!(r, Err(DecodeError::InvalidChannel(_))));

    // A settle timeout beyond the block range is rejected, not truncated.
    let oversized = Token::UintValue(U256 { n3: 0, n2: 0, n1: 1, n0: 500 });
    let event = base_event(well_typed(us, them, oversized));
    let r = channel_opened(&event, us, ChainID::Goerli, Address { a2: 0, a1: 0, a0: 20 },
        fee_config());
    assert_eq!(r, Err(DecodeError::InvalidParameter));

    // Too few words draw the missing-parameter error.
    let event = base_event(vec![uint(1)]);
    let r = channel_opened(&event, us, ChainID::Goerli, Address { a2: 0, a1: 0, a0: 20 },
        fee_config());
    assert_eq!(r, Err(DecodeError::MissingParameter));

    // A mis-typed word draws the invalid-parameter error through the
    // dispatcher too.
    let event = Event {
        name: EventKind::ChannelClosed,
        data: vec![uint(1), uint(2)],
        ..base_event(Vec::new())
    };
    let r = as_state_change(&event, us, ChainID::Goerli, Address { a2: 0, a1: 0, a0: 20 },
        fee_config(), None);
    assert_eq!(r, Err(DecodeError::InvalidParameter));

    // A settlement without its locksroot enrichment cannot be converted.
    let event = Event {
        name: EventKind::ChannelSettled,
        data: vec![uint(1)],
        ..base_event(Vec::new())
    };
    let r = as_state_change(&event, us, ChainID::Goerli, Address { a2: 0, a1: 0, a0: 20 },
        fee_config(), None);
    assert_eq!(r, Err(DecodeError::UnknownChannel));
}

#[test]
fn withdraw_threshold_saturates() {
    let w = raiden::state::PendingWithdrawState {
        total_withdraw: U256 { n3: 0, n2: 0, n1: 0, n0: 40 },
        expiration: u64::MAX - 3,
        nonce: U256 { n3: 0, n2: 0, n1: 0, n0: 1 },
    };
    assert_eq!(w.expiration_threshold(), u64::MAX);
    assert!(w.has_expired(u64::MAX));
    assert!(!w.has_expired(u64::MAX - 1));
    let w2 = raiden::state::PendingWithdrawState { expiration: 2000, ..w };
    assert_eq!(w2.expiration_threshold(), 2010);
}

#[test]
fn u256_arithmetic() {
    let max = U256 {
        n3: u64::MAX,
        n2: u64::MAX,
        n1: u64::MAX,
        n0: u64::MAX,
    };
    let one = U256 { n3: 0, n2: 0, n1: 0, n0: 1 };
    assert_eq!(max.checked_add(one), None);
    assert_eq!(one.checked_sub(max), None);
    let carry = U256 { n3: 0, n2: 0, n1: 0, n0: u64::MAX };
    assert_eq!(
        carry.checked_add(one),
        Some(U256 { n3: 0, n2: 0, n1: 1, n0: 0 })
    );
    assert!(one.lt(carry));
    assert_eq!(one.max_of(carry), carry);
    assert_eq!(max.saturating_add(one), max);
    assert_eq!(one.saturating_sub(carry), U256::zero());
}
