//! The exact byte layouts signed by off-chain messages and on-chain calls.
//! All integers are packed big-endian; any deviation breaks interoperability
//! with peers.

use vstd::prelude::*;

use crate::types::{
    spec_address_be_bytes, spec_h256_be_bytes, spec_u256_be_bytes, spec_u64_be_bytes,
    push_address_be, push_h256_be, push_u256_be, push_u64_be, Address, BalanceHash,
    BlockExpiration, ChainID, MessageHash, MessageIdentifier, Nonce, PaymentIdentifier, Secret,
    SecretHash, Signature, TokenAmount, U256, H256,
};

verus! {

/// The kind byte that channel-binding payloads carry.
#[derive(Clone, Copy, PartialEq, Eq, Structural, Debug)]
pub enum MessageTypeId {
    BalanceProof,
    BalanceProofUpdate,
    Withdraw,
    CooperativeSettle,
    IOU,
    MSReward,
}

impl MessageTypeId {
    pub open spec fn spec_value(self) -> u8 {
        match self {
            MessageTypeId::BalanceProof => 1,
            MessageTypeId::BalanceProofUpdate => 2,
            MessageTypeId::Withdraw => 3,
            MessageTypeId::CooperativeSettle => 4,
            MessageTypeId::IOU => 5,
            MessageTypeId::MSReward => 6,
        }
    }

    pub fn value(self) -> (r: u8)
        ensures
            r == self.spec_value(),
    {
        match self {
            MessageTypeId::BalanceProof => 1,
            MessageTypeId::BalanceProofUpdate => 2,
            MessageTypeId::Withdraw => 3,
            MessageTypeId::CooperativeSettle => 4,
            MessageTypeId::IOU => 5,
            MessageTypeId::MSReward => 6,
        }
    }
}

/// The command byte that opens every off-chain message payload.
#[derive(Clone, Copy, PartialEq, Eq, Structural, Debug)]
pub enum CmdId {
    Processed,
    SecretRequest,
    Unlock,
    LockedTransfer,
    RevealSecret,
    Delivered,
    LockExpired,
    WithdrawRequest,
    WithdrawConfirmation,
    WithdrawExpired,
}

impl CmdId {
    pub open spec fn spec_value(self) -> u8 {
        match self {
            CmdId::Processed => 0,
            CmdId::SecretRequest => 3,
            CmdId::Unlock => 4,
            CmdId::LockedTransfer => 7,
            CmdId::RevealSecret => 11,
            CmdId::Delivered => 12,
            CmdId::LockExpired => 13,
            CmdId::WithdrawRequest => 15,
            CmdId::WithdrawConfirmation => 16,
            CmdId::WithdrawExpired => 17,
        }
    }

    pub fn value(self) -> (r: u8)
        ensures
            r == self.spec_value(),
    {
        match self {
            CmdId::Processed => 0,
            CmdId::SecretRequest => 3,
            CmdId::Unlock => 4,
            CmdId::LockedTransfer => 7,
            CmdId::RevealSecret => 11,
            CmdId::Delivered => 12,
            CmdId::LockExpired => 13,
            CmdId::WithdrawRequest => 15,
            CmdId::WithdrawConfirmation => 16,
            CmdId::WithdrawExpired => 17,
        }
    }
}

/// `(chain_id, token_network_address, channel_identifier)`: the globally
/// unique name of a channel.
#[derive(Clone, Copy, PartialEq, Eq, Structural, Debug, Hash)]
pub struct CanonicalIdentifier {
    pub chain_identifier: ChainID,
    pub token_network_address: Address,
    pub channel_identifier: U256,
}

/// A 64-bit value packed into a 32-byte big-endian word.
pub open spec fn spec_u64_word(x: u64) -> Seq<u8> {
    spec_u256_be_bytes(U256 { n3: 0, n2: 0, n1: 0, n0: x })
}

/// An 8-bit value packed into a 32-byte big-endian word.
pub open spec fn spec_u8_word(x: u8) -> Seq<u8> {
    spec_u64_word(x as u64)
}

/// The 65 bytes `r (32) ‖ s (32) ‖ v (1)` of a signature.
pub open spec fn spec_signature_be_bytes(sig: Signature) -> Seq<u8> {
    spec_h256_be_bytes(sig.r) + spec_h256_be_bytes(sig.s) + seq![sig.v]
}

/// Appends a 64-bit value as a 32-byte big-endian word.
pub fn push_u64_word(out: &mut Vec<u8>, x: u64)
    ensures
        final(out)@ == old(out)@ + spec_u64_word(x),
{
    push_u256_be(out, U256 { n3: 0, n2: 0, n1: 0, n0: x });
}

/// Appends an 8-bit value as a 32-byte big-endian word.
pub fn push_u8_word(out: &mut Vec<u8>, x: u8)
    ensures
        final(out)@ == old(out)@ + spec_u8_word(x),
{
    push_u64_word(out, x as u64);
}

/// Appends the 65 signature bytes.
pub fn push_signature(out: &mut Vec<u8>, sig: Signature)
    ensures
        final(out)@ == old(out)@ + spec_signature_be_bytes(sig),
{
    push_h256_be(out, sig.r);
    push_h256_be(out, sig.s);
    out.push(sig.v);
    proof {
        assert(out@ =~= old(out)@ + spec_signature_be_bytes(sig));
    }
}

/// The payload bound by a balance-proof signature:
/// `token_network_address (20) ‖ chain_id (32) ‖ msg_type (32) ‖
/// channel_id (32) ‖ balance_hash (32) ‖ nonce (32) ‖ additional_hash (32)`.
pub open spec fn spec_pack_balance_proof(
    nonce: Nonce,
    balance_hash: BalanceHash,
    additional_hash: MessageHash,
    canonical_identifier: CanonicalIdentifier,
    msg_type: MessageTypeId,
) -> Seq<u8> {
    spec_address_be_bytes(canonical_identifier.token_network_address) + spec_u64_word(
        canonical_identifier.chain_identifier.spec_id(),
    ) + spec_u8_word(msg_type.spec_value()) + spec_u256_be_bytes(
        canonical_identifier.channel_identifier,
    ) + spec_h256_be_bytes(balance_hash) + spec_u256_be_bytes(nonce) + spec_h256_be_bytes(
        additional_hash,
    )
}

/// Packs the payload bound by a balance-proof signature.
pub fn pack_balance_proof(
    nonce: Nonce,
    balance_hash: BalanceHash,
    additional_hash: MessageHash,
    canonical_identifier: CanonicalIdentifier,
    msg_type: MessageTypeId,
) -> (r: Vec<u8>)
    ensures
        r@ == spec_pack_balance_proof(
            nonce,
            balance_hash,
            additional_hash,
            canonical_identifier,
            msg_type,
        ),
{
    let mut b: Vec<u8> = Vec::new();
    push_address_be(&mut b, canonical_identifier.token_network_address);
    push_u64_word(&mut b, canonical_identifier.chain_identifier.id());
    push_u8_word(&mut b, msg_type.value());
    push_u256_be(&mut b, canonical_identifier.channel_identifier);
    push_h256_be(&mut b, balance_hash);
    push_u256_be(&mut b, nonce);
    push_h256_be(&mut b, additional_hash);
    proof {
        assert(b@ =~= spec_pack_balance_proof(
            nonce,
            balance_hash,
            additional_hash,
            canonical_identifier,
            msg_type,
        ));
    }
    b
}

/// The balance-proof payload followed by the partner's 65 signature bytes,
/// as submitted with a non-closing balance-proof update.
pub open spec fn spec_pack_balance_proof_message(
    nonce: Nonce,
    balance_hash: BalanceHash,
    additional_hash: MessageHash,
    canonical_identifier: CanonicalIdentifier,
    msg_type: MessageTypeId,
    partner_signature: Signature,
) -> Seq<u8> {
    spec_pack_balance_proof(nonce, balance_hash, additional_hash, canonical_identifier, msg_type)
        + spec_signature_be_bytes(partner_signature)
}

/// Packs the balance-proof payload together with the partner's signature.
pub fn pack_balance_proof_message(
    nonce: Nonce,
    balance_hash: BalanceHash,
    additional_hash: MessageHash,
    canonical_identifier: CanonicalIdentifier,
    msg_type: MessageTypeId,
    partner_signature: Signature,
) -> (r: Vec<u8>)
    ensures
        r@ == spec_pack_balance_proof_message(
            nonce,
            balance_hash,
            additional_hash,
            canonical_identifier,
            msg_type,
            partner_signature,
        ),
{
    let mut b = pack_balance_proof(
        nonce,
        balance_hash,
        additional_hash,
        canonical_identifier,
        msg_type,
    );
    push_signature(&mut b, partner_signature);
    b
}

/// The payload bound by a withdraw signature:
/// `token_network_address (20) ‖ chain_id (32) ‖ channel_id (32) ‖
/// participant (20) ‖ total_withdraw (32) ‖ expiration (32)`.
pub open spec fn spec_pack_withdraw(
    canonical_identifier: CanonicalIdentifier,
    participant: Address,
    total_withdraw: TokenAmount,
    expiration_block: BlockExpiration,
) -> Seq<u8> {
    spec_address_be_bytes(canonical_identifier.token_network_address) + spec_u64_word(
        canonical_identifier.chain_identifier.spec_id(),
    ) + spec_u256_be_bytes(canonical_identifier.channel_identifier) + spec_address_be_bytes(
        participant,
    ) + spec_u256_be_bytes(total_withdraw) + spec_u64_word(expiration_block)
}

/// Packs the payload bound by a withdraw signature.
pub fn pack_withdraw(
    canonical_identifier: CanonicalIdentifier,
    participant: Address,
    total_withdraw: TokenAmount,
    expiration_block: BlockExpiration,
) -> (r: Vec<u8>)
    ensures
        r@ == spec_pack_withdraw(
            canonical_identifier,
            participant,
            total_withdraw,
            expiration_block,
        ),
{
    let mut b: Vec<u8> = Vec::new();
    push_address_be(&mut b, canonical_identifier.token_network_address);
    push_u64_word(&mut b, canonical_identifier.chain_identifier.id());
    push_u256_be(&mut b, canonical_identifier.channel_identifier);
    push_address_be(&mut b, participant);
    push_u256_be(&mut b, total_withdraw);
    push_u64_word(&mut b, expiration_block);
    proof {
        assert(b@ =~= spec_pack_withdraw(
            canonical_identifier,
            participant,
            total_withdraw,
            expiration_block,
        ));
    }
    b
}

/// The payload bound by a monitoring-reward signature.
pub open spec fn spec_pack_reward_proof(
    monitoring_service_contract_address: Address,
    chain_id: ChainID,
    token_network_address: Address,
    non_closing_participant: Address,
    non_closing_signature: Signature,
    reward_amount: TokenAmount,
) -> Seq<u8> {
    spec_address_be_bytes(monitoring_service_contract_address) + spec_u64_word(chain_id.spec_id())
        + spec_u8_word(MessageTypeId::MSReward.spec_value()) + spec_address_be_bytes(
        token_network_address,
    ) + spec_address_be_bytes(non_closing_participant) + spec_signature_be_bytes(
        non_closing_signature,
    ) + spec_u256_be_bytes(reward_amount)
}

/// Packs the payload bound by a monitoring-reward signature.
pub fn pack_reward_proof(
    monitoring_service_contract_address: Address,
    chain_id: ChainID,
    token_network_address: Address,
    non_closing_participant: Address,
    non_closing_signature: Signature,
    reward_amount: TokenAmount,
) -> (r: Vec<u8>)
    ensures
        r@ == spec_pack_reward_proof(
            monitoring_service_contract_address,
            chain_id,
            token_network_address,
            non_closing_participant,
            non_closing_signature,
            reward_amount,
        ),
{
    let mut b: Vec<u8> = Vec::new();
    push_address_be(&mut b, monitoring_service_contract_address);
    push_u64_word(&mut b, chain_id.id());
    push_u8_word(&mut b, MessageTypeId::MSReward.value());
    push_address_be(&mut b, token_network_address);
    push_address_be(&mut b, non_closing_participant);
    push_signature(&mut b, non_closing_signature);
    push_u256_be(&mut b, reward_amount);
    proof {
        assert(b@ =~= spec_pack_reward_proof(
            monitoring_service_contract_address,
            chain_id,
            token_network_address,
            non_closing_participant,
            non_closing_signature,
            reward_amount,
        ));
    }
    b
}

/// The bytes signed by a `Processed` or `Delivered` acknowledgement:
/// `cmd_id (1) ‖ 0 0 0 ‖ message_identifier (8)`.
pub open spec fn spec_pack_acknowledgement(cmd: CmdId, message_identifier: MessageIdentifier) -> Seq<
    u8,
> {
    seq![cmd.spec_value(), 0u8, 0u8, 0u8] + spec_u64_be_bytes(message_identifier)
}

/// Packs the bytes signed by a `Processed` or `Delivered` acknowledgement.
pub fn pack_acknowledgement(cmd: CmdId, message_identifier: MessageIdentifier) -> (r: Vec<u8>)
    ensures
        r@ == spec_pack_acknowledgement(cmd, message_identifier),
{
    let mut b: Vec<u8> = Vec::new();
    b.push(cmd.value());
    b.push(0u8);
    b.push(0u8);
    b.push(0u8);
    push_u64_be(&mut b, message_identifier);
    proof {
        assert(b@ =~= spec_pack_acknowledgement(cmd, message_identifier));
    }
    b
}

/// The bytes signed by a `SecretRequest`:
/// `cmd_id (1) ‖ 0 0 0 ‖ message_identifier (8) ‖ payment_identifier (8) ‖
/// secrethash (32) ‖ amount (32) ‖ expiration (32)`.
pub open spec fn spec_pack_secret_request(
    message_identifier: MessageIdentifier,
    payment_identifier: PaymentIdentifier,
    secrethash: SecretHash,
    amount: TokenAmount,
    expiration: BlockExpiration,
) -> Seq<u8> {
    seq![CmdId::SecretRequest.spec_value(), 0u8, 0u8, 0u8] + spec_u64_be_bytes(message_identifier)
        + spec_u64_be_bytes(payment_identifier) + spec_h256_be_bytes(secrethash)
        + spec_u256_be_bytes(amount) + spec_u64_word(expiration)
}

/// Packs the bytes signed by a `SecretRequest`.
#[verifier::rlimit(50)]
pub fn pack_secret_request(
    message_identifier: MessageIdentifier,
    payment_identifier: PaymentIdentifier,
    secrethash: SecretHash,
    amount: TokenAmount,
    expiration: BlockExpiration,
) -> (r: Vec<u8>)
    ensures
        r@ == spec_pack_secret_request(
            message_identifier,
            payment_identifier,
            secrethash,
            amount,
            expiration,
        ),
{
    let mut b: Vec<u8> = Vec::new();
    b.push(CmdId::SecretRequest.value());
    b.push(0u8);
    b.push(0u8);
    b.push(0u8);
    push_u64_be(&mut b, message_identifier);
    push_u64_be(&mut b, payment_identifier);
    push_h256_be(&mut b, secrethash);
    push_u256_be(&mut b, amount);
    push_u64_word(&mut b, expiration);
    proof {
        assert(b@ =~= spec_pack_secret_request(
            message_identifier,
            payment_identifier,
            secrethash,
            amount,
            expiration,
        ));
    }
    b
}

/// The bytes signed by a `SecretReveal`:
/// `cmd_id (1) ‖ 0 0 0 ‖ message_identifier (8) ‖ secret (32)`.
pub open spec fn spec_pack_secret_reveal(
    message_identifier: MessageIdentifier,
    secret: Secret,
) -> Seq<u8> {
    seq![CmdId::RevealSecret.spec_value(), 0u8, 0u8, 0u8] + spec_u64_be_bytes(message_identifier)
        + spec_h256_be_bytes(secret)
}

/// Packs the bytes signed by a `SecretReveal`.
pub fn pack_secret_reveal(message_identifier: MessageIdentifier, secret: Secret) -> (r: Vec<u8>)
    ensures
        r@ == spec_pack_secret_reveal(message_identifier, secret),
{
    let mut b: Vec<u8> = Vec::new();
    b.push(CmdId::RevealSecret.value());
    b.push(0u8);
    b.push(0u8);
    b.push(0u8);
    push_u64_be(&mut b, message_identifier);
    push_h256_be(&mut b, secret);
    proof {
        assert(b@ =~= spec_pack_secret_reveal(message_identifier, secret));
    }
    b
}

/// The replay-protected `v` of a signature over a transaction: 35 plus twice
/// the chain identifier plus the recovery bit.
pub fn transaction_v(recovery_id: u8, chain_id: ChainID) -> (r: u64)
    requires
        recovery_id <= 1,
    ensures
        r == 35 + 2 * chain_id.spec_id() + recovery_id,
{
    35 + 2 * chain_id.id() + recovery_id as u64
}

/// The `v` of a signature over a message hash, normalised to 27 or 28.
pub fn message_v(recovery_id: u8) -> (r: u8)
    requires
        recovery_id <= 1,
    ensures
        r == 27 + recovery_id,
{
    27 + recovery_id
}

} // verus!
