//! Reducer inputs: chain-sourced state changes (decoded log events and block
//! progress), peer-sourced state changes (signed off-chain messages), and
//! local actions.

use vstd::prelude::*;

use crate::event::{AddressMetadata, SendSecretReveal};
use crate::packing::CanonicalIdentifier;
use crate::state::{
    BalanceProofState, ChannelState, LockedTransferState, RouteState, TokenNetworkRegistryState,
    TokenNetworkState, TransactionChannelDeposit, TransferDescriptionWithSecretState,
    MediationFeeConfig,
};
use crate::types::{
    Address, BlockExpiration, BlockHash, BlockNumber, ChainID, GasLimit, Locksroot,
    MessageIdentifier, Nonce, PaymentIdentifier, RevealTimeout, Secret, SecretHash, Signature,
    TokenAmount, TransactionHash,
};

verus! {

#[derive(Clone, Copy, PartialEq, Eq, Structural, Debug)]
pub struct Block {
    pub block_number: BlockNumber,
    pub block_hash: BlockHash,
    pub gas_limit: GasLimit,
}

#[derive(Clone, Copy, PartialEq, Eq, Structural, Debug)]
pub struct ActionInitChain {
    pub chain_id: ChainID,
    pub block_number: BlockNumber,
    pub block_hash: BlockHash,
    pub our_address: Address,
}

#[derive(Clone, Copy, PartialEq, Eq, Structural, Debug)]
pub struct ActionChannelSetRevealTimeout {
    pub canonical_identifier: CanonicalIdentifier,
    pub reveal_timeout: RevealTimeout,
}

#[derive(Clone, PartialEq, Eq, Debug)]
pub struct ActionChannelWithdraw {
    pub canonical_identifier: CanonicalIdentifier,
    pub total_withdraw: TokenAmount,
    pub recipient_metadata: Option<AddressMetadata>,
}

#[derive(Clone, PartialEq, Eq, Debug)]
pub struct ActionInitInitiator {
    pub transfer: TransferDescriptionWithSecretState,
    pub routes: Vec<RouteState>,
}

#[derive(Clone, PartialEq, Eq, Debug)]
pub struct ActionTransferReroute {
    pub transfer: LockedTransferState,
    pub secret: Secret,
    pub secrethash: SecretHash,
}

#[derive(Clone, Copy, PartialEq, Eq, Structural, Debug)]
pub struct ActionCancelPayment {
    pub payment_identifier: PaymentIdentifier,
}

#[derive(Clone, PartialEq, Eq, Debug)]
pub struct ReceiveTransferCancelRoute {
    pub transfer: LockedTransferState,
}

#[derive(Clone, PartialEq, Eq, Debug)]
pub struct ReceiveSecretRequest {
    pub sender: Address,
    pub payment_identifier: PaymentIdentifier,
    pub amount: TokenAmount,
    pub expiration: BlockExpiration,
    pub secrethash: SecretHash,
    pub revealsecret: Option<SendSecretReveal>,
}

#[derive(Clone, Copy, PartialEq, Eq, Structural, Debug)]
pub struct ReceiveSecretReveal {
    pub sender: Address,
    pub secret: Secret,
    pub secrethash: SecretHash,
    pub message_identifier: MessageIdentifier,
}

#[derive(Clone, Copy, PartialEq, Eq, Structural, Debug)]
pub struct ReceiveLockExpired {
    pub sender: Address,
    pub secrethash: SecretHash,
    pub message_identifier: MessageIdentifier,
    pub balance_proof: BalanceProofState,
}

#[derive(Clone, PartialEq, Eq, Debug)]
pub struct ReceiveLockedTransfer {
    pub sender: Address,
    pub transfer: LockedTransferState,
}

#[derive(Clone, Copy, PartialEq, Eq, Structural, Debug)]
pub struct ReceiveUnlock {
    pub sender: Address,
    pub message_identifier: MessageIdentifier,
    pub payment_identifier: PaymentIdentifier,
    pub secret: Secret,
    pub secrethash: SecretHash,
    pub balance_proof: BalanceProofState,
}

#[derive(Clone, Copy, PartialEq, Eq, Structural, Debug)]
pub struct ReceiveWithdrawRequest {
    pub canonical_identifier: CanonicalIdentifier,
    pub message_identifier: MessageIdentifier,
    pub sender: Address,
    pub participant: Address,
    pub total_withdraw: TokenAmount,
    pub expiration: BlockExpiration,
    pub nonce: Nonce,
    pub signature: Signature,
}

#[derive(Clone, Copy, PartialEq, Eq, Structural, Debug)]
pub struct ReceiveWithdrawConfirmation {
    pub canonical_identifier: CanonicalIdentifier,
    pub message_identifier: MessageIdentifier,
    pub sender: Address,
    pub participant: Address,
    pub total_withdraw: TokenAmount,
    pub expiration: BlockExpiration,
    pub nonce: Nonce,
    pub signature: Signature,
}

#[derive(Clone, Copy, PartialEq, Eq, Structural, Debug)]
pub struct ReceiveWithdrawExpired {
    pub canonical_identifier: CanonicalIdentifier,
    pub message_identifier: MessageIdentifier,
    pub sender: Address,
    pub participant: Address,
    pub total_withdraw: TokenAmount,
    pub expiration: BlockExpiration,
    pub nonce: Nonce,
}

#[derive(Clone, Copy, PartialEq, Eq, Structural, Debug)]
pub struct ReceiveProcessed {
    pub sender: Address,
    pub message_identifier: MessageIdentifier,
}

#[derive(Clone, Copy, PartialEq, Eq, Structural, Debug)]
pub struct ReceiveDelivered {
    pub sender: Address,
    pub delivered_message_identifier: MessageIdentifier,
}

#[derive(Clone, PartialEq, Eq, Debug)]
pub struct ContractReceiveTokenNetworkRegistry {
    pub transaction_hash: Option<TransactionHash>,
    pub token_network_registry: TokenNetworkRegistryState,
    pub block_number: BlockNumber,
    pub block_hash: BlockHash,
}

#[derive(Clone, PartialEq, Eq, Debug)]
pub struct ContractReceiveTokenNetworkCreated {
    pub transaction_hash: Option<TransactionHash>,
    pub token_network_registry_address: Address,
    pub token_network: TokenNetworkState,
    pub block_number: BlockNumber,
    pub block_hash: BlockHash,
}

#[derive(Clone, PartialEq, Eq, Debug)]
pub struct ContractReceiveChannelOpened {
    pub transaction_hash: Option<TransactionHash>,
    pub block_number: BlockNumber,
    pub block_hash: BlockHash,
    pub channel_state: ChannelState,
}

#[derive(Clone, Copy, PartialEq, Eq, Structural, Debug)]
pub struct ContractReceiveChannelClosed {
    pub transaction_hash: Option<TransactionHash>,
    pub block_number: BlockNumber,
    pub block_hash: BlockHash,
    pub transaction_from: Address,
    pub canonical_identifier: CanonicalIdentifier,
}

#[derive(Clone, Copy, PartialEq, Eq, Structural, Debug)]
pub struct ContractReceiveChannelSettled {
    pub transaction_hash: Option<TransactionHash>,
    pub block_number: BlockNumber,
    pub block_hash: BlockHash,
    pub canonical_identifier: CanonicalIdentifier,
    pub our_onchain_locksroot: Locksroot,
    pub partner_onchain_locksroot: Locksroot,
}

#[derive(Clone, PartialEq, Eq, Debug)]
pub struct ContractReceiveChannelDeposit {
    pub transaction_hash: Option<TransactionHash>,
    pub block_number: BlockNumber,
    pub block_hash: BlockHash,
    pub canonical_identifier: CanonicalIdentifier,
    pub deposit_transaction: TransactionChannelDeposit,
    pub fee_config: MediationFeeConfig,
}

#[derive(Clone, PartialEq, Eq, Debug)]
pub struct ContractReceiveChannelWithdraw {
    pub transaction_hash: Option<TransactionHash>,
    pub block_number: BlockNumber,
    pub block_hash: BlockHash,
    pub canonical_identifier: CanonicalIdentifier,
    pub participant: Address,
    pub total_withdraw: TokenAmount,
    pub fee_config: MediationFeeConfig,
}

#[derive(Clone, Copy, PartialEq, Eq, Structural, Debug)]
pub struct ContractReceiveChannelBatchUnlock {
    pub transaction_hash: Option<TransactionHash>,
    pub block_number: BlockNumber,
    pub block_hash: BlockHash,
    pub canonical_identifier: CanonicalIdentifier,
    pub receiver: Address,
    pub sender: Address,
    pub locksroot: Locksroot,
    pub unlocked_amount: TokenAmount,
    pub returned_tokens: TokenAmount,
}

#[derive(Clone, Copy, PartialEq, Eq, Structural, Debug)]
pub struct ContractReceiveSecretReveal {
    pub transaction_hash: Option<TransactionHash>,
    pub block_number: BlockNumber,
    pub block_hash: BlockHash,
    pub secret_registry_address: Address,
    pub secrethash: SecretHash,
    pub secret: Secret,
}

#[derive(Clone, Copy, PartialEq, Eq, Structural, Debug)]
pub struct ContractReceiveRouteNew {
    pub transaction_hash: Option<TransactionHash>,
    pub block_number: BlockNumber,
    pub block_hash: BlockHash,
    pub canonical_identifier: CanonicalIdentifier,
    pub participant1: Address,
    pub participant2: Address,
}

#[derive(Clone, Copy, PartialEq, Eq, Structural, Debug)]
pub struct ContractReceiveUpdateTransfer {
    pub transaction_hash: Option<TransactionHash>,
    pub block_number: BlockNumber,
    pub block_hash: BlockHash,
    pub canonical_identifier: CanonicalIdentifier,
    pub nonce: Nonce,
}

/// Every input the reducer accepts; the sole means of changing the state.
#[derive(Clone, PartialEq, Eq, Debug)]
pub enum StateChange {
    Block(Block),
    ActionInitChain(ActionInitChain),
    ActionInitInitiator(ActionInitInitiator),
    ActionChannelSetRevealTimeout(ActionChannelSetRevealTimeout),
    ActionChannelWithdraw(ActionChannelWithdraw),
    ActionTransferReroute(ActionTransferReroute),
    ActionCancelPayment(ActionCancelPayment),
    ReceiveTransferCancelRoute(ReceiveTransferCancelRoute),
    ReceiveSecretReveal(ReceiveSecretReveal),
    ReceiveSecretRequest(ReceiveSecretRequest),
    ReceiveLockExpired(ReceiveLockExpired),
    ReceiveLockedTransfer(ReceiveLockedTransfer),
    ReceiveUnlock(ReceiveUnlock),
    ReceiveWithdrawRequest(ReceiveWithdrawRequest),
    ReceiveWithdrawConfirmation(ReceiveWithdrawConfirmation),
    ReceiveWithdrawExpired(ReceiveWithdrawExpired),
    ReceiveProcessed(ReceiveProcessed),
    ReceiveDelivered(ReceiveDelivered),
    ContractReceiveTokenNetworkRegistry(ContractReceiveTokenNetworkRegistry),
    ContractReceiveTokenNetworkCreated(ContractReceiveTokenNetworkCreated),
    ContractReceiveChannelOpened(ContractReceiveChannelOpened),
    ContractReceiveChannelClosed(ContractReceiveChannelClosed),
    ContractReceiveChannelSettled(ContractReceiveChannelSettled),
    ContractReceiveChannelDeposit(ContractReceiveChannelDeposit),
    ContractReceiveChannelWithdraw(ContractReceiveChannelWithdraw),
    ContractReceiveChannelBatchUnlock(ContractReceiveChannelBatchUnlock),
    ContractReceiveSecretReveal(ContractReceiveSecretReveal),
    ContractReceiveRouteNew(ContractReceiveRouteNew),
    ContractReceiveUpdateTransfer(ContractReceiveUpdateTransfer),
}

} // verus!
