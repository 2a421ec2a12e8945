//! Reducer outputs: instructions to the outside world (contract calls to
//! emit, messages to queue and send) and payment-lifecycle notifications.

use vstd::prelude::*;

use crate::packing::CanonicalIdentifier;
use crate::state::{BalanceProofState, QueueIdentifier};
use crate::types::{
    Address, BlockExpiration, BlockHash, Nonce, PaymentIdentifier, RevealTimeout, Secret,
    SecretHash, Signature, TokenAmount, MessageIdentifier,
};

verus! {

/// Matrix-level delivery data for a recipient, carried opaquely.
#[derive(PartialEq, Eq, Debug)]
pub struct AddressMetadata {
    pub user_id: String,
    pub displayname: String,
    pub capabilities: String,
}

impl Clone for AddressMetadata {
    fn clone(&self) -> (r: Self)
        ensures
            r == *self,
    {
        AddressMetadata {
            user_id: self.user_id.clone(),
            displayname: self.displayname.clone(),
            capabilities: self.capabilities.clone(),
        }
    }
}

/// Why the reducer rejected an input; carried in `ErrorInvalid*` events.
#[derive(Clone, Copy, PartialEq, Eq, Structural, Debug)]
pub enum ErrorReason {
    ChannelNotFound,
    ChannelNotOpened,
    NonceMismatch,
    NonceOverflow,
    InsufficientBalance,
    LocksrootMismatch,
    BalanceHashMismatch,
    AmountMismatch,
    TransferredAmountMismatch,
    LockedAmountMismatch,
    DuplicateLock,
    LockNotFound,
    NotExpiredYet,
    ExpirationMismatch,
    WithdrawOverdraw,
    WithdrawNotFound,
    SenderMismatch,
    LowerThanPrevious,
    SecretMismatch,
    NoRouteAvailable,
    PaymentCancelled,
    UnknownSecret,
    TimeoutsInvalid,
}

/// What every outbound message event carries: recipient, its delivery
/// metadata, the channel, and the issued message identifier.
#[derive(PartialEq, Eq, Debug)]
pub struct SendMessageEventInner {
    pub recipient: Address,
    pub recipient_metadata: Option<AddressMetadata>,
    pub canonical_identifier: CanonicalIdentifier,
    pub message_identifier: MessageIdentifier,
}

impl Clone for SendMessageEventInner {
    fn clone(&self) -> (r: Self)
        ensures
            r == *self,
    {
        SendMessageEventInner {
            recipient: self.recipient,
            recipient_metadata: match &self.recipient_metadata {
                Some(m) => Some(m.clone()),
                None => None,
            },
            canonical_identifier: self.canonical_identifier,
            message_identifier: self.message_identifier,
        }
    }
}

impl SendMessageEventInner {
    /// The queue this event is retried on.
    pub open spec fn spec_queue_identifier(self) -> QueueIdentifier {
        QueueIdentifier {
            recipient: self.recipient,
            canonical_identifier: self.canonical_identifier,
        }
    }

    pub fn queue_identifier(&self) -> (r: QueueIdentifier)
        ensures
            r == self.spec_queue_identifier(),
    {
        QueueIdentifier {
            recipient: self.recipient,
            canonical_identifier: self.canonical_identifier,
        }
    }
}

#[derive(PartialEq, Eq, Debug)]
pub struct SendWithdrawRequest {
    pub inner: SendMessageEventInner,
    pub participant: Address,
    pub total_withdraw: TokenAmount,
    pub expiration: BlockExpiration,
    pub nonce: Nonce,
}

impl Clone for SendWithdrawRequest {
    fn clone(&self) -> (r: Self)
        ensures
            r == *self,
    {
        SendWithdrawRequest {
            inner: self.inner.clone(),
            participant: self.participant,
            total_withdraw: self.total_withdraw,
            expiration: self.expiration,
            nonce: self.nonce,
        }
    }
}


#[derive(PartialEq, Eq, Debug)]
pub struct SendWithdrawConfirmation {
    pub inner: SendMessageEventInner,
    pub participant: Address,
    pub total_withdraw: TokenAmount,
    pub nonce: Nonce,
    pub expiration: BlockExpiration,
}

impl Clone for SendWithdrawConfirmation {
    fn clone(&self) -> (r: Self)
        ensures
            r == *self,
    {
        SendWithdrawConfirmation {
            inner: self.inner.clone(),
            participant: self.participant,
            total_withdraw: self.total_withdraw,
            nonce: self.nonce,
            expiration: self.expiration,
        }
    }
}


#[derive(PartialEq, Eq, Debug)]
pub struct SendWithdrawExpired {
    pub inner: SendMessageEventInner,
    pub participant: Address,
    pub total_withdraw: TokenAmount,
    pub nonce: Nonce,
    pub expiration: BlockExpiration,
}

impl Clone for SendWithdrawExpired {
    fn clone(&self) -> (r: Self)
        ensures
            r == *self,
    {
        SendWithdrawExpired {
            inner: self.inner.clone(),
            participant: self.participant,
            total_withdraw: self.total_withdraw,
            nonce: self.nonce,
            expiration: self.expiration,
        }
    }
}


#[derive(PartialEq, Eq, Debug)]
pub struct SendLockedTransfer {
    pub inner: SendMessageEventInner,
    pub transfer: crate::state::LockedTransferState,
}

/// Ghost twin of [`SendLockedTransfer`].
#[verifier::ext_equal]
pub ghost struct SendLockedTransferV {
    pub inner: SendMessageEventInner,
    pub transfer: crate::state::LockedTransferStateV,
}

impl View for SendLockedTransfer {
    type V = SendLockedTransferV;

    open spec fn view(&self) -> SendLockedTransferV {
        SendLockedTransferV { inner: self.inner, transfer: self.transfer@ }
    }
}

impl Clone for SendLockedTransfer {
    fn clone(&self) -> (r: Self)
        ensures
            r@ == self@,
    {
        SendLockedTransfer { inner: self.inner.clone(), transfer: self.transfer.clone() }
    }
}

#[derive(PartialEq, Eq, Debug)]
pub struct SendSecretRequest {
    pub inner: SendMessageEventInner,
    pub payment_identifier: PaymentIdentifier,
    pub amount: TokenAmount,
    pub expiration: BlockExpiration,
    pub secrethash: SecretHash,
}

impl Clone for SendSecretRequest {
    fn clone(&self) -> (r: Self)
        ensures
            r == *self,
    {
        SendSecretRequest {
            inner: self.inner.clone(),
            payment_identifier: self.payment_identifier,
            amount: self.amount,
            expiration: self.expiration,
            secrethash: self.secrethash,
        }
    }
}


#[derive(PartialEq, Eq, Debug)]
pub struct SendSecretReveal {
    pub inner: SendMessageEventInner,
    pub secret: Secret,
    pub secrethash: SecretHash,
}

impl Clone for SendSecretReveal {
    fn clone(&self) -> (r: Self)
        ensures
            r == *self,
    {
        SendSecretReveal {
            inner: self.inner.clone(),
            secret: self.secret,
            secrethash: self.secrethash,
        }
    }
}


#[derive(PartialEq, Eq, Debug)]
pub struct SendLockExpired {
    pub inner: SendMessageEventInner,
    pub balance_proof: BalanceProofState,
    pub secrethash: SecretHash,
}

impl Clone for SendLockExpired {
    fn clone(&self) -> (r: Self)
        ensures
            r == *self,
    {
        SendLockExpired {
            inner: self.inner.clone(),
            balance_proof: self.balance_proof,
            secrethash: self.secrethash,
        }
    }
}


#[derive(PartialEq, Eq, Debug)]
pub struct SendUnlock {
    pub inner: SendMessageEventInner,
    pub payment_identifier: PaymentIdentifier,
    pub token_address: Address,
    pub balance_proof: BalanceProofState,
    pub secret: Secret,
    pub secrethash: SecretHash,
}

impl Clone for SendUnlock {
    fn clone(&self) -> (r: Self)
        ensures
            r == *self,
    {
        SendUnlock {
            inner: self.inner.clone(),
            payment_identifier: self.payment_identifier,
            token_address: self.token_address,
            balance_proof: self.balance_proof,
            secret: self.secret,
            secrethash: self.secrethash,
        }
    }
}


#[derive(PartialEq, Eq, Debug)]
pub struct SendProcessed {
    pub inner: SendMessageEventInner,
}

impl Clone for SendProcessed {
    fn clone(&self) -> (r: Self)
        ensures
            r == *self,
    {
        SendProcessed {
            inner: self.inner.clone(),
        }
    }
}


#[derive(Clone, Copy, PartialEq, Eq, Structural, Debug)]
pub struct PaymentReceivedSuccess {
    pub token_network_registry_address: Address,
    pub token_network_address: Address,
    pub identifier: PaymentIdentifier,
    pub amount: TokenAmount,
    pub initiator: Address,
}

#[derive(Clone, PartialEq, Eq, Debug)]
pub struct PaymentSentSuccess {
    pub token_network_registry_address: Address,
    pub token_network_address: Address,
    pub identifier: PaymentIdentifier,
    pub amount: TokenAmount,
    pub target: Address,
    pub secret: Secret,
    pub route: Vec<Address>,
}

/// Ghost twin of [`PaymentSentSuccess`].
#[verifier::ext_equal]
pub ghost struct PaymentSentSuccessV {
    pub token_network_registry_address: Address,
    pub token_network_address: Address,
    pub identifier: PaymentIdentifier,
    pub amount: TokenAmount,
    pub target: Address,
    pub secret: Secret,
    pub route: Seq<Address>,
}

impl View for PaymentSentSuccess {
    type V = PaymentSentSuccessV;

    open spec fn view(&self) -> PaymentSentSuccessV {
        PaymentSentSuccessV {
            token_network_registry_address: self.token_network_registry_address,
            token_network_address: self.token_network_address,
            identifier: self.identifier,
            amount: self.amount,
            target: self.target,
            secret: self.secret,
            route: self.route@,
        }
    }
}

#[derive(Clone, Copy, PartialEq, Eq, Structural, Debug)]
pub struct UnlockSuccess {
    pub identifier: PaymentIdentifier,
    pub secrethash: SecretHash,
}

#[derive(Clone, Copy, PartialEq, Eq, Structural, Debug)]
pub struct UnlockClaimSuccess {
    pub identifier: PaymentIdentifier,
    pub secrethash: SecretHash,
}

#[derive(Clone, Copy, PartialEq, Eq, Structural, Debug)]
pub struct ContractSendEventInner {
    pub triggered_by_blockhash: BlockHash,
}

#[derive(Clone, Copy, PartialEq, Eq, Structural, Debug)]
pub struct ContractSendChannelClose {
    pub inner: ContractSendEventInner,
    pub canonical_identifier: CanonicalIdentifier,
    pub balance_proof: Option<BalanceProofState>,
}

#[derive(Clone, Copy, PartialEq, Eq, Structural, Debug)]
pub struct ContractSendChannelWithdraw {
    pub inner: ContractSendEventInner,
    pub canonical_identifier: CanonicalIdentifier,
    pub total_withdraw: TokenAmount,
    pub expiration: BlockExpiration,
    pub partner_signature: Signature,
}

#[derive(Clone, Copy, PartialEq, Eq, Structural, Debug)]
pub struct ContractSendChannelSettle {
    pub inner: ContractSendEventInner,
    pub canonical_identifier: CanonicalIdentifier,
}

#[derive(Clone, Copy, PartialEq, Eq, Structural, Debug)]
pub struct ContractSendChannelUpdateTransfer {
    pub inner: ContractSendEventInner,
    pub expiration: BlockExpiration,
    pub balance_proof: BalanceProofState,
}

#[derive(Clone, Copy, PartialEq, Eq, Structural, Debug)]
pub struct ContractSendChannelBatchUnlock {
    pub inner: ContractSendEventInner,
    pub canonical_identifier: CanonicalIdentifier,
    pub sender: Address,
}

#[derive(Clone, Copy, PartialEq, Eq, Structural, Debug)]
pub struct ContractSendSecretReveal {
    pub inner: ContractSendEventInner,
    pub expiration: BlockExpiration,
    pub secret: Secret,
}

#[derive(Clone, Copy, PartialEq, Eq, Structural, Debug)]
pub struct ErrorInvalidActionWithdraw {
    pub attemped_withdraw: TokenAmount,
    pub reason: ErrorReason,
}

#[derive(Clone, Copy, PartialEq, Eq, Structural, Debug)]
pub struct ErrorInvalidActionSetRevealTimeout {
    pub reveal_timeout: RevealTimeout,
    pub reason: ErrorReason,
}

#[derive(Clone, Copy, PartialEq, Eq, Structural, Debug)]
pub struct ErrorPaymentSentFailed {
    pub token_network_registry_address: Address,
    pub token_network_address: Address,
    pub identifier: PaymentIdentifier,
    pub target: Address,
    pub reason: ErrorReason,
}

#[derive(Clone, Copy, PartialEq, Eq, Structural, Debug)]
pub struct ErrorUnlockFailed {
    pub identifier: PaymentIdentifier,
    pub secrethash: SecretHash,
    pub reason: ErrorReason,
}

#[derive(Clone, PartialEq, Eq, Debug)]
pub struct ErrorRouteFailed {
    pub secrethash: SecretHash,
    pub route: Vec<Address>,
    pub token_network_address: Address,
}

/// Ghost twin of [`ErrorRouteFailed`].
#[verifier::ext_equal]
pub ghost struct ErrorRouteFailedV {
    pub secrethash: SecretHash,
    pub route: Seq<Address>,
    pub token_network_address: Address,
}

impl View for ErrorRouteFailed {
    type V = ErrorRouteFailedV;

    open spec fn view(&self) -> ErrorRouteFailedV {
        ErrorRouteFailedV {
            secrethash: self.secrethash,
            route: self.route@,
            token_network_address: self.token_network_address,
        }
    }
}

#[derive(Clone, Copy, PartialEq, Eq, Structural, Debug)]
pub struct ErrorInvalidSecretRequest {
    pub payment_identifier: PaymentIdentifier,
    pub intended_amount: TokenAmount,
    pub actual_amount: TokenAmount,
}

#[derive(Clone, Copy, PartialEq, Eq, Structural, Debug)]
pub struct ErrorInvalidReceivedLockedTransfer {
    pub payment_identifier: PaymentIdentifier,
    pub reason: ErrorReason,
}

#[derive(Clone, Copy, PartialEq, Eq, Structural, Debug)]
pub struct ErrorInvalidReceivedLockExpired {
    pub secrethash: SecretHash,
    pub reason: ErrorReason,
}

#[derive(Clone, Copy, PartialEq, Eq, Structural, Debug)]
pub struct ErrorInvalidReceivedTransferRefund {
    pub payment_identifier: PaymentIdentifier,
    pub reason: ErrorReason,
}

#[derive(Clone, Copy, PartialEq, Eq, Structural, Debug)]
pub struct ErrorInvalidReceivedUnlock {
    pub secrethash: SecretHash,
    pub reason: ErrorReason,
}

#[derive(Clone, Copy, PartialEq, Eq, Structural, Debug)]
pub struct ErrorInvalidReceivedWithdrawRequest {
    pub attemped_withdraw: TokenAmount,
    pub reason: ErrorReason,
}

#[derive(Clone, Copy, PartialEq, Eq, Structural, Debug)]
pub struct ErrorInvalidReceivedWithdrawConfirmation {
    pub attemped_withdraw: TokenAmount,
    pub reason: ErrorReason,
}

#[derive(Clone, Copy, PartialEq, Eq, Structural, Debug)]
pub struct ErrorInvalidReceivedWithdrawExpired {
    pub attemped_withdraw: TokenAmount,
    pub reason: ErrorReason,
}

#[derive(Clone, Copy, PartialEq, Eq, Structural, Debug)]
pub struct ErrorUnlockClaimFailed {
    pub identifier: PaymentIdentifier,
    pub secrethash: SecretHash,
    pub reason: ErrorReason,
}

#[derive(Clone, Copy, PartialEq, Eq, Structural, Debug)]
pub struct ErrorUnexpectedReveal {
    pub secrethash: SecretHash,
    pub reason: ErrorReason,
}

#[derive(Clone, Copy, PartialEq, Eq, Structural, Debug)]
pub struct UpdatedServicesAddresses {
    pub service_address: Address,
    pub validity: u32,
}

/// Everything a reducer call can instruct the outside world to do.
#[derive(PartialEq, Eq, Debug)]
pub enum Event {
    ContractSendChannelClose(ContractSendChannelClose),
    ContractSendChannelWithdraw(ContractSendChannelWithdraw),
    ContractSendChannelSettle(ContractSendChannelSettle),
    ContractSendChannelUpdateTransfer(ContractSendChannelUpdateTransfer),
    ContractSendChannelBatchUnlock(ContractSendChannelBatchUnlock),
    ContractSendSecretReveal(ContractSendSecretReveal),
    PaymentReceivedSuccess(PaymentReceivedSuccess),
    PaymentSentSuccess(PaymentSentSuccess),
    SendWithdrawExpired(SendWithdrawExpired),
    SendWithdrawRequest(SendWithdrawRequest),
    SendWithdrawConfirmation(SendWithdrawConfirmation),
    SendLockedTransfer(SendLockedTransfer),
    SendLockExpired(SendLockExpired),
    SendSecretRequest(SendSecretRequest),
    SendSecretReveal(SendSecretReveal),
    SendUnlock(SendUnlock),
    SendProcessed(SendProcessed),
    UnlockSuccess(UnlockSuccess),
    UnlockClaimSuccess(UnlockClaimSuccess),
    UpdatedServicesAddresses(UpdatedServicesAddresses),
    ErrorUnlockClaimFailed(ErrorUnlockClaimFailed),
    ErrorInvalidActionWithdraw(ErrorInvalidActionWithdraw),
    ErrorInvalidActionSetRevealTimeout(ErrorInvalidActionSetRevealTimeout),
    ErrorPaymentSentFailed(ErrorPaymentSentFailed),
    ErrorRouteFailed(ErrorRouteFailed),
    ErrorUnlockFailed(ErrorUnlockFailed),
    ErrorInvalidSecretRequest(ErrorInvalidSecretRequest),
    ErrorInvalidReceivedLockedTransfer(ErrorInvalidReceivedLockedTransfer),
    ErrorInvalidReceivedLockExpired(ErrorInvalidReceivedLockExpired),
    ErrorInvalidReceivedTransferRefund(ErrorInvalidReceivedTransferRefund),
    ErrorInvalidReceivedUnlock(ErrorInvalidReceivedUnlock),
    ErrorInvalidReceivedWithdrawRequest(ErrorInvalidReceivedWithdrawRequest),
    ErrorInvalidReceivedWithdrawConfirmation(ErrorInvalidReceivedWithdrawConfirmation),
    ErrorInvalidReceivedWithdrawExpired(ErrorInvalidReceivedWithdrawExpired),
    ErrorUnexpectedReveal(ErrorUnexpectedReveal),
}

/// Ghost twin of [`Event`].
#[verifier::ext_equal]
pub ghost enum EventV {
    ContractSendChannelClose(ContractSendChannelClose),
    ContractSendChannelWithdraw(ContractSendChannelWithdraw),
    ContractSendChannelSettle(ContractSendChannelSettle),
    ContractSendChannelUpdateTransfer(ContractSendChannelUpdateTransfer),
    ContractSendChannelBatchUnlock(ContractSendChannelBatchUnlock),
    ContractSendSecretReveal(ContractSendSecretReveal),
    PaymentReceivedSuccess(PaymentReceivedSuccess),
    PaymentSentSuccess(PaymentSentSuccessV),
    SendWithdrawExpired(SendWithdrawExpired),
    SendWithdrawRequest(SendWithdrawRequest),
    SendWithdrawConfirmation(SendWithdrawConfirmation),
    SendLockedTransfer(SendLockedTransferV),
    SendLockExpired(SendLockExpired),
    SendSecretRequest(SendSecretRequest),
    SendSecretReveal(SendSecretReveal),
    SendUnlock(SendUnlock),
    SendProcessed(SendProcessed),
    UnlockSuccess(UnlockSuccess),
    UnlockClaimSuccess(UnlockClaimSuccess),
    UpdatedServicesAddresses(UpdatedServicesAddresses),
    ErrorUnlockClaimFailed(ErrorUnlockClaimFailed),
    ErrorInvalidActionWithdraw(ErrorInvalidActionWithdraw),
    ErrorInvalidActionSetRevealTimeout(ErrorInvalidActionSetRevealTimeout),
    ErrorPaymentSentFailed(ErrorPaymentSentFailed),
    ErrorRouteFailed(ErrorRouteFailedV),
    ErrorUnlockFailed(ErrorUnlockFailed),
    ErrorInvalidSecretRequest(ErrorInvalidSecretRequest),
    ErrorInvalidReceivedLockedTransfer(ErrorInvalidReceivedLockedTransfer),
    ErrorInvalidReceivedLockExpired(ErrorInvalidReceivedLockExpired),
    ErrorInvalidReceivedTransferRefund(ErrorInvalidReceivedTransferRefund),
    ErrorInvalidReceivedUnlock(ErrorInvalidReceivedUnlock),
    ErrorInvalidReceivedWithdrawRequest(ErrorInvalidReceivedWithdrawRequest),
    ErrorInvalidReceivedWithdrawConfirmation(ErrorInvalidReceivedWithdrawConfirmation),
    ErrorInvalidReceivedWithdrawExpired(ErrorInvalidReceivedWithdrawExpired),
    ErrorUnexpectedReveal(ErrorUnexpectedReveal),
}

impl View for Event {
    type V = EventV;

    open spec fn view(&self) -> EventV {
        match *self {
            Event::ContractSendChannelClose(e) => EventV::ContractSendChannelClose(e),
            Event::ContractSendChannelWithdraw(e) => EventV::ContractSendChannelWithdraw(e),
            Event::ContractSendChannelSettle(e) => EventV::ContractSendChannelSettle(e),
            Event::ContractSendChannelUpdateTransfer(e) => EventV::ContractSendChannelUpdateTransfer(e),
            Event::ContractSendChannelBatchUnlock(e) => EventV::ContractSendChannelBatchUnlock(e),
            Event::ContractSendSecretReveal(e) => EventV::ContractSendSecretReveal(e),
            Event::PaymentReceivedSuccess(e) => EventV::PaymentReceivedSuccess(e),
            Event::PaymentSentSuccess(e) => EventV::PaymentSentSuccess(e@),
            Event::SendWithdrawExpired(e) => EventV::SendWithdrawExpired(e),
            Event::SendWithdrawRequest(e) => EventV::SendWithdrawRequest(e),
            Event::SendWithdrawConfirmation(e) => EventV::SendWithdrawConfirmation(e),
            Event::SendLockedTransfer(e) => EventV::SendLockedTransfer(e@),
            Event::SendLockExpired(e) => EventV::SendLockExpired(e),
            Event::SendSecretRequest(e) => EventV::SendSecretRequest(e),
            Event::SendSecretReveal(e) => EventV::SendSecretReveal(e),
            Event::SendUnlock(e) => EventV::SendUnlock(e),
            Event::SendProcessed(e) => EventV::SendProcessed(e),
            Event::UnlockSuccess(e) => EventV::UnlockSuccess(e),
            Event::UnlockClaimSuccess(e) => EventV::UnlockClaimSuccess(e),
            Event::UpdatedServicesAddresses(e) => EventV::UpdatedServicesAddresses(e),
            Event::ErrorUnlockClaimFailed(e) => EventV::ErrorUnlockClaimFailed(e),
            Event::ErrorInvalidActionWithdraw(e) => EventV::ErrorInvalidActionWithdraw(e),
            Event::ErrorInvalidActionSetRevealTimeout(e) => EventV::ErrorInvalidActionSetRevealTimeout(e),
            Event::ErrorPaymentSentFailed(e) => EventV::ErrorPaymentSentFailed(e),
            Event::ErrorRouteFailed(e) => EventV::ErrorRouteFailed(e@),
            Event::ErrorUnlockFailed(e) => EventV::ErrorUnlockFailed(e),
            Event::ErrorInvalidSecretRequest(e) => EventV::ErrorInvalidSecretRequest(e),
            Event::ErrorInvalidReceivedLockedTransfer(e) => EventV::ErrorInvalidReceivedLockedTransfer(e),
            Event::ErrorInvalidReceivedLockExpired(e) => EventV::ErrorInvalidReceivedLockExpired(e),
            Event::ErrorInvalidReceivedTransferRefund(e) => EventV::ErrorInvalidReceivedTransferRefund(e),
            Event::ErrorInvalidReceivedUnlock(e) => EventV::ErrorInvalidReceivedUnlock(e),
            Event::ErrorInvalidReceivedWithdrawRequest(e) => EventV::ErrorInvalidReceivedWithdrawRequest(e),
            Event::ErrorInvalidReceivedWithdrawConfirmation(e) => EventV::ErrorInvalidReceivedWithdrawConfirmation(e),
            Event::ErrorInvalidReceivedWithdrawExpired(e) => EventV::ErrorInvalidReceivedWithdrawExpired(e),
            Event::ErrorUnexpectedReveal(e) => EventV::ErrorUnexpectedReveal(e),
        }
    }
}


/// The message-bearing projection of [`Event`].
#[derive(PartialEq, Eq, Debug)]
pub enum SendMessageEvent {
    SendLockExpired(SendLockExpired),
    SendLockedTransfer(SendLockedTransfer),
    SendSecretReveal(SendSecretReveal),
    SendSecretRequest(SendSecretRequest),
    SendUnlock(SendUnlock),
    SendWithdrawRequest(SendWithdrawRequest),
    SendWithdrawConfirmation(SendWithdrawConfirmation),
    SendWithdrawExpired(SendWithdrawExpired),
    SendProcessed(SendProcessed),
}

/// Ghost twin of [`SendMessageEvent`].
#[verifier::ext_equal]
pub ghost enum SendMessageEventV {
    SendLockExpired(SendLockExpired),
    SendLockedTransfer(SendLockedTransferV),
    SendSecretReveal(SendSecretReveal),
    SendSecretRequest(SendSecretRequest),
    SendUnlock(SendUnlock),
    SendWithdrawRequest(SendWithdrawRequest),
    SendWithdrawConfirmation(SendWithdrawConfirmation),
    SendWithdrawExpired(SendWithdrawExpired),
    SendProcessed(SendProcessed),
}

impl View for SendMessageEvent {
    type V = SendMessageEventV;

    open spec fn view(&self) -> SendMessageEventV {
        match *self {
            SendMessageEvent::SendLockExpired(e) => SendMessageEventV::SendLockExpired(e),
            SendMessageEvent::SendLockedTransfer(e) => SendMessageEventV::SendLockedTransfer(e@),
            SendMessageEvent::SendSecretReveal(e) => SendMessageEventV::SendSecretReveal(e),
            SendMessageEvent::SendSecretRequest(e) => SendMessageEventV::SendSecretRequest(e),
            SendMessageEvent::SendUnlock(e) => SendMessageEventV::SendUnlock(e),
            SendMessageEvent::SendWithdrawRequest(e) => SendMessageEventV::SendWithdrawRequest(e),
            SendMessageEvent::SendWithdrawConfirmation(e) => SendMessageEventV::SendWithdrawConfirmation(e),
            SendMessageEvent::SendWithdrawExpired(e) => SendMessageEventV::SendWithdrawExpired(e),
            SendMessageEvent::SendProcessed(e) => SendMessageEventV::SendProcessed(e),
        }
    }
}


impl Clone for SendMessageEvent {
    fn clone(&self) -> (r: Self)
        ensures
            r@ == self@,
    {
        match self {
            SendMessageEvent::SendLockExpired(e) => SendMessageEvent::SendLockExpired(e.clone()),
            SendMessageEvent::SendLockedTransfer(e) => SendMessageEvent::SendLockedTransfer(
                e.clone(),
            ),
            SendMessageEvent::SendSecretReveal(e) => SendMessageEvent::SendSecretReveal(e.clone()),
            SendMessageEvent::SendSecretRequest(e) => SendMessageEvent::SendSecretRequest(
                e.clone(),
            ),
            SendMessageEvent::SendUnlock(e) => SendMessageEvent::SendUnlock(e.clone()),
            SendMessageEvent::SendWithdrawRequest(e) => SendMessageEvent::SendWithdrawRequest(
                e.clone(),
            ),
            SendMessageEvent::SendWithdrawConfirmation(e) => {
                SendMessageEvent::SendWithdrawConfirmation(e.clone())
            },
            SendMessageEvent::SendWithdrawExpired(e) => SendMessageEvent::SendWithdrawExpired(
                e.clone(),
            ),
            SendMessageEvent::SendProcessed(e) => SendMessageEvent::SendProcessed(e.clone()),
        }
    }
}

/// The message event an event projects to, if it is one.
pub open spec fn spec_send_message_event(event: EventV) -> Option<SendMessageEventV> {
    match event {
        EventV::SendLockExpired(inner) => Some(SendMessageEventV::SendLockExpired(inner)),
        EventV::SendLockedTransfer(inner) => Some(SendMessageEventV::SendLockedTransfer(inner)),
        EventV::SendSecretReveal(inner) => Some(SendMessageEventV::SendSecretReveal(inner)),
        EventV::SendSecretRequest(inner) => Some(SendMessageEventV::SendSecretRequest(inner)),
        EventV::SendUnlock(inner) => Some(SendMessageEventV::SendUnlock(inner)),
        EventV::SendWithdrawRequest(inner) => Some(SendMessageEventV::SendWithdrawRequest(inner)),
        EventV::SendWithdrawConfirmation(inner) => Some(SendMessageEventV::SendWithdrawConfirmation(inner)),
        EventV::SendWithdrawExpired(inner) => Some(SendMessageEventV::SendWithdrawExpired(inner)),
        EventV::SendProcessed(inner) => Some(SendMessageEventV::SendProcessed(inner)),
        _ => None,
    }
}

/// The message event an event carries, copied out for queueing.
pub fn message_of(event: &Event) -> (r: Option<SendMessageEvent>)
    ensures
        match r {
            Some(m) => spec_send_message_event(event@) == Some(m@),
            None => spec_send_message_event(event@) is None,
        },
{
    match event {
        Event::SendLockExpired(e) => Some(SendMessageEvent::SendLockExpired(e.clone())),
        Event::SendLockedTransfer(e) => Some(SendMessageEvent::SendLockedTransfer(e.clone())),
        Event::SendSecretReveal(e) => Some(SendMessageEvent::SendSecretReveal(e.clone())),
        Event::SendSecretRequest(e) => Some(SendMessageEvent::SendSecretRequest(e.clone())),
        Event::SendUnlock(e) => Some(SendMessageEvent::SendUnlock(e.clone())),
        Event::SendWithdrawRequest(e) => Some(SendMessageEvent::SendWithdrawRequest(e.clone())),
        Event::SendWithdrawConfirmation(e) => Some(SendMessageEvent::SendWithdrawConfirmation(e.clone())),
        Event::SendWithdrawExpired(e) => Some(SendMessageEvent::SendWithdrawExpired(e.clone())),
        Event::SendProcessed(e) => Some(SendMessageEvent::SendProcessed(e.clone())),
        _ => None,
    }
}

impl SendMessageEventV {
    /// The shared inner data of the message event.
    pub open spec fn spec_inner(self) -> SendMessageEventInner {
        match self {
            SendMessageEventV::SendLockExpired(e) => e.inner,
            SendMessageEventV::SendLockedTransfer(e) => e.inner,
            SendMessageEventV::SendSecretReveal(e) => e.inner,
            SendMessageEventV::SendSecretRequest(e) => e.inner,
            SendMessageEventV::SendUnlock(e) => e.inner,
            SendMessageEventV::SendWithdrawRequest(e) => e.inner,
            SendMessageEventV::SendWithdrawConfirmation(e) => e.inner,
            SendMessageEventV::SendWithdrawExpired(e) => e.inner,
            SendMessageEventV::SendProcessed(e) => e.inner,
        }
    }

    /// The queue this message event is retried on.
    pub open spec fn spec_queue_identifier(self) -> QueueIdentifier {
        self.spec_inner().spec_queue_identifier()
    }

    /// The identifier under which the message is acknowledged.
    pub open spec fn spec_message_identifier(self) -> MessageIdentifier {
        self.spec_inner().message_identifier
    }
}

impl SendMessageEvent {
    /// Projects an event to its message-bearing form.
    pub fn try_from(event: Event) -> (r: Result<SendMessageEvent, ()>)
        ensures
            match r {
                Ok(m) => spec_send_message_event(event@) == Some(m@),
                Err(()) => spec_send_message_event(event@) is None,
            },
    {
        match event {
            Event::SendWithdrawExpired(inner) => Ok(SendMessageEvent::SendWithdrawExpired(inner)),
            Event::SendWithdrawRequest(inner) => Ok(SendMessageEvent::SendWithdrawRequest(inner)),
            Event::SendWithdrawConfirmation(inner) => Ok(
                SendMessageEvent::SendWithdrawConfirmation(inner),
            ),
            Event::SendLockedTransfer(inner) => Ok(SendMessageEvent::SendLockedTransfer(inner)),
            Event::SendLockExpired(inner) => Ok(SendMessageEvent::SendLockExpired(inner)),
            Event::SendSecretRequest(inner) => Ok(SendMessageEvent::SendSecretRequest(inner)),
            Event::SendSecretReveal(inner) => Ok(SendMessageEvent::SendSecretReveal(inner)),
            Event::SendUnlock(inner) => Ok(SendMessageEvent::SendUnlock(inner)),
            Event::SendProcessed(inner) => Ok(SendMessageEvent::SendProcessed(inner)),
            _ => Err(()),
        }
    }

    pub fn queue_identifier(&self) -> (r: QueueIdentifier)
        ensures
            r == self@.spec_queue_identifier(),
    {
        match self {
            SendMessageEvent::SendLockExpired(e) => e.inner.queue_identifier(),
            SendMessageEvent::SendLockedTransfer(e) => e.inner.queue_identifier(),
            SendMessageEvent::SendSecretReveal(e) => e.inner.queue_identifier(),
            SendMessageEvent::SendSecretRequest(e) => e.inner.queue_identifier(),
            SendMessageEvent::SendUnlock(e) => e.inner.queue_identifier(),
            SendMessageEvent::SendWithdrawRequest(e) => e.inner.queue_identifier(),
            SendMessageEvent::SendWithdrawConfirmation(e) => e.inner.queue_identifier(),
            SendMessageEvent::SendWithdrawExpired(e) => e.inner.queue_identifier(),
            SendMessageEvent::SendProcessed(e) => e.inner.queue_identifier(),
        }
    }

    pub fn message_identifier(&self) -> (r: MessageIdentifier)
        ensures
            r == self@.spec_message_identifier(),
    {
        match self {
            SendMessageEvent::SendLockExpired(e) => e.inner.message_identifier,
            SendMessageEvent::SendLockedTransfer(e) => e.inner.message_identifier,
            SendMessageEvent::SendSecretReveal(e) => e.inner.message_identifier,
            SendMessageEvent::SendSecretRequest(e) => e.inner.message_identifier,
            SendMessageEvent::SendUnlock(e) => e.inner.message_identifier,
            SendMessageEvent::SendWithdrawRequest(e) => e.inner.message_identifier,
            SendMessageEvent::SendWithdrawConfirmation(e) => e.inner.message_identifier,
            SendMessageEvent::SendWithdrawExpired(e) => e.inner.message_identifier,
            SendMessageEvent::SendProcessed(e) => e.inner.message_identifier,
        }
    }
}

/// The contract-call projection of [`Event`].
#[derive(Clone, Copy, PartialEq, Eq, Structural, Debug)]
pub enum ContractSendEvent {
    ContractSendChannelClose(ContractSendChannelClose),
    ContractSendChannelWithdraw(ContractSendChannelWithdraw),
    ContractSendChannelSettle(ContractSendChannelSettle),
    ContractSendChannelUpdateTransfer(ContractSendChannelUpdateTransfer),
    ContractSendChannelBatchUnlock(ContractSendChannelBatchUnlock),
    ContractSendSecretReveal(ContractSendSecretReveal),
}

/// The contract call an event projects to, if it is one.
pub open spec fn spec_contract_send_event(event: EventV) -> Option<ContractSendEvent> {
    match event {
        EventV::ContractSendChannelClose(inner) => Some(
            ContractSendEvent::ContractSendChannelClose(inner),
        ),
        EventV::ContractSendChannelWithdraw(inner) => Some(
            ContractSendEvent::ContractSendChannelWithdraw(inner),
        ),
        EventV::ContractSendChannelSettle(inner) => Some(
            ContractSendEvent::ContractSendChannelSettle(inner),
        ),
        EventV::ContractSendChannelUpdateTransfer(inner) => Some(
            ContractSendEvent::ContractSendChannelUpdateTransfer(inner),
        ),
        EventV::ContractSendChannelBatchUnlock(inner) => Some(
            ContractSendEvent::ContractSendChannelBatchUnlock(inner),
        ),
        EventV::ContractSendSecretReveal(inner) => Some(
            ContractSendEvent::ContractSendSecretReveal(inner),
        ),
        _ => None,
    }
}

impl ContractSendEvent {
    /// Projects an event to its contract-call form.
    pub fn try_from(event: Event) -> (r: Result<ContractSendEvent, ()>)
        ensures
            match r {
                Ok(m) => spec_contract_send_event(event@) == Some(m),
                Err(()) => spec_contract_send_event(event@) is None,
            },
    {
        match event {
            Event::ContractSendChannelClose(inner) => Ok(
                ContractSendEvent::ContractSendChannelClose(inner),
            ),
            Event::ContractSendChannelWithdraw(inner) => Ok(
                ContractSendEvent::ContractSendChannelWithdraw(inner),
            ),
            Event::ContractSendChannelSettle(inner) => Ok(
                ContractSendEvent::ContractSendChannelSettle(inner),
            ),
            Event::ContractSendChannelUpdateTransfer(inner) => Ok(
                ContractSendEvent::ContractSendChannelUpdateTransfer(inner),
            ),
            Event::ContractSendChannelBatchUnlock(inner) => Ok(
                ContractSendEvent::ContractSendChannelBatchUnlock(inner),
            ),
            Event::ContractSendSecretReveal(inner) => Ok(
                ContractSendEvent::ContractSendSecretReveal(inner),
            ),
            _ => Err(()),
        }
    }
}

} // verus!
