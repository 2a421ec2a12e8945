//! The channel-scope reducers: everything a single channel does in response
//! to chain events, peer messages and local actions. Each handler has a
//! specification twin over the ghost views; its contract pins the handler's
//! result to that twin.

use vstd::prelude::*;

use crate::event::{
    ErrorInvalidActionSetRevealTimeout, ErrorReason, Event, EventV,
};
use crate::state::{
    ChannelState, ChannelStateV, ChannelEndState, ChannelEndStateV, ChannelStatus,
    ExpiredWithdrawState, PendingWithdrawState, TransactionChannelDeposit,
    TransactionExecutionStatus, TransactionResult, UnlockPartialProofState,
};
use crate::state_change::{
    ContractReceiveChannelClosed, ContractReceiveChannelSettled, ContractReceiveUpdateTransfer,
};
use crate::types::{Address, BlockNumber, Secret, SecretHash, H256, U256};
use crate::views::{spec_find_lock, spec_find_unlocked, spec_find_withdraw};

verus! {

broadcast use vstd::std_specs::vec::axiom_spec_len;

/// The views of a list of emitted events.
pub open spec fn spec_events(evs: Seq<Event>) -> Seq<EventV> {
    evs.map_values(|e: Event| e@)
}

/// `block + delta`, capped at the largest block number.
pub open spec fn spec_block_add(block: BlockNumber, delta: int) -> u64 {
    if block + delta <= u64::MAX {
        (block + delta) as u64
    } else {
        u64::MAX
    }
}

/// Adds a block delta, capped at the largest block number.
pub fn block_add(block: BlockNumber, delta: u64) -> (r: u64)
    ensures
        r == spec_block_add(block, delta as int),
{
    if block <= u64::MAX - delta {
        block + delta
    } else {
        u64::MAX
    }
}

/// Adds twice the reveal timeout to a block, capped at the largest block
/// number: the window within which a pending request must be answered.
pub fn block_add_twice(block: BlockNumber, reveal_timeout: u64) -> (r: u64)
    ensures
        r == spec_block_add(block, 2 * reveal_timeout),
{
    if reveal_timeout <= u64::MAX / 2 {
        block_add(block, 2 * reveal_timeout)
    } else {
        u64::MAX
    }
}

/// What `ActionChannelSetRevealTimeout` does to one channel: the new timeout
/// is recorded only on an open channel and only when it stays strictly below
/// the settle timeout.
pub open spec fn spec_set_reveal_timeout(ch: ChannelStateV, reveal_timeout: u64) -> (
    ChannelStateV,
    Seq<EventV>,
) {
    if ch.spec_status() != ChannelStatus::Opened {
        (
            ch,
            seq![
                EventV::ErrorInvalidActionSetRevealTimeout(
                    ErrorInvalidActionSetRevealTimeout {
                        reveal_timeout,
                        reason: ErrorReason::ChannelNotOpened,
                    },
                ),
            ],
        )
    } else if !(reveal_timeout < ch.settle_timeout) {
        (
            ch,
            seq![
                EventV::ErrorInvalidActionSetRevealTimeout(
                    ErrorInvalidActionSetRevealTimeout {
                        reveal_timeout,
                        reason: ErrorReason::TimeoutsInvalid,
                    },
                ),
            ],
        )
    } else {
        (ChannelStateV { reveal_timeout, ..ch }, Seq::empty())
    }
}

/// Applies `ActionChannelSetRevealTimeout` to one channel.
pub fn set_reveal_timeout(channel: ChannelState, reveal_timeout: u64) -> (r: (
    ChannelState,
    Vec<Event>,
))
    ensures
        r.0@ == spec_set_reveal_timeout(channel@, reveal_timeout).0,
        spec_events(r.1@) == spec_set_reveal_timeout(channel@, reveal_timeout).1,
{
    let status = channel.status();
    if status != ChannelStatus::Opened {
        let mut events: Vec<Event> = Vec::new();
        events.push(
            Event::ErrorInvalidActionSetRevealTimeout(
                ErrorInvalidActionSetRevealTimeout {
                    reveal_timeout,
                    reason: ErrorReason::ChannelNotOpened,
                },
            ),
        );
        proof {
            assert(spec_events(events@) =~= spec_set_reveal_timeout(channel@, reveal_timeout).1);
        }
        (channel, events)
    } else if !(reveal_timeout < channel.settle_timeout) {
        let mut events: Vec<Event> = Vec::new();
        events.push(
            Event::ErrorInvalidActionSetRevealTimeout(
                ErrorInvalidActionSetRevealTimeout {
                    reveal_timeout,
                    reason: ErrorReason::TimeoutsInvalid,
                },
            ),
        );
        proof {
            assert(spec_events(events@) =~= spec_set_reveal_timeout(channel@, reveal_timeout).1);
        }
        (channel, events)
    } else {
        let ghost ch0 = channel@;
    let mut channel = channel;
        channel.reveal_timeout = reveal_timeout;
        proof {
            assert(channel@ =~~= spec_set_reveal_timeout(ch0, reveal_timeout).0);
            assert(spec_events(Seq::<Event>::empty()) =~= Seq::<EventV>::empty());
        }
        (channel, Vec::new())
    }
}

/// What an end looks like after a confirmed deposit: the contract balance
/// never decreases.
pub open spec fn spec_apply_deposit_to_end(end: ChannelEndStateV, total: U256) -> ChannelEndStateV {
    if end.contract_balance.as_nat() >= total.as_nat() {
        end
    } else {
        ChannelEndStateV { contract_balance: total, ..end }
    }
}

/// What `ContractReceiveChannelDeposit` does to one channel: the named
/// participant's recorded deposit rises to the on-chain total; a deposit for
/// a stranger changes nothing.
pub open spec fn spec_apply_channel_deposit(
    ch: ChannelStateV,
    deposit: TransactionChannelDeposit,
) -> ChannelStateV {
    if deposit.participant_address == ch.our_state.address {
        ChannelStateV {
            our_state: spec_apply_deposit_to_end(ch.our_state, deposit.contract_balance),
            ..ch
        }
    } else if deposit.participant_address == ch.partner_state.address {
        ChannelStateV {
            partner_state: spec_apply_deposit_to_end(ch.partner_state, deposit.contract_balance),
            ..ch
        }
    } else {
        ch
    }
}

/// Applies `ContractReceiveChannelDeposit` to one channel.
pub fn apply_channel_deposit(channel: ChannelState, deposit: &TransactionChannelDeposit) -> (r:
    ChannelState)
    ensures
        r@ == spec_apply_channel_deposit(channel@, *deposit),
{
    let ghost ch0 = channel@;
    let mut channel = channel;
    if deposit.participant_address == channel.our_state.address {
        if channel.our_state.contract_balance.lt(deposit.contract_balance) {
            channel.our_state.contract_balance = deposit.contract_balance;
        }
    } else if deposit.participant_address == channel.partner_state.address {
        if channel.partner_state.contract_balance.lt(deposit.contract_balance) {
            channel.partner_state.contract_balance = deposit.contract_balance;
        }
    }
    proof {
        assert(channel@ =~~= spec_apply_channel_deposit(ch0, *deposit));
    }
    channel
}

/// What an end looks like after its withdraw is confirmed on-chain: the
/// on-chain total is recorded and the matching pending request is dropped.
pub open spec fn spec_apply_withdraw_to_end(end: ChannelEndStateV, total: U256) -> ChannelEndStateV {
    let without = match spec_find_withdraw(end.withdraws_pending, total) {
        Some(i) => end.withdraws_pending.remove(i),
        None => end.withdraws_pending,
    };
    ChannelEndStateV { onchain_total_withdraw: total, withdraws_pending: without, ..end }
}

/// What `ContractReceiveChannelWithdraw` does to one channel.
pub open spec fn spec_apply_channel_withdraw(
    ch: ChannelStateV,
    participant: Address,
    total_withdraw: U256,
) -> ChannelStateV {
    if participant == ch.our_state.address {
        ChannelStateV { our_state: spec_apply_withdraw_to_end(ch.our_state, total_withdraw), ..ch }
    } else if participant == ch.partner_state.address {
        ChannelStateV {
            partner_state: spec_apply_withdraw_to_end(ch.partner_state, total_withdraw),
            ..ch
        }
    } else {
        ch
    }
}

fn apply_withdraw_to_end(end: ChannelEndState, total: U256) -> (r: ChannelEndState)
    ensures
        r@ == spec_apply_withdraw_to_end(end@, total),
{
    let ghost end0 = end@;
    let mut end = end;
    match crate::views::find_withdraw(&end.withdraws_pending, total) {
        Some(i) => {
            end.withdraws_pending.remove(i);
        },
        None => {},
    }
    end.onchain_total_withdraw = total;
    proof {
        assert(end@ =~~= spec_apply_withdraw_to_end(end0, total));
    }
    end
}

/// Applies `ContractReceiveChannelWithdraw` to one channel.
pub fn apply_channel_withdraw(
    channel: ChannelState,
    participant: Address,
    total_withdraw: U256,
) -> (r: ChannelState)
    ensures
        r@ == spec_apply_channel_withdraw(channel@, participant, total_withdraw),
{
    let ghost ch0 = channel@;
    let mut channel = channel;
    if participant == channel.our_state.address {
        let end = channel.our_state;
        channel.our_state = apply_withdraw_to_end(end, total_withdraw);
    } else if participant == channel.partner_state.address {
        let end = channel.partner_state;
        channel.partner_state = apply_withdraw_to_end(end, total_withdraw);
    }
    proof {
        assert(channel@ =~~= spec_apply_channel_withdraw(ch0, participant,
            total_withdraw));
    }
    channel
}

/// What `ContractReceiveChannelClosed` does to one channel: a channel seen
/// closed on-chain records the close; if the partner closed and this node
/// holds a balance proof of theirs, it asks the chain to update the
/// non-closing balance proof before the settlement window ends. A channel
/// already closing or closed is left as it is.
pub open spec fn spec_apply_channel_closed(
    ch: ChannelStateV,
    sc: ContractReceiveChannelClosed,
    our_address: Address,
) -> (ChannelStateV, Seq<EventV>) {
    if ch.spec_status() == ChannelStatus::Opened {
        let closed = ChannelStateV {
            close_transaction: Some(
                TransactionExecutionStatus {
                    started_block_number: None,
                    finished_block_number: Some(sc.block_number),
                    result: Some(TransactionResult::Success),
                },
            ),
            ..ch
        };
        if sc.transaction_from != our_address && ch.partner_state.balance_proof is Some {
            (
                closed,
                seq![
                    EventV::ContractSendChannelUpdateTransfer(
                        crate::event::ContractSendChannelUpdateTransfer {
                            inner: (crate::event::ContractSendEventInner {
                                triggered_by_blockhash: sc.block_hash,
                            }),
                            expiration: spec_block_add(sc.block_number, ch.settle_timeout as int),
                            balance_proof: ch.partner_state.balance_proof->Some_0,
                        },
                    ),
                ],
            )
        } else {
            (closed, Seq::empty())
        }
    } else {
        (ch, Seq::empty())
    }
}

/// Applies `ContractReceiveChannelClosed` to one channel.
pub fn apply_channel_closed(
    channel: ChannelState,
    sc: &ContractReceiveChannelClosed,
    our_address: Address,
) -> (r: (ChannelState, Vec<Event>))
    ensures
        r.0@ == spec_apply_channel_closed(channel@, *sc, our_address).0,
        spec_events(r.1@) == spec_apply_channel_closed(channel@, *sc, our_address).1,
{
    let status = channel.status();
    let mut events: Vec<Event> = Vec::new();
    if status != ChannelStatus::Opened {
        proof {
            assert(spec_events(events@) =~= spec_apply_channel_closed(channel@, *sc,
                our_address).1);
        }
        return (channel, events);
    }
    let ghost ch0 = channel@;
    let mut channel = channel;
    channel.close_transaction = Some(
        TransactionExecutionStatus {
            started_block_number: None,
            finished_block_number: Some(sc.block_number),
            result: Some(TransactionResult::Success),
        },
    );
    if sc.transaction_from != our_address {
        match &channel.partner_state.balance_proof {
            Some(bp) => {
                events.push(
                    Event::ContractSendChannelUpdateTransfer(
                        crate::event::ContractSendChannelUpdateTransfer {
                            inner: crate::event::ContractSendEventInner {
                                triggered_by_blockhash: sc.block_hash,
                            },
                            expiration: block_add(sc.block_number, channel.settle_timeout),
                            balance_proof: *bp,
                        },
                    ),
                );
            },
            None => {},
        }
    }
    proof {
        assert(channel@ =~~= spec_apply_channel_closed(ch0, *sc, our_address).0);
        assert(spec_events(events@) =~= spec_apply_channel_closed(ch0, *sc,
            our_address).1);
    }
    (channel, events)
}

/// What `ContractReceiveChannelSettled` does to one channel: the settlement
/// is recorded together with both on-chain locksroots, and for each side
/// whose on-chain locksroot still commits locks a batch unlock is requested.
pub open spec fn spec_apply_channel_settled(
    ch: ChannelStateV,
    sc: ContractReceiveChannelSettled,
    empty_locksroot: H256,
) -> (ChannelStateV, Seq<EventV>) {
    if ch.spec_status() == ChannelStatus::Settled || ch.spec_status() == ChannelStatus::Removed {
        (ch, Seq::empty())
    } else {
        let settled = ChannelStateV {
            settle_transaction: Some(
                TransactionExecutionStatus {
                    started_block_number: None,
                    finished_block_number: Some(sc.block_number),
                    result: Some(TransactionResult::Success),
                },
            ),
            our_state: ChannelEndStateV {
                onchain_locksroot: sc.our_onchain_locksroot,
                ..ch.our_state
            },
            partner_state: ChannelEndStateV {
                onchain_locksroot: sc.partner_onchain_locksroot,
                ..ch.partner_state
            },
            ..ch
        };
        if sc.partner_onchain_locksroot != empty_locksroot {
            (
                settled,
                seq![
                    EventV::ContractSendChannelBatchUnlock(
                        crate::event::ContractSendChannelBatchUnlock {
                            inner: (crate::event::ContractSendEventInner {
                                triggered_by_blockhash: sc.block_hash,
                            }),
                            canonical_identifier: sc.canonical_identifier,
                            sender: ch.partner_state.address,
                        },
                    ),
                ],
            )
        } else {
            (settled, Seq::empty())
        }
    }
}

/// Applies `ContractReceiveChannelSettled` to one channel. `empty_locksroot`
/// is the locksroot of no locks.
pub fn apply_channel_settled(
    channel: ChannelState,
    sc: &ContractReceiveChannelSettled,
    empty_locksroot: H256,
) -> (r: (ChannelState, Vec<Event>))
    ensures
        r.0@ == spec_apply_channel_settled(channel@, *sc, empty_locksroot).0,
        spec_events(r.1@) == spec_apply_channel_settled(channel@, *sc, empty_locksroot).1,
{
    let status = channel.status();
    let mut events: Vec<Event> = Vec::new();
    if status == ChannelStatus::Settled || status == ChannelStatus::Removed {
        proof {
            assert(spec_events(events@) =~= spec_apply_channel_settled(channel@, *sc,
                empty_locksroot).1);
        }
        return (channel, events);
    }
    let ghost ch0 = channel@;
    let mut channel = channel;
    channel.settle_transaction = Some(
        TransactionExecutionStatus {
            started_block_number: None,
            finished_block_number: Some(sc.block_number),
            result: Some(TransactionResult::Success),
        },
    );
    channel.our_state.onchain_locksroot = sc.our_onchain_locksroot;
    channel.partner_state.onchain_locksroot = sc.partner_onchain_locksroot;
    if sc.partner_onchain_locksroot != empty_locksroot {
        events.push(
            Event::ContractSendChannelBatchUnlock(
                crate::event::ContractSendChannelBatchUnlock {
                    inner: crate::event::ContractSendEventInner {
                        triggered_by_blockhash: sc.block_hash,
                    },
                    canonical_identifier: sc.canonical_identifier,
                    sender: channel.partner_state.address,
                },
            ),
        );
    }
    proof {
        assert(channel@ =~~= spec_apply_channel_settled(ch0, *sc, empty_locksroot).0);
        assert(spec_events(events@) =~= spec_apply_channel_settled(ch0, *sc,
            empty_locksroot).1);
    }
    (channel, events)
}

/// What `ContractReceiveUpdateTransfer` does to one channel: the on-chain
/// balance-proof update is recorded.
pub open spec fn spec_apply_update_transfer(
    ch: ChannelStateV,
    sc: ContractReceiveUpdateTransfer,
) -> ChannelStateV {
    ChannelStateV {
        update_transaction: Some(
            TransactionExecutionStatus {
                started_block_number: None,
                finished_block_number: Some(sc.block_number),
                result: Some(TransactionResult::Success),
            },
        ),
        ..ch
    }
}

/// Applies `ContractReceiveUpdateTransfer` to one channel.
pub fn apply_update_transfer(channel: ChannelState, sc: &ContractReceiveUpdateTransfer) -> (r:
    ChannelState)
    ensures
        r@ == spec_apply_update_transfer(channel@, *sc),
{
    let ghost ch0 = channel@;
    let mut channel = channel;
    channel.update_transaction = Some(
        TransactionExecutionStatus {
            started_block_number: None,
            finished_block_number: Some(sc.block_number),
            result: Some(TransactionResult::Success),
        },
    );
    proof {
        assert(channel@ =~~= spec_apply_update_transfer(ch0, *sc));
    }
    channel
}

/// What an on-chain secret registration does to one end: a still-live
/// locked lock with that secret hash moves to the on-chain unlocked set.
pub open spec fn spec_register_secret_on_end(
    end: ChannelEndStateV,
    secrethash: SecretHash,
    secret: Secret,
    block_number: BlockNumber,
) -> ChannelEndStateV {
    match spec_find_lock(end.secrethashes_to_lockedlocks, secrethash) {
        None => end,
        Some(i) => {
            let lock = end.secrethashes_to_lockedlocks[i];
            if lock.expiration >= block_number {
                ChannelEndStateV {
                    secrethashes_to_lockedlocks: end.secrethashes_to_lockedlocks.remove(i),
                    secrethashes_to_onchain_unlockedlocks:
                        end.secrethashes_to_onchain_unlockedlocks.push(
                        UnlockPartialProofState {
                            lock,
                            secret,
                            amount: lock.amount,
                            expiration: lock.expiration,
                            secrethash,
                        },
                    ),
                    ..end
                }
            } else {
                end
            }
        },
    }
}

fn register_secret_on_end(
    end: ChannelEndState,
    secrethash: SecretHash,
    secret: Secret,
    block_number: BlockNumber,
) -> (r: ChannelEndState)
    ensures
        r@ == spec_register_secret_on_end(end@, secrethash, secret, block_number),
{
    let ghost end0 = end@;
    let mut end = end;
    match crate::views::find_lock(&end.secrethashes_to_lockedlocks, secrethash) {
        None => {},
        Some(i) => {
            let lock = end.secrethashes_to_lockedlocks[i];
            if lock.expiration >= block_number {
                end.secrethashes_to_lockedlocks.remove(i);
                end.secrethashes_to_onchain_unlockedlocks.push(
                    UnlockPartialProofState {
                        lock,
                        secret,
                        amount: lock.amount,
                        expiration: lock.expiration,
                        secrethash,
                    },
                );
            }
        },
    }
    proof {
        assert(end@ =~~= spec_register_secret_on_end(end0, secrethash, secret, block_number));
    }
    end
}

/// What an on-chain secret registration does to one channel: both ends learn
/// the secret for their still-live locks.
pub open spec fn spec_register_secret(
    ch: ChannelStateV,
    secrethash: SecretHash,
    secret: Secret,
    block_number: BlockNumber,
) -> ChannelStateV {
    ChannelStateV {
        our_state: spec_register_secret_on_end(ch.our_state, secrethash, secret, block_number),
        partner_state: spec_register_secret_on_end(
            ch.partner_state,
            secrethash,
            secret,
            block_number,
        ),
        ..ch
    }
}

/// Applies an on-chain secret registration to one channel.
pub fn register_secret(
    channel: ChannelState,
    secrethash: SecretHash,
    secret: Secret,
    block_number: BlockNumber,
) -> (r: ChannelState)
    ensures
        r@ == spec_register_secret(channel@, secrethash, secret, block_number),
{
    let ghost ch0 = channel@;
    let mut channel = channel;
    let ours = channel.our_state;
    channel.our_state = register_secret_on_end(ours, secrethash, secret, block_number);
    let partners = channel.partner_state;
    channel.partner_state = register_secret_on_end(partners, secrethash, secret, block_number);
    proof {
        assert(channel@ =~~= spec_register_secret(ch0, secrethash, secret,
            block_number));
    }
    channel
}

/// The message-event inner data for a message to the channel partner.
pub open spec fn spec_inner_for(
    ch: ChannelStateV,
    recipient_metadata: Option<crate::event::AddressMetadata>,
    message_identifier: u64,
) -> crate::event::SendMessageEventInner {
    crate::event::SendMessageEventInner {
        recipient: ch.partner_state.address,
        recipient_metadata,
        canonical_identifier: ch.canonical_identifier,
        message_identifier,
    }
}

/// What `ActionChannelWithdraw` does to one channel. A withdraw request is
/// registered, with the next nonce and an expiration two reveal timeouts
/// ahead, exactly when the channel is open, the requested total exceeds the
/// current one by no more than this side's spendable balance, and the nonce
/// space is not exhausted; otherwise an `ErrorInvalidActionWithdraw` names
/// the first failing condition and the channel is unchanged.
pub open spec fn spec_action_withdraw(
    ch: ChannelStateV,
    total_withdraw: U256,
    block_number: BlockNumber,
    message_identifier: u64,
    recipient_metadata: Option<crate::event::AddressMetadata>,
) -> (ChannelStateV, Seq<EventV>) {
    if ch.spec_status() != ChannelStatus::Opened {
        (ch, seq![spec_withdraw_error(total_withdraw, ErrorReason::ChannelNotOpened)])
    } else if total_withdraw.as_nat() <= ch.our_state.spec_total_withdraw() {
        (ch, seq![spec_withdraw_error(total_withdraw, ErrorReason::LowerThanPrevious)])
    } else if total_withdraw.as_nat() - ch.our_state.spec_total_withdraw()
        > crate::views::spec_channel_balance(ch.our_state, ch.partner_state) {
        (ch, seq![spec_withdraw_error(total_withdraw, ErrorReason::InsufficientBalance)])
    } else if ch.our_state.nonce.spec_inc() is None {
        (ch, seq![spec_withdraw_error(total_withdraw, ErrorReason::NonceOverflow)])
    } else {
        let nonce = ch.our_state.nonce.spec_inc()->Some_0;
        let expiration = spec_block_add(block_number, 2 * ch.reveal_timeout);
        let withdraw = PendingWithdrawState { total_withdraw, expiration, nonce };
        let ch2 = ChannelStateV {
            our_state: ChannelEndStateV {
                withdraws_pending: ch.our_state.withdraws_pending.push(withdraw),
                nonce,
                ..ch.our_state
            },
            ..ch
        };
        (
            ch2,
            seq![
                EventV::SendWithdrawRequest(
                    crate::event::SendWithdrawRequest {
                        inner: spec_inner_for(ch, recipient_metadata, message_identifier),
                        participant: ch.our_state.address,
                        total_withdraw,
                        expiration,
                        nonce,
                    },
                ),
            ],
        )
    }
}

/// An invalid-withdraw error event.
pub open spec fn spec_withdraw_error(total_withdraw: U256, reason: ErrorReason) -> EventV {
    EventV::ErrorInvalidActionWithdraw(
        crate::event::ErrorInvalidActionWithdraw { attemped_withdraw: total_withdraw, reason },
    )
}

/// Applies `ActionChannelWithdraw` to one channel.
pub fn action_withdraw(
    channel: ChannelState,
    total_withdraw: U256,
    block_number: BlockNumber,
    message_identifier: u64,
    recipient_metadata: Option<crate::event::AddressMetadata>,
) -> (r: (ChannelState, Vec<Event>))
    ensures
        r.0@ == spec_action_withdraw(
            channel@,
            total_withdraw,
            block_number,
            message_identifier,
            recipient_metadata,
        ).0,
        spec_events(r.1@) == spec_action_withdraw(
            channel@,
            total_withdraw,
            block_number,
            message_identifier,
            recipient_metadata,
        ).1,
{
    let ghost ch0 = channel@;
    let mut events: Vec<Event> = Vec::new();
    let status = channel.status();
    let current_total = channel.our_state.total_withdraw();
    let balance = crate::views::channel_balance(&channel.our_state, &channel.partner_state);
    if status != ChannelStatus::Opened {
        events.push(withdraw_error(total_withdraw, ErrorReason::ChannelNotOpened));
        proof {
            assert(spec_events(events@) =~= spec_action_withdraw(ch0, total_withdraw,
                block_number, message_identifier, recipient_metadata).1);
        }
        return (channel, events);
    }
    if total_withdraw.le(current_total) {
        events.push(withdraw_error(total_withdraw, ErrorReason::LowerThanPrevious));
        proof {
            assert(spec_events(events@) =~= spec_action_withdraw(ch0, total_withdraw,
                block_number, message_identifier, recipient_metadata).1);
        }
        return (channel, events);
    }
    let withdraw_amount = total_withdraw.saturating_sub(current_total);
    if balance.lt(withdraw_amount) {
        events.push(withdraw_error(total_withdraw, ErrorReason::InsufficientBalance));
        proof {
            assert(spec_events(events@) =~= spec_action_withdraw(ch0, total_withdraw,
                block_number, message_identifier, recipient_metadata).1);
        }
        return (channel, events);
    }
    let nonce = match channel.our_state.next_nonce() {
        Some(n) => n,
        None => {
            events.push(withdraw_error(total_withdraw, ErrorReason::NonceOverflow));
            proof {
                assert(channel.our_state.nonce.spec_inc() is None);
                assert(spec_events(events@) =~= spec_action_withdraw(ch0, total_withdraw,
                    block_number, message_identifier, recipient_metadata).1);
            }
            return (channel, events);
        },
    };
    proof {
        assert(channel.our_state.nonce.spec_inc() == Some(nonce));
    }
    let mut channel = channel;
    let expiration = block_add_twice(block_number, channel.reveal_timeout);
    channel.our_state.withdraws_pending.push(
        PendingWithdrawState { total_withdraw, expiration, nonce },
    );
    channel.our_state.nonce = nonce;
    events.push(
        Event::SendWithdrawRequest(
            crate::event::SendWithdrawRequest {
                inner: crate::event::SendMessageEventInner {
                    recipient: channel.partner_state.address,
                    recipient_metadata,
                    canonical_identifier: channel.canonical_identifier,
                    message_identifier,
                },
                participant: channel.our_state.address,
                total_withdraw,
                expiration,
                nonce,
            },
        ),
    );
    proof {
        assert(channel@ =~~= spec_action_withdraw(ch0, total_withdraw, block_number,
            message_identifier, recipient_metadata).0);
        assert(spec_events(events@) =~= spec_action_withdraw(ch0, total_withdraw, block_number,
            message_identifier, recipient_metadata).1);
    }
    (channel, events)
}

fn withdraw_error(total_withdraw: U256, reason: ErrorReason) -> (r: Event)
    ensures
        r@ == spec_withdraw_error(total_withdraw, reason),
{
    Event::ErrorInvalidActionWithdraw(
        crate::event::ErrorInvalidActionWithdraw { attemped_withdraw: total_withdraw, reason },
    )
}

/// Whether `nonce` is exactly the successor of the end's current nonce.
pub open spec fn spec_is_next_nonce(end: ChannelEndStateV, nonce: U256) -> bool {
    end.nonce.spec_inc() == Some(nonce)
}

fn is_next_nonce(end: &ChannelEndState, nonce: U256) -> (r: bool)
    ensures
        r == spec_is_next_nonce(end@, nonce),
{
    match end.next_nonce() {
        Some(n) => n == nonce,
        None => false,
    }
}

/// What `ReceiveWithdrawRequest` does to one channel. The partner's request
/// to raise its own withdraw is accepted, and a signed confirmation with this
/// side's next nonce is owed back, exactly when the channel is open, the
/// request names the partner with the partner's next nonce, the total rises,
/// the rise is covered by the partner's spendable balance, and this side's
/// nonce space is not exhausted; otherwise an
/// `ErrorInvalidReceivedWithdrawRequest` names the first failing condition.
pub open spec fn spec_receive_withdraw_request(
    ch: ChannelStateV,
    sc: crate::state_change::ReceiveWithdrawRequest,
    confirm_message_identifier: u64,
) -> (ChannelStateV, Seq<EventV>) {
    if ch.spec_status() != ChannelStatus::Opened {
        (ch, seq![spec_withdraw_request_error(sc.total_withdraw, ErrorReason::ChannelNotOpened)])
    } else if sc.participant != ch.partner_state.address || sc.sender != ch.partner_state.address {
        (ch, seq![spec_withdraw_request_error(sc.total_withdraw, ErrorReason::SenderMismatch)])
    } else if !spec_is_next_nonce(ch.partner_state, sc.nonce) {
        (ch, seq![spec_withdraw_request_error(sc.total_withdraw, ErrorReason::NonceMismatch)])
    } else if sc.total_withdraw.as_nat() <= ch.partner_state.spec_total_withdraw() {
        (ch, seq![spec_withdraw_request_error(sc.total_withdraw, ErrorReason::LowerThanPrevious)])
    } else if sc.total_withdraw.as_nat() - ch.partner_state.spec_total_withdraw()
        > crate::views::spec_channel_balance(ch.partner_state, ch.our_state) {
        (ch, seq![spec_withdraw_request_error(sc.total_withdraw, ErrorReason::InsufficientBalance)])
    } else if ch.our_state.nonce.spec_inc() is None {
        (ch, seq![spec_withdraw_request_error(sc.total_withdraw, ErrorReason::NonceOverflow)])
    } else {
        let our_nonce = ch.our_state.nonce.spec_inc()->Some_0;
        let withdraw = PendingWithdrawState {
            total_withdraw: sc.total_withdraw,
            expiration: sc.expiration,
            nonce: sc.nonce,
        };
        let ch2 = ChannelStateV {
            partner_state: ChannelEndStateV {
                withdraws_pending: ch.partner_state.withdraws_pending.push(withdraw),
                nonce: sc.nonce,
                ..ch.partner_state
            },
            our_state: ChannelEndStateV { nonce: our_nonce, ..ch.our_state },
            ..ch
        };
        (
            ch2,
            seq![
                EventV::SendWithdrawConfirmation(
                    crate::event::SendWithdrawConfirmation {
                        inner: spec_inner_for(ch, None, confirm_message_identifier),
                        participant: sc.participant,
                        total_withdraw: sc.total_withdraw,
                        nonce: our_nonce,
                        expiration: sc.expiration,
                    },
                ),
            ],
        )
    }
}

/// An invalid-withdraw-request error event.
pub open spec fn spec_withdraw_request_error(total_withdraw: U256, reason: ErrorReason) -> EventV {
    EventV::ErrorInvalidReceivedWithdrawRequest(
        crate::event::ErrorInvalidReceivedWithdrawRequest {
            attemped_withdraw: total_withdraw,
            reason,
        },
    )
}

/// Applies `ReceiveWithdrawRequest` to one channel.
pub fn receive_withdraw_request(
    channel: ChannelState,
    sc: &crate::state_change::ReceiveWithdrawRequest,
    confirm_message_identifier: u64,
) -> (r: (ChannelState, Vec<Event>))
    ensures
        r.0@ == spec_receive_withdraw_request(channel@, *sc, confirm_message_identifier).0,
        spec_events(r.1@) == spec_receive_withdraw_request(
            channel@,
            *sc,
            confirm_message_identifier,
        ).1,
{
    let ghost ch0 = channel@;
    let mut events: Vec<Event> = Vec::new();
    let status = channel.status();
    let reason: Option<ErrorReason> = if status != ChannelStatus::Opened {
        Some(ErrorReason::ChannelNotOpened)
    } else if sc.participant != channel.partner_state.address || sc.sender
        != channel.partner_state.address {
        Some(ErrorReason::SenderMismatch)
    } else if !is_next_nonce(&channel.partner_state, sc.nonce) {
        Some(ErrorReason::NonceMismatch)
    } else if sc.total_withdraw.le(channel.partner_state.total_withdraw()) {
        Some(ErrorReason::LowerThanPrevious)
    } else if crate::views::channel_balance(&channel.partner_state, &channel.our_state).lt(
        sc.total_withdraw.saturating_sub(channel.partner_state.total_withdraw()),
    ) {
        Some(ErrorReason::InsufficientBalance)
    } else {
        None
    };
    match reason {
        Some(reason) => {
            events.push(
                Event::ErrorInvalidReceivedWithdrawRequest(
                    crate::event::ErrorInvalidReceivedWithdrawRequest {
                        attemped_withdraw: sc.total_withdraw,
                        reason,
                    },
                ),
            );
            proof {
                assert(spec_events(events@) =~= spec_receive_withdraw_request(ch0, *sc,
                    confirm_message_identifier).1);
            }
            (channel, events)
        },
        None => {
            let our_nonce = match channel.our_state.next_nonce() {
                Some(n) => n,
                None => {
                    events.push(
                        Event::ErrorInvalidReceivedWithdrawRequest(
                            crate::event::ErrorInvalidReceivedWithdrawRequest {
                                attemped_withdraw: sc.total_withdraw,
                                reason: ErrorReason::NonceOverflow,
                            },
                        ),
                    );
                    proof {
                        assert(spec_events(events@) =~= spec_receive_withdraw_request(ch0, *sc,
                            confirm_message_identifier).1);
                    }
                    return (channel, events);
                },
            };
            let mut channel = channel;
            channel.partner_state.withdraws_pending.push(
                PendingWithdrawState {
                    total_withdraw: sc.total_withdraw,
                    expiration: sc.expiration,
                    nonce: sc.nonce,
                },
            );
            channel.partner_state.nonce = sc.nonce;
            channel.our_state.nonce = our_nonce;
            events.push(
                Event::SendWithdrawConfirmation(
                    crate::event::SendWithdrawConfirmation {
                        inner: crate::event::SendMessageEventInner {
                            recipient: channel.partner_state.address,
                            recipient_metadata: None,
                            canonical_identifier: channel.canonical_identifier,
                            message_identifier: confirm_message_identifier,
                        },
                        participant: sc.participant,
                        total_withdraw: sc.total_withdraw,
                        nonce: our_nonce,
                        expiration: sc.expiration,
                    },
                ),
            );
            proof {
                assert(channel@ =~~= spec_receive_withdraw_request(ch0, *sc,
                    confirm_message_identifier).0);
                assert(spec_events(events@) =~= spec_receive_withdraw_request(ch0, *sc,
                    confirm_message_identifier).1);
            }
            (channel, events)
        },
    }
}

/// What `ReceiveWithdrawConfirmation` does to one channel. The partner's
/// confirmation of this side's pending withdraw makes the withdraw ready to
/// go on-chain, exactly when a pending withdraw with that total exists, the
/// confirmed expiration matches it, and the confirmation carries the
/// partner's next nonce; otherwise an
/// `ErrorInvalidReceivedWithdrawConfirmation` names the first failing
/// condition.
pub open spec fn spec_receive_withdraw_confirmation(
    ch: ChannelStateV,
    sc: crate::state_change::ReceiveWithdrawConfirmation,
    block_hash: H256,
) -> (ChannelStateV, Seq<EventV>) {
    if sc.sender != ch.partner_state.address || sc.participant != ch.our_state.address {
        (
            ch,
            seq![spec_withdraw_confirmation_error(sc.total_withdraw, ErrorReason::SenderMismatch)],
        )
    } else {
        match spec_find_withdraw(ch.our_state.withdraws_pending, sc.total_withdraw) {
            None => (
                ch,
                seq![
                    spec_withdraw_confirmation_error(
                        sc.total_withdraw,
                        ErrorReason::WithdrawNotFound,
                    ),
                ],
            ),
            Some(i) => {
                let pending = ch.our_state.withdraws_pending[i];
                if pending.expiration != sc.expiration {
                    (
                        ch,
                        seq![
                            spec_withdraw_confirmation_error(
                                sc.total_withdraw,
                                ErrorReason::ExpirationMismatch,
                            ),
                        ],
                    )
                } else if !spec_is_next_nonce(ch.partner_state, sc.nonce) {
                    (
                        ch,
                        seq![
                            spec_withdraw_confirmation_error(
                                sc.total_withdraw,
                                ErrorReason::NonceMismatch,
                            ),
                        ],
                    )
                } else {
                    let ch2 = ChannelStateV {
                        partner_state: ChannelEndStateV { nonce: sc.nonce, ..ch.partner_state },
                        ..ch
                    };
                    (
                        ch2,
                        seq![
                            EventV::ContractSendChannelWithdraw(
                                crate::event::ContractSendChannelWithdraw {
                                    inner: (crate::event::ContractSendEventInner {
                                        triggered_by_blockhash: block_hash,
                                    }),
                                    canonical_identifier: sc.canonical_identifier,
                                    total_withdraw: sc.total_withdraw,
                                    expiration: sc.expiration,
                                    partner_signature: sc.signature,
                                },
                            ),
                        ],
                    )
                }
            },
        }
    }
}

/// An invalid-withdraw-confirmation error event.
pub open spec fn spec_withdraw_confirmation_error(
    total_withdraw: U256,
    reason: ErrorReason,
) -> EventV {
    EventV::ErrorInvalidReceivedWithdrawConfirmation(
        crate::event::ErrorInvalidReceivedWithdrawConfirmation {
            attemped_withdraw: total_withdraw,
            reason,
        },
    )
}

/// Applies `ReceiveWithdrawConfirmation` to one channel.
pub fn receive_withdraw_confirmation(
    channel: ChannelState,
    sc: &crate::state_change::ReceiveWithdrawConfirmation,
    block_hash: H256,
) -> (r: (ChannelState, Vec<Event>))
    ensures
        r.0@ == spec_receive_withdraw_confirmation(channel@, *sc, block_hash).0,
        spec_events(r.1@) == spec_receive_withdraw_confirmation(channel@, *sc, block_hash).1,
{
    let ghost ch0 = channel@;
    let mut events: Vec<Event> = Vec::new();
    let reason: Option<ErrorReason> = if sc.sender != channel.partner_state.address
        || sc.participant != channel.our_state.address {
        Some(ErrorReason::SenderMismatch)
    } else {
        match crate::views::find_withdraw(&channel.our_state.withdraws_pending, sc.total_withdraw) {
            None => Some(ErrorReason::WithdrawNotFound),
            Some(i) => {
                if channel.our_state.withdraws_pending[i].expiration != sc.expiration {
                    Some(ErrorReason::ExpirationMismatch)
                } else if !is_next_nonce(&channel.partner_state, sc.nonce) {
                    Some(ErrorReason::NonceMismatch)
                } else {
                    None
                }
            },
        }
    };
    match reason {
        Some(reason) => {
            events.push(
                Event::ErrorInvalidReceivedWithdrawConfirmation(
                    crate::event::ErrorInvalidReceivedWithdrawConfirmation {
                        attemped_withdraw: sc.total_withdraw,
                        reason,
                    },
                ),
            );
            proof {
                assert(spec_events(events@) =~= spec_receive_withdraw_confirmation(ch0, *sc,
                    block_hash).1);
            }
            (channel, events)
        },
        None => {
            let mut channel = channel;
            channel.partner_state.nonce = sc.nonce;
            events.push(
                Event::ContractSendChannelWithdraw(
                    crate::event::ContractSendChannelWithdraw {
                        inner: crate::event::ContractSendEventInner {
                            triggered_by_blockhash: block_hash,
                        },
                        canonical_identifier: sc.canonical_identifier,
                        total_withdraw: sc.total_withdraw,
                        expiration: sc.expiration,
                        partner_signature: sc.signature,
                    },
                ),
            );
            proof {
                assert(channel@ =~~= spec_receive_withdraw_confirmation(ch0, *sc, block_hash).0);
                assert(spec_events(events@) =~= spec_receive_withdraw_confirmation(ch0, *sc,
                    block_hash).1);
            }
            (channel, events)
        },
    }
}

/// What `ReceiveWithdrawExpired` does to one channel. The partner's notice
/// that its own withdraw expired moves that withdraw from the partner's
/// pending set to its expired list, and a `SendProcessed` acknowledgement is
/// owed back, exactly when such a pending withdraw exists, the current block
/// has reached the withdraw's expiration threshold, and the notice carries
/// the partner's next nonce; otherwise an
/// `ErrorInvalidReceivedWithdrawExpired` names the first failing condition.
pub open spec fn spec_receive_withdraw_expired(
    ch: ChannelStateV,
    sc: crate::state_change::ReceiveWithdrawExpired,
    block_number: BlockNumber,
    processed_message_identifier: u64,
) -> (ChannelStateV, Seq<EventV>) {
    if sc.sender != ch.partner_state.address || sc.participant != ch.partner_state.address {
        (ch, seq![spec_withdraw_expired_error(sc.total_withdraw, ErrorReason::SenderMismatch)])
    } else {
        match spec_find_withdraw(ch.partner_state.withdraws_pending, sc.total_withdraw) {
            None => (
                ch,
                seq![
                    spec_withdraw_expired_error(sc.total_withdraw, ErrorReason::WithdrawNotFound),
                ],
            ),
            Some(i) => {
                let pending = ch.partner_state.withdraws_pending[i];
                if !pending.spec_has_expired(block_number) {
                    (
                        ch,
                        seq![
                            spec_withdraw_expired_error(
                                sc.total_withdraw,
                                ErrorReason::NotExpiredYet,
                            ),
                        ],
                    )
                } else if !spec_is_next_nonce(ch.partner_state, sc.nonce) {
                    (
                        ch,
                        seq![
                            spec_withdraw_expired_error(
                                sc.total_withdraw,
                                ErrorReason::NonceMismatch,
                            ),
                        ],
                    )
                } else {
                    let ch2 = ChannelStateV {
                        partner_state: ChannelEndStateV {
                            withdraws_pending: ch.partner_state.withdraws_pending.remove(i),
                            withdraws_expired: ch.partner_state.withdraws_expired.push(
                                ExpiredWithdrawState {
                                    total_withdraw: pending.total_withdraw,
                                    expiration: pending.expiration,
                                    nonce: pending.nonce,
                                },
                            ),
                            nonce: sc.nonce,
                            ..ch.partner_state
                        },
                        ..ch
                    };
                    (
                        ch2,
                        seq![
                            EventV::SendProcessed(
                                crate::event::SendProcessed {
                                    inner: spec_inner_for(ch, None, processed_message_identifier),
                                },
                            ),
                        ],
                    )
                }
            },
        }
    }
}

/// An invalid-withdraw-expired error event.
pub open spec fn spec_withdraw_expired_error(total_withdraw: U256, reason: ErrorReason) -> EventV {
    EventV::ErrorInvalidReceivedWithdrawExpired(
        crate::event::ErrorInvalidReceivedWithdrawExpired {
            attemped_withdraw: total_withdraw,
            reason,
        },
    )
}

/// Applies `ReceiveWithdrawExpired` to one channel.
pub fn receive_withdraw_expired(
    channel: ChannelState,
    sc: &crate::state_change::ReceiveWithdrawExpired,
    block_number: BlockNumber,
    processed_message_identifier: u64,
) -> (r: (ChannelState, Vec<Event>))
    ensures
        r.0@ == spec_receive_withdraw_expired(
            channel@,
            *sc,
            block_number,
            processed_message_identifier,
        ).0,
        spec_events(r.1@) == spec_receive_withdraw_expired(
            channel@,
            *sc,
            block_number,
            processed_message_identifier,
        ).1,
{
    let ghost ch0 = channel@;
    let mut events: Vec<Event> = Vec::new();
    let found: Option<usize> = if sc.sender != channel.partner_state.address || sc.participant
        != channel.partner_state.address {
        None
    } else {
        crate::views::find_withdraw(&channel.partner_state.withdraws_pending, sc.total_withdraw)
    };
    let reason: Option<ErrorReason> = if sc.sender != channel.partner_state.address
        || sc.participant != channel.partner_state.address {
        Some(ErrorReason::SenderMismatch)
    } else {
        match found {
            None => Some(ErrorReason::WithdrawNotFound),
            Some(i) => {
                if !channel.partner_state.withdraws_pending[i].has_expired(block_number) {
                    Some(ErrorReason::NotExpiredYet)
                } else if !is_next_nonce(&channel.partner_state, sc.nonce) {
                    Some(ErrorReason::NonceMismatch)
                } else {
                    None
                }
            },
        }
    };
    match reason {
        Some(reason) => {
            events.push(
                Event::ErrorInvalidReceivedWithdrawExpired(
                    crate::event::ErrorInvalidReceivedWithdrawExpired {
                        attemped_withdraw: sc.total_withdraw,
                        reason,
                    },
                ),
            );
            proof {
                assert(spec_events(events@) =~= spec_receive_withdraw_expired(ch0, *sc,
                    block_number, processed_message_identifier).1);
            }
            (channel, events)
        },
        None => {
            let i = match found {
                Some(i) => i,
                None => {
                    proof {
                        assert(false);
                    }
                    0
                },
            };
            let mut channel = channel;
            let pending = channel.partner_state.withdraws_pending[i];
            channel.partner_state.withdraws_pending.remove(i);
            channel.partner_state.withdraws_expired.push(
                ExpiredWithdrawState {
                    total_withdraw: pending.total_withdraw,
                    expiration: pending.expiration,
                    nonce: pending.nonce,
                },
            );
            channel.partner_state.nonce = sc.nonce;
            events.push(
                Event::SendProcessed(
                    crate::event::SendProcessed {
                        inner: crate::event::SendMessageEventInner {
                            recipient: channel.partner_state.address,
                            recipient_metadata: None,
                            canonical_identifier: channel.canonical_identifier,
                            message_identifier: processed_message_identifier,
                        },
                    },
                ),
            );
            proof {
                assert(channel@ =~~= spec_receive_withdraw_expired(ch0, *sc, block_number,
                    processed_message_identifier).0);
                assert(spec_events(events@) =~= spec_receive_withdraw_expired(ch0, *sc,
                    block_number, processed_message_identifier).1);
            }
            (channel, events)
        },
    }
}

/// The partner's current balance-proof amounts: transferred and locked, or
/// zero before the first balance proof.
pub open spec fn spec_current_amounts(end: ChannelEndStateV) -> (U256, U256) {
    match end.balance_proof {
        Some(bp) => (bp.transferred_amount, bp.locked_amount),
        None => (U256 { n3: 0, n2: 0, n1: 0, n0: 0 }, U256 { n3: 0, n2: 0, n1: 0, n0: 0 }),
    }
}

fn current_amounts(end: &ChannelEndState) -> (r: (U256, U256))
    ensures
        r == spec_current_amounts(end@),
{
    match &end.balance_proof {
        Some(bp) => (bp.transferred_amount, bp.locked_amount),
        None => (U256::zero(), U256::zero()),
    }
}

/// An end with the lock of this secret hash removed from the pending list
/// and from every lock collection.
pub open spec fn spec_drop_lock(end: ChannelEndStateV, pending_index: int, secrethash: SecretHash) -> ChannelEndStateV {
    let locked = match spec_find_lock(end.secrethashes_to_lockedlocks, secrethash) {
        Some(j) => end.secrethashes_to_lockedlocks.remove(j),
        None => end.secrethashes_to_lockedlocks,
    };
    let unlocked = match spec_find_unlocked(end.secrethashes_to_unlockedlocks, secrethash) {
        Some(j) => end.secrethashes_to_unlockedlocks.remove(j),
        None => end.secrethashes_to_unlockedlocks,
    };
    let onchain = match spec_find_unlocked(end.secrethashes_to_onchain_unlockedlocks, secrethash) {
        Some(j) => end.secrethashes_to_onchain_unlockedlocks.remove(j),
        None => end.secrethashes_to_onchain_unlockedlocks,
    };
    ChannelEndStateV {
        pending_locks: end.pending_locks.remove(pending_index),
        secrethashes_to_lockedlocks: locked,
        secrethashes_to_unlockedlocks: unlocked,
        secrethashes_to_onchain_unlockedlocks: onchain,
        ..end
    }
}

fn drop_lock(end: ChannelEndState, pending_index: usize, secrethash: SecretHash) -> (r:
    ChannelEndState)
    requires
        pending_index < end@.pending_locks.len(),
    ensures
        r@ == spec_drop_lock(end@, pending_index as int, secrethash),
{
    let ghost end0 = end@;
    let mut end = end;
    end.pending_locks.locks.remove(pending_index);
    match crate::views::find_lock(&end.secrethashes_to_lockedlocks, secrethash) {
        Some(j) => {
            end.secrethashes_to_lockedlocks.remove(j);
        },
        None => {},
    }
    match crate::views::find_unlocked(&end.secrethashes_to_unlockedlocks, secrethash) {
        Some(j) => {
            end.secrethashes_to_unlockedlocks.remove(j);
        },
        None => {},
    }
    match crate::views::find_unlocked(&end.secrethashes_to_onchain_unlockedlocks, secrethash) {
        Some(j) => {
            end.secrethashes_to_onchain_unlockedlocks.remove(j);
        },
        None => {},
    }
    proof {
        assert(end@ =~~= spec_drop_lock(end0, pending_index as int, secrethash));
    }
    end
}

/// An invalid-locked-transfer error event.
pub open spec fn spec_locked_transfer_error(
    payment_identifier: u64,
    reason: ErrorReason,
) -> EventV {
    EventV::ErrorInvalidReceivedLockedTransfer(
        crate::event::ErrorInvalidReceivedLockedTransfer { payment_identifier, reason },
    )
}

/// What `ReceiveLockedTransfer` does to one channel. The partner's new lock
/// is taken over, its balance proof replaces the previous one, and a
/// `SendProcessed` acknowledgement is owed (plus a `SendSecretRequest` to the
/// initiator when this node is the transfer's target), exactly when: the
/// channel is open; the sender is the partner; the balance proof carries the
/// partner's next nonce; the lock's secret hash is new; the locksroot is the
/// locksroot of the pending locks with the new lock appended; the locked
/// amount grows by exactly the lock's amount while the transferred amount is
/// unchanged; the balance hash binds those three; and the lock's amount is
/// covered by the partner's spendable balance. Otherwise an
/// `ErrorInvalidReceivedLockedTransfer` names the first failing condition and
/// the channel is unchanged. The third component tells whether the transfer
/// was taken over.
pub open spec fn spec_receive_locked_transfer(
    ch: ChannelStateV,
    sender: Address,
    our_address: Address,
    transfer: crate::state::LockedTransferStateV,
    processed_message_identifier: u64,
    request_message_identifier: u64,
) -> (ChannelStateV, Seq<EventV>, bool) {
    let bp = transfer.balance_proof;
    let lock = transfer.lock;
    let amounts = spec_current_amounts(ch.partner_state);
    if ch.spec_status() != ChannelStatus::Opened {
        (
            ch,
            seq![
                spec_locked_transfer_error(
                    transfer.payment_identifier,
                    ErrorReason::ChannelNotOpened,
                ),
            ],
            false,
        )
    } else if sender != ch.partner_state.address {
        (
            ch,
            seq![
                spec_locked_transfer_error(transfer.payment_identifier, ErrorReason::SenderMismatch),
            ],
            false,
        )
    } else if !spec_is_next_nonce(ch.partner_state, bp.nonce) {
        (
            ch,
            seq![
                spec_locked_transfer_error(transfer.payment_identifier, ErrorReason::NonceMismatch),
            ],
            false,
        )
    } else if spec_find_lock(ch.partner_state.pending_locks, lock.secrethash) is Some {
        (
            ch,
            seq![
                spec_locked_transfer_error(transfer.payment_identifier, ErrorReason::DuplicateLock),
            ],
            false,
        )
    } else if bp.locksroot != crate::state::spec_locksroot(
        ch.partner_state.pending_locks.push(lock),
    ) {
        (
            ch,
            seq![
                spec_locked_transfer_error(
                    transfer.payment_identifier,
                    ErrorReason::LocksrootMismatch,
                ),
            ],
            false,
        )
    } else if amounts.1.spec_add(lock.amount) != Some(bp.locked_amount) {
        (
            ch,
            seq![
                spec_locked_transfer_error(
                    transfer.payment_identifier,
                    ErrorReason::LockedAmountMismatch,
                ),
            ],
            false,
        )
    } else if bp.transferred_amount != amounts.0 {
        (
            ch,
            seq![
                spec_locked_transfer_error(
                    transfer.payment_identifier,
                    ErrorReason::TransferredAmountMismatch,
                ),
            ],
            false,
        )
    } else if bp.balance_hash != crate::state::spec_balance_hash(
        bp.transferred_amount,
        bp.locked_amount,
        bp.locksroot,
    ) {
        (
            ch,
            seq![
                spec_locked_transfer_error(
                    transfer.payment_identifier,
                    ErrorReason::BalanceHashMismatch,
                ),
            ],
            false,
        )
    } else if lock.amount.as_nat() > crate::views::spec_channel_balance(
        ch.partner_state,
        ch.our_state,
    ) {
        (
            ch,
            seq![
                spec_locked_transfer_error(
                    transfer.payment_identifier,
                    ErrorReason::InsufficientBalance,
                ),
            ],
            false,
        )
    } else {
        let ch2 = ChannelStateV {
            partner_state: ChannelEndStateV {
                nonce: bp.nonce,
                pending_locks: ch.partner_state.pending_locks.push(lock),
                secrethashes_to_lockedlocks: ch.partner_state.secrethashes_to_lockedlocks.push(
                    lock,
                ),
                balance_proof: Some(bp),
                ..ch.partner_state
            },
            ..ch
        };
        let processed = EventV::SendProcessed(
            crate::event::SendProcessed {
                inner: spec_inner_for(ch, None, processed_message_identifier),
            },
        );
        if transfer.target == our_address {
            (
                ch2,
                seq![
                    processed,
                    EventV::SendSecretRequest(
                        crate::event::SendSecretRequest {
                            inner: (crate::event::SendMessageEventInner {
                                recipient: transfer.initiator,
                                recipient_metadata: None,
                                canonical_identifier: ch.canonical_identifier,
                                message_identifier: request_message_identifier,
                            }),
                            payment_identifier: transfer.payment_identifier,
                            amount: lock.amount,
                            expiration: lock.expiration,
                            secrethash: lock.secrethash,
                        },
                    ),
                ],
                true,
            )
        } else {
            (ch2, seq![processed], true)
        }
    }
}

/// Applies `ReceiveLockedTransfer` to one channel.
#[verifier::rlimit(80)]
pub fn receive_locked_transfer(
    channel: ChannelState,
    sender: Address,
    our_address: Address,
    transfer: &crate::state::LockedTransferState,
    processed_message_identifier: u64,
    request_message_identifier: u64,
) -> (r: (ChannelState, Vec<Event>, bool))
    ensures
        r.0@ == spec_receive_locked_transfer(
            channel@,
            sender,
            our_address,
            transfer@,
            processed_message_identifier,
            request_message_identifier,
        ).0,
        spec_events(r.1@) == spec_receive_locked_transfer(
            channel@,
            sender,
            our_address,
            transfer@,
            processed_message_identifier,
            request_message_identifier,
        ).1,
        r.2 == spec_receive_locked_transfer(
            channel@,
            sender,
            our_address,
            transfer@,
            processed_message_identifier,
            request_message_identifier,
        ).2,
{
    let ghost ch0 = channel@;
    let mut events: Vec<Event> = Vec::new();
    let bp = transfer.balance_proof;
    let lock = transfer.lock;
    let amounts = current_amounts(&channel.partner_state);
    let status = channel.status();
    let reason: Option<ErrorReason> = if status != ChannelStatus::Opened {
        Some(ErrorReason::ChannelNotOpened)
    } else if sender != channel.partner_state.address {
        Some(ErrorReason::SenderMismatch)
    } else if !is_next_nonce(&channel.partner_state, bp.nonce) {
        Some(ErrorReason::NonceMismatch)
    } else if crate::views::find_lock(
        &channel.partner_state.pending_locks.locks,
        lock.secrethash,
    ).is_some() {
        Some(ErrorReason::DuplicateLock)
    } else {
        let mut with_lock = crate::state::PendingLocksState {
            locks: crate::state::clone_locks(&channel.partner_state.pending_locks.locks),
        };
        with_lock.locks.push(lock);
        proof {
            assert(with_lock@ =~= channel.partner_state.pending_locks@.push(lock));
        }
        let locksroot = crate::state::compute_locksroot(&with_lock);
        if bp.locksroot != locksroot {
            Some(ErrorReason::LocksrootMismatch)
        } else if amounts.1.checked_add(lock.amount) != Some(bp.locked_amount) {
            Some(ErrorReason::LockedAmountMismatch)
        } else if bp.transferred_amount != amounts.0 {
            Some(ErrorReason::TransferredAmountMismatch)
        } else if bp.balance_hash != crate::state::compute_balance_hash(
            bp.transferred_amount,
            bp.locked_amount,
            bp.locksroot,
        ) {
            Some(ErrorReason::BalanceHashMismatch)
        } else if crate::views::channel_balance(&channel.partner_state, &channel.our_state).lt(
            lock.amount,
        ) {
            Some(ErrorReason::InsufficientBalance)
        } else {
            None
        }
    };
    match reason {
        Some(reason) => {
            events.push(
                Event::ErrorInvalidReceivedLockedTransfer(
                    crate::event::ErrorInvalidReceivedLockedTransfer {
                        payment_identifier: transfer.payment_identifier,
                        reason,
                    },
                ),
            );
            proof {
                assert(spec_events(events@) =~= spec_receive_locked_transfer(ch0, sender,
                    our_address, transfer@, processed_message_identifier,
                    request_message_identifier).1);
            }
            (channel, events, false)
        },
        None => {
            let mut channel = channel;
            channel.partner_state.nonce = bp.nonce;
            channel.partner_state.pending_locks.locks.push(lock);
            channel.partner_state.secrethashes_to_lockedlocks.push(lock);
            channel.partner_state.balance_proof = Some(bp);
            events.push(
                Event::SendProcessed(
                    crate::event::SendProcessed {
                        inner: crate::event::SendMessageEventInner {
                            recipient: channel.partner_state.address,
                            recipient_metadata: None,
                            canonical_identifier: channel.canonical_identifier,
                            message_identifier: processed_message_identifier,
                        },
                    },
                ),
            );
            if transfer.target == our_address {
                events.push(
                    Event::SendSecretRequest(
                        crate::event::SendSecretRequest {
                            inner: crate::event::SendMessageEventInner {
                                recipient: transfer.initiator,
                                recipient_metadata: None,
                                canonical_identifier: channel.canonical_identifier,
                                message_identifier: request_message_identifier,
                            },
                            payment_identifier: transfer.payment_identifier,
                            amount: lock.amount,
                            expiration: lock.expiration,
                            secrethash: lock.secrethash,
                        },
                    ),
                );
            }
            proof {
                assert(channel@ =~~= spec_receive_locked_transfer(ch0, sender, our_address,
                    transfer@, processed_message_identifier, request_message_identifier).0);
                assert(spec_events(events@) =~= spec_receive_locked_transfer(ch0, sender,
                    our_address, transfer@, processed_message_identifier,
                    request_message_identifier).1);
            }
            (channel, events, true)
        },
    }
}

/// An invalid-unlock error event.
pub open spec fn spec_unlock_error(secrethash: SecretHash, reason: ErrorReason) -> EventV {
    EventV::ErrorInvalidReceivedUnlock(
        crate::event::ErrorInvalidReceivedUnlock { secrethash, reason },
    )
}

/// What `ReceiveUnlock` does to one channel. The partner's claim settlement
/// for a revealed lock is taken over — the lock leaves every collection, the
/// balance proof moves the lock's amount from locked to transferred — and a
/// `SendProcessed` acknowledgement is owed, exactly when: the channel is
/// open; the sender is the partner; a pending lock with the secret hash
/// exists; the secret hashes to the secret hash; the balance proof carries
/// the partner's next nonce; the locksroot is the locksroot of the pending
/// locks without that lock; the transferred amount grows and the locked
/// amount shrinks by exactly the lock's amount; and the balance hash binds
/// the three. Otherwise an `ErrorInvalidReceivedUnlock` names the first
/// failing condition. The third component tells whether the unlock was taken
/// over.
pub open spec fn spec_receive_unlock(
    ch: ChannelStateV,
    sc: crate::state_change::ReceiveUnlock,
    processed_message_identifier: u64,
) -> (ChannelStateV, Seq<EventV>, bool) {
    let bp = sc.balance_proof;
    let amounts = spec_current_amounts(ch.partner_state);
    if ch.spec_status() != ChannelStatus::Opened {
        (ch, seq![spec_unlock_error(sc.secrethash, ErrorReason::ChannelNotOpened)], false)
    } else if sc.sender != ch.partner_state.address {
        (ch, seq![spec_unlock_error(sc.secrethash, ErrorReason::SenderMismatch)], false)
    } else {
        match spec_find_lock(ch.partner_state.pending_locks, sc.secrethash) {
            None => (ch, seq![spec_unlock_error(sc.secrethash, ErrorReason::LockNotFound)], false),
            Some(i) => {
                let lock = ch.partner_state.pending_locks[i];
                if crate::hashing::spec_secret_hash(sc.secret) != sc.secrethash {
                    (ch, seq![spec_unlock_error(sc.secrethash, ErrorReason::SecretMismatch)], false)
                } else if !spec_is_next_nonce(ch.partner_state, bp.nonce) {
                    (ch, seq![spec_unlock_error(sc.secrethash, ErrorReason::NonceMismatch)], false)
                } else if bp.locksroot != crate::state::spec_locksroot(
                    ch.partner_state.pending_locks.remove(i),
                ) {
                    (
                        ch,
                        seq![spec_unlock_error(sc.secrethash, ErrorReason::LocksrootMismatch)],
                        false,
                    )
                } else if amounts.0.spec_add(lock.amount) != Some(bp.transferred_amount) {
                    (
                        ch,
                        seq![
                            spec_unlock_error(sc.secrethash, ErrorReason::TransferredAmountMismatch),
                        ],
                        false,
                    )
                } else if amounts.1.spec_sub(lock.amount) != Some(bp.locked_amount) {
                    (
                        ch,
                        seq![spec_unlock_error(sc.secrethash, ErrorReason::LockedAmountMismatch)],
                        false,
                    )
                } else if bp.balance_hash != crate::state::spec_balance_hash(
                    bp.transferred_amount,
                    bp.locked_amount,
                    bp.locksroot,
                ) {
                    (
                        ch,
                        seq![spec_unlock_error(sc.secrethash, ErrorReason::BalanceHashMismatch)],
                        false,
                    )
                } else {
                    let end = spec_drop_lock(ch.partner_state, i, sc.secrethash);
                    let ch2 = ChannelStateV {
                        partner_state: ChannelEndStateV {
                            nonce: bp.nonce,
                            balance_proof: Some(bp),
                            ..end
                        },
                        ..ch
                    };
                    (
                        ch2,
                        seq![
                            EventV::SendProcessed(
                                crate::event::SendProcessed {
                                    inner: spec_inner_for(ch, None, processed_message_identifier),
                                },
                            ),
                        ],
                        true,
                    )
                }
            },
        }
    }
}

/// Applies `ReceiveUnlock` to one channel.
#[verifier::rlimit(80)]
pub fn receive_unlock(
    channel: ChannelState,
    sc: &crate::state_change::ReceiveUnlock,
    processed_message_identifier: u64,
) -> (r: (ChannelState, Vec<Event>, bool))
    ensures
        r.0@ == spec_receive_unlock(channel@, *sc, processed_message_identifier).0,
        spec_events(r.1@) == spec_receive_unlock(channel@, *sc, processed_message_identifier).1,
        r.2 == spec_receive_unlock(channel@, *sc, processed_message_identifier).2,
{
    let ghost ch0 = channel@;
    let mut events: Vec<Event> = Vec::new();
    let bp = sc.balance_proof;
    let amounts = current_amounts(&channel.partner_state);
    let status = channel.status();
    let found = if status != ChannelStatus::Opened || sc.sender != channel.partner_state.address {
        None
    } else {
        crate::views::find_lock(&channel.partner_state.pending_locks.locks, sc.secrethash)
    };
    let reason: Option<ErrorReason> = if status != ChannelStatus::Opened {
        Some(ErrorReason::ChannelNotOpened)
    } else if sc.sender != channel.partner_state.address {
        Some(ErrorReason::SenderMismatch)
    } else {
        match found {
            None => Some(ErrorReason::LockNotFound),
            Some(i) => {
                let lock = channel.partner_state.pending_locks.locks[i];
                let mut without = crate::state::PendingLocksState {
                    locks: crate::state::clone_locks(&channel.partner_state.pending_locks.locks),
                };
                without.locks.remove(i);
                proof {
                    assert(without@ =~= channel.partner_state.pending_locks@.remove(i as int));
                }
                if crate::hashing::secret_hash(sc.secret) != sc.secrethash {
                    Some(ErrorReason::SecretMismatch)
                } else if !is_next_nonce(&channel.partner_state, bp.nonce) {
                    Some(ErrorReason::NonceMismatch)
                } else if bp.locksroot != crate::state::compute_locksroot(&without) {
                    Some(ErrorReason::LocksrootMismatch)
                } else if amounts.0.checked_add(lock.amount) != Some(bp.transferred_amount) {
                    Some(ErrorReason::TransferredAmountMismatch)
                } else if amounts.1.checked_sub(lock.amount) != Some(bp.locked_amount) {
                    Some(ErrorReason::LockedAmountMismatch)
                } else if bp.balance_hash != crate::state::compute_balance_hash(
                    bp.transferred_amount,
                    bp.locked_amount,
                    bp.locksroot,
                ) {
                    Some(ErrorReason::BalanceHashMismatch)
                } else {
                    None
                }
            },
        }
    };
    match reason {
        Some(reason) => {
            events.push(
                Event::ErrorInvalidReceivedUnlock(
                    crate::event::ErrorInvalidReceivedUnlock { secrethash: sc.secrethash, reason },
                ),
            );
            proof {
                assert(spec_events(events@) =~= spec_receive_unlock(ch0, *sc,
                    processed_message_identifier).1);
            }
            (channel, events, false)
        },
        None => {
            let i = match found {
                Some(i) => i,
                None => {
                    proof {
                        assert(false);
                    }
                    0
                },
            };
            let mut channel = channel;
            let partner = channel.partner_state;
            let mut partner = drop_lock(partner, i, sc.secrethash);
            partner.nonce = bp.nonce;
            partner.balance_proof = Some(bp);
            channel.partner_state = partner;
            events.push(
                Event::SendProcessed(
                    crate::event::SendProcessed {
                        inner: crate::event::SendMessageEventInner {
                            recipient: channel.partner_state.address,
                            recipient_metadata: None,
                            canonical_identifier: channel.canonical_identifier,
                            message_identifier: processed_message_identifier,
                        },
                    },
                ),
            );
            proof {
                assert(channel@ =~~= spec_receive_unlock(ch0, *sc,
                    processed_message_identifier).0);
                assert(spec_events(events@) =~= spec_receive_unlock(ch0, *sc,
                    processed_message_identifier).1);
            }
            (channel, events, true)
        },
    }
}

/// An invalid-lock-expired error event.
pub open spec fn spec_lock_expired_error(secrethash: SecretHash, reason: ErrorReason) -> EventV {
    EventV::ErrorInvalidReceivedLockExpired(
        crate::event::ErrorInvalidReceivedLockExpired { secrethash, reason },
    )
}

/// What `ReceiveLockExpired` does to one channel. The partner's retraction
/// of an expired lock is taken over — the lock leaves every collection, the
/// balance proof drops the lock's amount from locked — and a `SendProcessed`
/// acknowledgement is owed, exactly when: the sender is the partner; a
/// pending lock with the secret hash exists; the current block has passed
/// the lock's expiration by the confirmation margin; the balance proof
/// carries the partner's next nonce; the locksroot is the locksroot of the
/// pending locks without that lock; the locked amount shrinks by exactly the
/// lock's amount while the transferred amount is unchanged; and the balance
/// hash binds the three. Otherwise an `ErrorInvalidReceivedLockExpired`
/// names the first failing condition.
pub open spec fn spec_receive_lock_expired(
    ch: ChannelStateV,
    sc: crate::state_change::ReceiveLockExpired,
    block_number: BlockNumber,
    processed_message_identifier: u64,
) -> (ChannelStateV, Seq<EventV>) {
    let bp = sc.balance_proof;
    let amounts = spec_current_amounts(ch.partner_state);
    if sc.sender != ch.partner_state.address {
        (ch, seq![spec_lock_expired_error(sc.secrethash, ErrorReason::SenderMismatch)])
    } else {
        match spec_find_lock(ch.partner_state.pending_locks, sc.secrethash) {
            None => (ch, seq![spec_lock_expired_error(sc.secrethash, ErrorReason::LockNotFound)]),
            Some(i) => {
                let lock = ch.partner_state.pending_locks[i];
                if !(lock.expiration + crate::state::DEFAULT_NUMBER_OF_BLOCK_CONFIRMATIONS
                    <= block_number) {
                    (ch, seq![spec_lock_expired_error(sc.secrethash, ErrorReason::NotExpiredYet)])
                } else if !spec_is_next_nonce(ch.partner_state, bp.nonce) {
                    (ch, seq![spec_lock_expired_error(sc.secrethash, ErrorReason::NonceMismatch)])
                } else if bp.locksroot != crate::state::spec_locksroot(
                    ch.partner_state.pending_locks.remove(i),
                ) {
                    (
                        ch,
                        seq![spec_lock_expired_error(sc.secrethash, ErrorReason::LocksrootMismatch)],
                    )
                } else if amounts.1.spec_sub(lock.amount) != Some(bp.locked_amount) {
                    (
                        ch,
                        seq![
                            spec_lock_expired_error(
                                sc.secrethash,
                                ErrorReason::LockedAmountMismatch,
                            ),
                        ],
                    )
                } else if bp.transferred_amount != amounts.0 {
                    (
                        ch,
                        seq![
                            spec_lock_expired_error(
                                sc.secrethash,
                                ErrorReason::TransferredAmountMismatch,
                            ),
                        ],
                    )
                } else if bp.balance_hash != crate::state::spec_balance_hash(
                    bp.transferred_amount,
                    bp.locked_amount,
                    bp.locksroot,
                ) {
                    (
                        ch,
                        seq![
                            spec_lock_expired_error(sc.secrethash, ErrorReason::BalanceHashMismatch),
                        ],
                    )
                } else {
                    let end = spec_drop_lock(ch.partner_state, i, sc.secrethash);
                    let ch2 = ChannelStateV {
                        partner_state: ChannelEndStateV {
                            nonce: bp.nonce,
                            balance_proof: Some(bp),
                            ..end
                        },
                        ..ch
                    };
                    (
                        ch2,
                        seq![
                            EventV::SendProcessed(
                                crate::event::SendProcessed {
                                    inner: spec_inner_for(ch, None, processed_message_identifier),
                                },
                            ),
                        ],
                    )
                }
            },
        }
    }
}

/// Applies `ReceiveLockExpired` to one channel.
#[verifier::rlimit(80)]
pub fn receive_lock_expired(
    channel: ChannelState,
    sc: &crate::state_change::ReceiveLockExpired,
    block_number: BlockNumber,
    processed_message_identifier: u64,
) -> (r: (ChannelState, Vec<Event>))
    ensures
        r.0@ == spec_receive_lock_expired(
            channel@,
            *sc,
            block_number,
            processed_message_identifier,
        ).0,
        spec_events(r.1@) == spec_receive_lock_expired(
            channel@,
            *sc,
            block_number,
            processed_message_identifier,
        ).1,
{
    let ghost ch0 = channel@;
    let mut events: Vec<Event> = Vec::new();
    let bp = sc.balance_proof;
    let amounts = current_amounts(&channel.partner_state);
    let found = if sc.sender != channel.partner_state.address {
        None
    } else {
        crate::views::find_lock(&channel.partner_state.pending_locks.locks, sc.secrethash)
    };
    let reason: Option<ErrorReason> = if sc.sender != channel.partner_state.address {
        Some(ErrorReason::SenderMismatch)
    } else {
        match found {
            None => Some(ErrorReason::LockNotFound),
            Some(i) => {
                let lock = channel.partner_state.pending_locks.locks[i];
                let mut without = crate::state::PendingLocksState {
                    locks: crate::state::clone_locks(&channel.partner_state.pending_locks.locks),
                };
                without.locks.remove(i);
                proof {
                    assert(without@ =~= channel.partner_state.pending_locks@.remove(i as int));
                }
                if !(lock.expiration <= u64::MAX
                    - crate::state::DEFAULT_NUMBER_OF_BLOCK_CONFIRMATIONS && lock.expiration
                    + crate::state::DEFAULT_NUMBER_OF_BLOCK_CONFIRMATIONS <= block_number) {
                    Some(ErrorReason::NotExpiredYet)
                } else if !is_next_nonce(&channel.partner_state, bp.nonce) {
                    Some(ErrorReason::NonceMismatch)
                } else if bp.locksroot != crate::state::compute_locksroot(&without) {
                    Some(ErrorReason::LocksrootMismatch)
                } else if amounts.1.checked_sub(lock.amount) != Some(bp.locked_amount) {
                    Some(ErrorReason::LockedAmountMismatch)
                } else if bp.transferred_amount != amounts.0 {
                    Some(ErrorReason::TransferredAmountMismatch)
                } else if bp.balance_hash != crate::state::compute_balance_hash(
                    bp.transferred_amount,
                    bp.locked_amount,
                    bp.locksroot,
                ) {
                    Some(ErrorReason::BalanceHashMismatch)
                } else {
                    None
                }
            },
        }
    };
    match reason {
        Some(reason) => {
            events.push(
                Event::ErrorInvalidReceivedLockExpired(
                    crate::event::ErrorInvalidReceivedLockExpired {
                        secrethash: sc.secrethash,
                        reason,
                    },
                ),
            );
            proof {
                assert(spec_events(events@) =~= spec_receive_lock_expired(ch0, *sc, block_number,
                    processed_message_identifier).1);
            }
            (channel, events)
        },
        None => {
            let i = match found {
                Some(i) => i,
                None => {
                    proof {
                        assert(false);
                    }
                    0
                },
            };
            let mut channel = channel;
            let partner = channel.partner_state;
            let mut partner = drop_lock(partner, i, sc.secrethash);
            partner.nonce = bp.nonce;
            partner.balance_proof = Some(bp);
            channel.partner_state = partner;
            events.push(
                Event::SendProcessed(
                    crate::event::SendProcessed {
                        inner: crate::event::SendMessageEventInner {
                            recipient: channel.partner_state.address,
                            recipient_metadata: None,
                            canonical_identifier: channel.canonical_identifier,
                            message_identifier: processed_message_identifier,
                        },
                    },
                ),
            );
            proof {
                assert(channel@ =~~= spec_receive_lock_expired(ch0, *sc, block_number,
                    processed_message_identifier).0);
                assert(spec_events(events@) =~= spec_receive_lock_expired(ch0, *sc, block_number,
                    processed_message_identifier).1);
            }
            (channel, events)
        },
    }
}

/// A failed-payment error event.
pub open spec fn spec_payment_failed(
    transfer: crate::state::TransferDescriptionWithSecretState,
    reason: ErrorReason,
) -> EventV {
    EventV::ErrorPaymentSentFailed(
        crate::event::ErrorPaymentSentFailed {
            token_network_registry_address: transfer.token_network_registry_address,
            token_network_address: transfer.token_network_address,
            identifier: transfer.payment_identifier,
            target: transfer.target,
            reason,
        },
    )
}

/// What starting a transfer does to the chosen channel. A new lock expiring
/// two reveal timeouts ahead is appended, this side's balance proof commits
/// to it with the next nonce, the grown locked amount and the new locksroot,
/// and a `SendLockedTransfer` is owed, exactly when the channel is open, the
/// amount is covered by this side's spendable balance, and neither the nonce
/// nor the locked amount overflows; otherwise an `ErrorPaymentSentFailed`
/// names the first failing condition. The third component tells whether the
/// transfer was sent.
#[verifier::opaque]
pub open spec fn spec_send_locked_transfer(
    ch: ChannelStateV,
    transfer: crate::state::TransferDescriptionWithSecretState,
    routes: Seq<crate::state::RouteStateV>,
    recipient_metadata: Option<crate::event::AddressMetadata>,
    block_number: BlockNumber,
    message_identifier: u64,
) -> (ChannelStateV, Seq<EventV>, bool) {
    let amounts = spec_current_amounts(ch.our_state);
    if ch.spec_status() != ChannelStatus::Opened {
        (ch, seq![spec_payment_failed(transfer, ErrorReason::ChannelNotOpened)], false)
    } else if transfer.amount.as_nat() > crate::views::spec_channel_balance(
        ch.our_state,
        ch.partner_state,
    ) {
        (ch, seq![spec_payment_failed(transfer, ErrorReason::InsufficientBalance)], false)
    } else if ch.our_state.nonce.spec_inc() is None {
        (ch, seq![spec_payment_failed(transfer, ErrorReason::NonceOverflow)], false)
    } else if amounts.1.spec_add(transfer.amount) is None {
        (ch, seq![spec_payment_failed(transfer, ErrorReason::LockedAmountMismatch)], false)
    } else {
        let nonce = ch.our_state.nonce.spec_inc()->Some_0;
        let expiration = spec_block_add(block_number, 2 * ch.reveal_timeout);
        let lock = crate::state::HashTimeLockState {
            amount: transfer.amount,
            expiration,
            secrethash: transfer.secrethash,
        };
        let pending = ch.our_state.pending_locks.push(lock);
        let locksroot = crate::state::spec_locksroot(pending);
        let locked_amount = amounts.1.spec_add(transfer.amount)->Some_0;
        let bp = crate::state::BalanceProofState {
            nonce,
            transferred_amount: amounts.0,
            locked_amount,
            locksroot,
            canonical_identifier: ch.canonical_identifier,
            balance_hash: crate::state::spec_balance_hash(amounts.0, locked_amount, locksroot),
            message_hash: None,
            signature: None,
            sender: Some(ch.our_state.address),
        };
        let ch2 = ChannelStateV {
            our_state: ChannelEndStateV {
                nonce,
                pending_locks: pending,
                secrethashes_to_lockedlocks: ch.our_state.secrethashes_to_lockedlocks.push(lock),
                balance_proof: Some(bp),
                ..ch.our_state
            },
            ..ch
        };
        (
            ch2,
            seq![
                EventV::SendLockedTransfer(
                    crate::event::SendLockedTransferV {
                        inner: spec_inner_for(ch, recipient_metadata, message_identifier),
                        transfer: (crate::state::LockedTransferStateV {
                            payment_identifier: transfer.payment_identifier,
                            token: ch.token_address,
                            lock,
                            initiator: transfer.initiator,
                            target: transfer.target,
                            message_identifier,
                            route_states: routes,
                            balance_proof: bp,
                        }),
                    },
                ),
            ],
            true,
        )
    }
}

/// Starts a transfer on the chosen channel.
#[verifier::rlimit(80)]
pub fn send_locked_transfer(
    channel: ChannelState,
    transfer: &crate::state::TransferDescriptionWithSecretState,
    routes: Vec<crate::state::RouteState>,
    recipient_metadata: Option<crate::event::AddressMetadata>,
    block_number: BlockNumber,
    message_identifier: u64,
) -> (r: (ChannelState, Vec<Event>, bool))
    ensures
        ({
            let s = spec_send_locked_transfer(
                channel@,
                *transfer,
                routes@.map_values(|x: crate::state::RouteState| x@),
                recipient_metadata,
                block_number,
                message_identifier,
            );
            r.0@ == s.0 && spec_events(r.1@) == s.1 && r.2 == s.2
        }),
{
    let ghost ch0 = channel@;
    let ghost routesv = routes@.map_values(|x: crate::state::RouteState| x@);
    let mut events: Vec<Event> = Vec::new();
    let amounts = current_amounts(&channel.our_state);
    let status = channel.status();
    let reason: Option<ErrorReason> = if status != ChannelStatus::Opened {
        Some(ErrorReason::ChannelNotOpened)
    } else if crate::views::channel_balance(&channel.our_state, &channel.partner_state).lt(
        transfer.amount,
    ) {
        Some(ErrorReason::InsufficientBalance)
    } else if channel.our_state.next_nonce().is_none() {
        Some(ErrorReason::NonceOverflow)
    } else if amounts.1.checked_add(transfer.amount).is_none() {
        Some(ErrorReason::LockedAmountMismatch)
    } else {
        None
    };
    match reason {
        Some(reason) => {
            events.push(
                Event::ErrorPaymentSentFailed(
                    crate::event::ErrorPaymentSentFailed {
                        token_network_registry_address: transfer.token_network_registry_address,
                        token_network_address: transfer.token_network_address,
                        identifier: transfer.payment_identifier,
                        target: transfer.target,
                        reason,
                    },
                ),
            );
            proof {
                reveal(spec_send_locked_transfer);
                assert(spec_events(events@) =~= spec_send_locked_transfer(ch0, *transfer, routesv,
                    recipient_metadata, block_number, message_identifier).1);
            }
            (channel, events, false)
        },
        None => {
            let mut channel = channel;
            let nonce = channel.our_state.next_nonce().unwrap();
            let expiration = block_add_twice(block_number, channel.reveal_timeout);
            let lock = crate::state::HashTimeLockState {
                amount: transfer.amount,
                expiration,
                secrethash: transfer.secrethash,
            };
            channel.our_state.pending_locks.locks.push(lock);
            channel.our_state.secrethashes_to_lockedlocks.push(lock);
            let locksroot = crate::state::compute_locksroot(&channel.our_state.pending_locks);
            let locked_amount = amounts.1.checked_add(transfer.amount).unwrap();
            let balance_hash = crate::state::compute_balance_hash(
                amounts.0,
                locked_amount,
                locksroot,
            );
            let bp = crate::state::BalanceProofState {
                nonce,
                transferred_amount: amounts.0,
                locked_amount,
                locksroot,
                canonical_identifier: channel.canonical_identifier,
                balance_hash,
                message_hash: None,
                signature: None,
                sender: Some(channel.our_state.address),
            };
            channel.our_state.nonce = nonce;
            channel.our_state.balance_proof = Some(bp);
            events.push(
                Event::SendLockedTransfer(
                    crate::event::SendLockedTransfer {
                        inner: crate::event::SendMessageEventInner {
                            recipient: channel.partner_state.address,
                            recipient_metadata,
                            canonical_identifier: channel.canonical_identifier,
                            message_identifier,
                        },
                        transfer: crate::state::LockedTransferState {
                            payment_identifier: transfer.payment_identifier,
                            token: channel.token_address,
                            lock,
                            initiator: transfer.initiator,
                            target: transfer.target,
                            message_identifier,
                            route_states: routes,
                            balance_proof: bp,
                        },
                    },
                ),
            );
            proof {
                reveal(spec_send_locked_transfer);
                assert(channel@ =~~= spec_send_locked_transfer(ch0, *transfer, routesv,
                    recipient_metadata, block_number, message_identifier).0);
                assert(spec_events(events@) =~~= spec_send_locked_transfer(ch0, *transfer,
                    routesv, recipient_metadata, block_number, message_identifier).1);
            }
            (channel, events, true)
        },
    }
}

/// A failed-unlock error event.
pub open spec fn spec_unlock_failed(
    identifier: u64,
    secrethash: SecretHash,
    reason: ErrorReason,
) -> EventV {
    EventV::ErrorUnlockFailed(
        crate::event::ErrorUnlockFailed { identifier, secrethash, reason },
    )
}

/// What settling a revealed lock does to this side of the channel. The lock
/// leaves every collection, the balance proof moves its amount from locked
/// to transferred with the next nonce, and a `SendUnlock` is owed, exactly
/// when the channel is open, a pending lock with the secret hash exists, and
/// no amount or nonce overflows; otherwise an `ErrorUnlockFailed` names the
/// first failing condition. The third component tells whether the unlock was
/// sent.
pub open spec fn spec_send_unlock(
    ch: ChannelStateV,
    payment_identifier: u64,
    secret: Secret,
    secrethash: SecretHash,
    message_identifier: u64,
) -> (ChannelStateV, Seq<EventV>, bool) {
    let amounts = spec_current_amounts(ch.our_state);
    if ch.spec_status() != ChannelStatus::Opened {
        (
            ch,
            seq![
                spec_unlock_failed(payment_identifier, secrethash, ErrorReason::ChannelNotOpened),
            ],
            false,
        )
    } else {
        match spec_find_lock(ch.our_state.pending_locks, secrethash) {
            None => (
                ch,
                seq![
                    spec_unlock_failed(payment_identifier, secrethash, ErrorReason::LockNotFound),
                ],
                false,
            ),
            Some(i) => {
                let lock = ch.our_state.pending_locks[i];
                if ch.our_state.nonce.spec_inc() is None {
                    (
                        ch,
                        seq![
                            spec_unlock_failed(
                                payment_identifier,
                                secrethash,
                                ErrorReason::NonceOverflow,
                            ),
                        ],
                        false,
                    )
                } else if amounts.0.spec_add(lock.amount) is None {
                    (
                        ch,
                        seq![
                            spec_unlock_failed(
                                payment_identifier,
                                secrethash,
                                ErrorReason::TransferredAmountMismatch,
                            ),
                        ],
                        false,
                    )
                } else if amounts.1.spec_sub(lock.amount) is None {
                    (
                        ch,
                        seq![
                            spec_unlock_failed(
                                payment_identifier,
                                secrethash,
                                ErrorReason::LockedAmountMismatch,
                            ),
                        ],
                        false,
                    )
                } else {
                    let nonce = ch.our_state.nonce.spec_inc()->Some_0;
                    let end = spec_drop_lock(ch.our_state, i, secrethash);
                    let locksroot = crate::state::spec_locksroot(end.pending_locks);
                    let transferred = amounts.0.spec_add(lock.amount)->Some_0;
                    let locked = amounts.1.spec_sub(lock.amount)->Some_0;
                    let bp = crate::state::BalanceProofState {
                        nonce,
                        transferred_amount: transferred,
                        locked_amount: locked,
                        locksroot,
                        canonical_identifier: ch.canonical_identifier,
                        balance_hash: crate::state::spec_balance_hash(
                            transferred,
                            locked,
                            locksroot,
                        ),
                        message_hash: None,
                        signature: None,
                        sender: Some(ch.our_state.address),
                    };
                    let ch2 = ChannelStateV {
                        our_state: ChannelEndStateV { nonce, balance_proof: Some(bp), ..end },
                        ..ch
                    };
                    (
                        ch2,
                        seq![
                            EventV::SendUnlock(
                                crate::event::SendUnlock {
                                    inner: spec_inner_for(ch, None, message_identifier),
                                    payment_identifier,
                                    token_address: ch.token_address,
                                    balance_proof: bp,
                                    secret,
                                    secrethash,
                                },
                            ),
                        ],
                        true,
                    )
                }
            },
        }
    }
}

/// Settles a revealed lock by sending the partner a new balance proof.
#[verifier::rlimit(80)]
pub fn send_unlock(
    channel: ChannelState,
    payment_identifier: u64,
    secret: Secret,
    secrethash: SecretHash,
    message_identifier: u64,
) -> (r: (ChannelState, Vec<Event>, bool))
    ensures
        ({
            let s = spec_send_unlock(
                channel@,
                payment_identifier,
                secret,
                secrethash,
                message_identifier,
            );
            r.0@ == s.0 && spec_events(r.1@) == s.1 && r.2 == s.2
        }),
{
    let ghost ch0 = channel@;
    let mut events: Vec<Event> = Vec::new();
    let amounts = current_amounts(&channel.our_state);
    let status = channel.status();
    let found = if status != ChannelStatus::Opened {
        None
    } else {
        crate::views::find_lock(&channel.our_state.pending_locks.locks, secrethash)
    };
    let reason: Option<ErrorReason> = if status != ChannelStatus::Opened {
        Some(ErrorReason::ChannelNotOpened)
    } else {
        match found {
            None => Some(ErrorReason::LockNotFound),
            Some(i) => {
                let lock = channel.our_state.pending_locks.locks[i];
                if channel.our_state.next_nonce().is_none() {
                    Some(ErrorReason::NonceOverflow)
                } else if amounts.0.checked_add(lock.amount).is_none() {
                    Some(ErrorReason::TransferredAmountMismatch)
                } else if amounts.1.checked_sub(lock.amount).is_none() {
                    Some(ErrorReason::LockedAmountMismatch)
                } else {
                    None
                }
            },
        }
    };
    match reason {
        Some(reason) => {
            events.push(
                Event::ErrorUnlockFailed(
                    crate::event::ErrorUnlockFailed {
                        identifier: payment_identifier,
                        secrethash,
                        reason,
                    },
                ),
            );
            proof {
                assert(spec_events(events@) =~= spec_send_unlock(ch0, payment_identifier, secret,
                    secrethash, message_identifier).1);
            }
            (channel, events, false)
        },
        None => {
            let i = match found {
                Some(i) => i,
                None => {
                    proof {
                        assert(false);
                    }
                    0
                },
            };
            let mut channel = channel;
            let lock = channel.our_state.pending_locks.locks[i];
            let nonce = channel.our_state.next_nonce().unwrap();
            let ours = channel.our_state;
            let mut ours = drop_lock(ours, i, secrethash);
            let locksroot = crate::state::compute_locksroot(&ours.pending_locks);
            let transferred = amounts.0.checked_add(lock.amount).unwrap();
            let locked = amounts.1.checked_sub(lock.amount).unwrap();
            let balance_hash = crate::state::compute_balance_hash(transferred, locked, locksroot);
            let bp = crate::state::BalanceProofState {
                nonce,
                transferred_amount: transferred,
                locked_amount: locked,
                locksroot,
                canonical_identifier: channel.canonical_identifier,
                balance_hash,
                message_hash: None,
                signature: None,
                sender: Some(ours.address),
            };
            ours.nonce = nonce;
            ours.balance_proof = Some(bp);
            channel.our_state = ours;
            events.push(
                Event::SendUnlock(
                    crate::event::SendUnlock {
                        inner: crate::event::SendMessageEventInner {
                            recipient: channel.partner_state.address,
                            recipient_metadata: None,
                            canonical_identifier: channel.canonical_identifier,
                            message_identifier,
                        },
                        payment_identifier,
                        token_address: channel.token_address,
                        balance_proof: bp,
                        secret,
                        secrethash,
                    },
                ),
            );
            proof {
                assert(channel@ =~~= spec_send_unlock(ch0, payment_identifier, secret, secrethash,
                    message_identifier).0);
                assert(spec_events(events@) =~= spec_send_unlock(ch0, payment_identifier, secret,
                    secrethash, message_identifier).1);
            }
            (channel, events, true)
        },
    }
}

/// What an off-chain secret reveal does to the partner's side: a locked lock
/// with that secret hash becomes an unlocked lock holding the secret.
pub open spec fn spec_register_offchain_secret(
    ch: ChannelStateV,
    secret: Secret,
    secrethash: SecretHash,
) -> ChannelStateV {
    match spec_find_lock(ch.partner_state.secrethashes_to_lockedlocks, secrethash) {
        None => ch,
        Some(i) => {
            let lock = ch.partner_state.secrethashes_to_lockedlocks[i];
            ChannelStateV {
                partner_state: ChannelEndStateV {
                    secrethashes_to_lockedlocks:
                        ch.partner_state.secrethashes_to_lockedlocks.remove(i),
                    secrethashes_to_unlockedlocks:
                        ch.partner_state.secrethashes_to_unlockedlocks.push(
                        UnlockPartialProofState {
                            lock,
                            secret,
                            amount: lock.amount,
                            expiration: lock.expiration,
                            secrethash,
                        },
                    ),
                    ..ch.partner_state
                },
                ..ch
            }
        },
    }
}

/// Records an off-chain revealed secret on the partner's side.
pub fn register_offchain_secret(
    channel: ChannelState,
    secret: Secret,
    secrethash: SecretHash,
) -> (r: ChannelState)
    ensures
        r@ == spec_register_offchain_secret(channel@, secret, secrethash),
{
    let ghost ch0 = channel@;
    let mut channel = channel;
    match crate::views::find_lock(&channel.partner_state.secrethashes_to_lockedlocks, secrethash) {
        None => {},
        Some(i) => {
            let lock = channel.partner_state.secrethashes_to_lockedlocks[i];
            channel.partner_state.secrethashes_to_lockedlocks.remove(i);
            channel.partner_state.secrethashes_to_unlockedlocks.push(
                UnlockPartialProofState {
                    lock,
                    secret,
                    amount: lock.amount,
                    expiration: lock.expiration,
                    secrethash,
                },
            );
        },
    }
    proof {
        assert(channel@ =~~= spec_register_offchain_secret(ch0, secret, secrethash));
    }
    channel
}

/// Concatenates two event lists.
pub fn append_events(a: Vec<Event>, b: Vec<Event>) -> (r: Vec<Event>)
    ensures
        spec_events(r@) == spec_events(a@) + spec_events(b@),
{
    let ghost a0 = a@;
    let ghost b0 = b@;
    let mut out = a;
    let mut rem = b;
    proof {
        assert(spec_events(out@) + spec_events(rem@) =~= spec_events(a0) + spec_events(b0));
    }
    while rem.len() > 0
        invariant
            spec_events(out@) + spec_events(rem@) == spec_events(a0) + spec_events(b0),
        decreases rem@.len(),
    {
        let e = rem.remove(0);
        out.push(e);
        proof {
            assert(spec_events(out@) + spec_events(rem@) =~= spec_events(a0) + spec_events(b0));
        }
    }
    proof {
        assert(spec_events(rem@) =~= Seq::<EventV>::empty());
        assert(spec_events(out@) =~= spec_events(a0) + spec_events(b0));
    }
    out
}

/// What a new block does to this side's pending withdraws, scanned in
/// order: each withdraw past its expiration threshold moves to the expired
/// list and is announced with a fresh nonce and message identifier; the
/// others stay pending in order.
pub open spec fn spec_expire_withdraws(
    ws: Seq<PendingWithdrawState>,
    end: ChannelEndStateV,
    recipient: Address,
    canonical_identifier: crate::packing::CanonicalIdentifier,
    block_number: BlockNumber,
    rng: crate::state::Random,
) -> (ChannelEndStateV, crate::state::Random, Seq<EventV>)
    decreases ws.len(),
{
    if ws.len() == 0 {
        (end, rng, Seq::empty())
    } else {
        let w = ws[0];
        if !w.spec_has_expired(block_number) || end.nonce.spec_inc() is None {
            spec_expire_withdraws(
                ws.drop_first(),
                ChannelEndStateV { withdraws_pending: end.withdraws_pending.push(w), ..end },
                recipient,
                canonical_identifier,
                block_number,
                rng,
            )
        } else {
            let nonce = end.nonce.spec_inc()->Some_0;
            let mid = crate::state::spec_rng_next(rng.seed);
            let end2 = ChannelEndStateV {
                withdraws_expired: end.withdraws_expired.push(
                    ExpiredWithdrawState {
                        total_withdraw: w.total_withdraw,
                        expiration: w.expiration,
                        nonce: w.nonce,
                    },
                ),
                nonce,
                ..end
            };
            let ev = EventV::SendWithdrawExpired(
                crate::event::SendWithdrawExpired {
                    inner: (crate::event::SendMessageEventInner {
                        recipient,
                        recipient_metadata: None,
                        canonical_identifier,
                        message_identifier: mid,
                    }),
                    participant: end.address,
                    total_withdraw: w.total_withdraw,
                    nonce,
                    expiration: w.expiration,
                },
            );
            let rec = spec_expire_withdraws(
                ws.drop_first(),
                end2,
                recipient,
                canonical_identifier,
                block_number,
                crate::state::Random { seed: mid },
            );
            (rec.0, rec.1, seq![ev] + rec.2)
        }
    }
}

fn expire_withdraws(
    ws: &Vec<PendingWithdrawState>,
    i: usize,
    end: ChannelEndState,
    recipient: Address,
    canonical_identifier: crate::packing::CanonicalIdentifier,
    block_number: BlockNumber,
    rng: crate::state::Random,
) -> (r: (ChannelEndState, crate::state::Random, Vec<Event>))
    requires
        i <= ws@.len(),
    ensures
        ({
            let s = spec_expire_withdraws(
                ws@.skip(i as int),
                end@,
                recipient,
                canonical_identifier,
                block_number,
                rng,
            );
            r.0@ == s.0 && r.1 == s.1 && spec_events(r.2@) == s.2
        }),
    decreases ws@.len() - i,
{
    let ghost end0 = end@;
    if i == ws.len() {
        proof {
            assert(ws@.skip(i as int).len() == 0);
            assert(spec_events(Seq::<Event>::empty()) =~= Seq::<EventV>::empty());
        }
        (end, rng, Vec::new())
    } else {
        proof {
            assert(ws@.skip(i as int)[0] == ws@[i as int]);
            assert(ws@.skip(i as int).drop_first() =~= ws@.skip(i + 1));
        }
        let w = ws[i];
        if !w.has_expired(block_number) || end.next_nonce().is_none() {
            let mut end = end;
            end.withdraws_pending.push(w);
            proof {
                assert(end@ =~~= (ChannelEndStateV {
                    withdraws_pending: end0.withdraws_pending.push(w),
                    ..end0
                }));
            }
            expire_withdraws(ws, i + 1, end, recipient, canonical_identifier, block_number, rng)
        } else {
            let nonce = end.next_nonce().unwrap();
            let ghost rng0 = rng;
            let mut rng = rng;
            let mid = rng.next();
            let mut end = end;
            end.withdraws_expired.push(
                ExpiredWithdrawState {
                    total_withdraw: w.total_withdraw,
                    expiration: w.expiration,
                    nonce: w.nonce,
                },
            );
            end.nonce = nonce;
            let ev = Event::SendWithdrawExpired(
                crate::event::SendWithdrawExpired {
                    inner: crate::event::SendMessageEventInner {
                        recipient,
                        recipient_metadata: None,
                        canonical_identifier,
                        message_identifier: mid,
                    },
                    participant: end.address,
                    total_withdraw: w.total_withdraw,
                    nonce,
                    expiration: w.expiration,
                },
            );
            let rec = expire_withdraws(
                ws,
                i + 1,
                end,
                recipient,
                canonical_identifier,
                block_number,
                rng,
            );
            let mut events = rec.2;
            events.insert(0, ev);
            proof {
                let s = spec_expire_withdraws(ws@.skip(i as int), end0, recipient,
                    canonical_identifier, block_number, rng0);
                assert(spec_events(events@) =~= s.2);
            }
            (rec.0, rec.1, events)
        }
    }
}

/// What expiring one lock does to this side: the lock leaves the lock
/// collections and the balance proof drops its amount from locked, against
/// the locksroot of the remaining pending locks.
#[verifier::opaque]
pub open spec fn spec_expire_lock_now(
    end: ChannelEndStateV,
    l: crate::state::HashTimeLockState,
    remaining: Seq<crate::state::HashTimeLockState>,
    recipient: Address,
    canonical_identifier: crate::packing::CanonicalIdentifier,
    mid: u64,
) -> (ChannelEndStateV, EventV) {
    let amounts = spec_current_amounts(end);
    let nonce = end.nonce.spec_inc()->Some_0;
    let locksroot = crate::state::spec_locksroot(remaining);
    let locked = amounts.1.spec_sub(l.amount)->Some_0;
    let bp = crate::state::BalanceProofState {
        nonce,
        transferred_amount: amounts.0,
        locked_amount: locked,
        locksroot,
        canonical_identifier,
        balance_hash: crate::state::spec_balance_hash(amounts.0, locked, locksroot),
        message_hash: None,
        signature: None,
        sender: Some(end.address),
    };
    let lockedmap = match spec_find_lock(end.secrethashes_to_lockedlocks, l.secrethash) {
        Some(j) => end.secrethashes_to_lockedlocks.remove(j),
        None => end.secrethashes_to_lockedlocks,
    };
    let unlockedmap = match spec_find_unlocked(end.secrethashes_to_unlockedlocks, l.secrethash) {
        Some(j) => end.secrethashes_to_unlockedlocks.remove(j),
        None => end.secrethashes_to_unlockedlocks,
    };
    let end2 = ChannelEndStateV {
        nonce,
        balance_proof: Some(bp),
        secrethashes_to_lockedlocks: lockedmap,
        secrethashes_to_unlockedlocks: unlockedmap,
        ..end
    };
    let ev = EventV::SendLockExpired(
        crate::event::SendLockExpired {
            inner: (crate::event::SendMessageEventInner {
                recipient,
                recipient_metadata: None,
                canonical_identifier,
                message_identifier: mid,
            }),
            balance_proof: bp,
            secrethash: l.secrethash,
        },
    );
    (end2, ev)
}

/// Expires one lock of this side.
fn expire_lock_now(
    end: ChannelEndState,
    l: crate::state::HashTimeLockState,
    remaining: Vec<crate::state::HashTimeLockState>,
    recipient: Address,
    canonical_identifier: crate::packing::CanonicalIdentifier,
    mid: u64,
) -> (r: (ChannelEndState, Event))
    requires
        end@.nonce.spec_inc() is Some,
        spec_current_amounts(end@).1.spec_sub(l.amount) is Some,
    ensures
        r.0@ == spec_expire_lock_now(end@, l, remaining@, recipient, canonical_identifier, mid).0,
        r.1@ == spec_expire_lock_now(end@, l, remaining@, recipient, canonical_identifier, mid).1,
{
    let ghost end0 = end@;
    let amounts = current_amounts(&end);
    let nonce = end.next_nonce().unwrap();
    let locksroot = crate::state::compute_locksroot(
        &crate::state::PendingLocksState { locks: remaining },
    );
    let locked = amounts.1.checked_sub(l.amount).unwrap();
    let balance_hash = crate::state::compute_balance_hash(amounts.0, locked, locksroot);
    let bp = crate::state::BalanceProofState {
        nonce,
        transferred_amount: amounts.0,
        locked_amount: locked,
        locksroot,
        canonical_identifier,
        balance_hash,
        message_hash: None,
        signature: None,
        sender: Some(end.address),
    };
    let mut end = end;
    match crate::views::find_lock(&end.secrethashes_to_lockedlocks, l.secrethash) {
        Some(j) => {
            end.secrethashes_to_lockedlocks.remove(j);
        },
        None => {},
    }
    match crate::views::find_unlocked(&end.secrethashes_to_unlockedlocks, l.secrethash) {
        Some(j) => {
            end.secrethashes_to_unlockedlocks.remove(j);
        },
        None => {},
    }
    end.nonce = nonce;
    end.balance_proof = Some(bp);
    let ev = Event::SendLockExpired(
        crate::event::SendLockExpired {
            inner: crate::event::SendMessageEventInner {
                recipient,
                recipient_metadata: None,
                canonical_identifier,
                message_identifier: mid,
            },
            balance_proof: bp,
            secrethash: l.secrethash,
        },
    );
    proof {
        reveal(spec_expire_lock_now);
        assert(end@ =~~= spec_expire_lock_now(end0, l, remaining@, recipient,
            canonical_identifier, mid).0);
    }
    (end, ev)
}

/// What a new block does to this side's pending locks, scanned in order:
/// each lock past its expiration threshold leaves the pending set and the
/// lock collections, the balance proof drops its amount from locked with a
/// fresh nonce, and the retraction is announced; the others stay pending in
/// order. `kept` holds the locks already scanned and kept.
pub open spec fn spec_expire_locks(
    rest: Seq<crate::state::HashTimeLockState>,
    kept: Seq<crate::state::HashTimeLockState>,
    end: ChannelEndStateV,
    recipient: Address,
    canonical_identifier: crate::packing::CanonicalIdentifier,
    block_number: BlockNumber,
    rng: crate::state::Random,
) -> (ChannelEndStateV, crate::state::Random, Seq<EventV>)
    decreases rest.len(),
{
    if rest.len() == 0 {
        (ChannelEndStateV { pending_locks: kept, ..end }, rng, Seq::empty())
    } else {
        let l = rest[0];
        let amounts = spec_current_amounts(end);
        let expired = l.expiration + 2 * crate::state::DEFAULT_NUMBER_OF_BLOCK_CONFIRMATIONS
            <= block_number;
        if !expired || end.nonce.spec_inc() is None || amounts.1.spec_sub(l.amount) is None {
            spec_expire_locks(
                rest.drop_first(),
                kept.push(l),
                end,
                recipient,
                canonical_identifier,
                block_number,
                rng,
            )
        } else {
            let mid = crate::state::spec_rng_next(rng.seed);
            let remaining = kept + rest.drop_first();
            let step = spec_expire_lock_now(end, l, remaining, recipient, canonical_identifier, mid);
            let rec = spec_expire_locks(
                rest.drop_first(),
                kept,
                step.0,
                recipient,
                canonical_identifier,
                block_number,
                crate::state::Random { seed: mid },
            );
            (rec.0, rec.1, seq![step.1] + rec.2)
        }
    }
}

#[verifier::rlimit(100)]
fn expire_locks(
    rest: &Vec<crate::state::HashTimeLockState>,
    i: usize,
    kept: Vec<crate::state::HashTimeLockState>,
    end: ChannelEndState,
    recipient: Address,
    canonical_identifier: crate::packing::CanonicalIdentifier,
    block_number: BlockNumber,
    rng: crate::state::Random,
) -> (r: (ChannelEndState, crate::state::Random, Vec<Event>))
    requires
        i <= rest@.len(),
    ensures
        ({
            let s = spec_expire_locks(
                rest@.skip(i as int),
                kept@,
                end@,
                recipient,
                canonical_identifier,
                block_number,
                rng,
            );
            r.0@ == s.0 && r.1 == s.1 && spec_events(r.2@) == s.2
        }),
    decreases rest@.len() - i,
{
    let ghost end0 = end@;
    let ghost kept0 = kept@;
    if i == rest.len() {
        let mut end = end;
        end.pending_locks = crate::state::PendingLocksState { locks: kept };
        proof {
            assert(rest@.skip(i as int).len() == 0);
            assert(end@ =~~= (ChannelEndStateV { pending_locks: kept0, ..end0 }));
            assert(spec_events(Seq::<Event>::empty()) =~= Seq::<EventV>::empty());
        }
        (end, rng, Vec::new())
    } else {
        proof {
            assert(rest@.skip(i as int)[0] == rest@[i as int]);
            assert(rest@.skip(i as int).drop_first() =~= rest@.skip(i + 1));
        }
        let l = rest[i];
        let amounts = current_amounts(&end);
        let expired = l.expiration <= u64::MAX - 2
            * crate::state::DEFAULT_NUMBER_OF_BLOCK_CONFIRMATIONS && l.expiration + 2
            * crate::state::DEFAULT_NUMBER_OF_BLOCK_CONFIRMATIONS <= block_number;
        if !expired || end.next_nonce().is_none() || amounts.1.checked_sub(l.amount).is_none() {
            let mut kept = kept;
            kept.push(l);
            expire_locks(
                rest,
                i + 1,
                kept,
                end,
                recipient,
                canonical_identifier,
                block_number,
                rng,
            )
        } else {
            let ghost rng0 = rng;
            let mut rng = rng;
            let mid = rng.next();
            let mut remaining = crate::state::clone_locks(&kept);
            let mut k: usize = i + 1;
            while k < rest.len()
                invariant
                    i + 1 <= k <= rest@.len(),
                    remaining@ == kept@ + rest@.subrange(i + 1, k as int),
                decreases rest@.len() - k,
            {
                remaining.push(rest[k]);
                k = k + 1;
                proof {
                    assert(remaining@ =~= kept@ + rest@.subrange(i + 1, k as int));
                }
            }
            proof {
                assert(rest@.subrange(i + 1, rest@.len() as int) =~= rest@.skip(i + 1));
                assert(remaining@ =~= kept@ + rest@.skip(i as int).drop_first());
            }
            let step = expire_lock_now(end, l, remaining, recipient, canonical_identifier, mid);
            let end = step.0;
            let ev = step.1;
            let rec = expire_locks(
                rest,
                i + 1,
                kept,
                end,
                recipient,
                canonical_identifier,
                block_number,
                rng,
            );
            let mut events = rec.2;
            events.insert(0, ev);
            proof {
                let s = spec_expire_locks(rest@.skip(i as int), kept0, end0, recipient,
                    canonical_identifier, block_number, rng0);
                assert(spec_events(events@) =~= s.2);
            }
            (rec.0, rec.1, events)
        }
    }
}

/// What a new block does to one channel: this side's pending withdraws and
/// pending locks past their thresholds are expired, each exactly once.
#[verifier::opaque]
pub open spec fn spec_channel_block(
    ch: ChannelStateV,
    block_number: BlockNumber,
    rng: crate::state::Random,
) -> (ChannelStateV, crate::state::Random, Seq<EventV>) {
    let w = spec_expire_withdraws(
        ch.our_state.withdraws_pending,
        ChannelEndStateV { withdraws_pending: Seq::empty(), ..ch.our_state },
        ch.partner_state.address,
        ch.canonical_identifier,
        block_number,
        rng,
    );
    let l = spec_expire_locks(
        w.0.pending_locks,
        Seq::empty(),
        ChannelEndStateV { pending_locks: Seq::empty(), ..w.0 },
        ch.partner_state.address,
        ch.canonical_identifier,
        block_number,
        w.1,
    );
    (ChannelStateV { our_state: l.0, ..ch }, l.1, w.2 + l.2)
}

/// Applies a new block to one channel.
pub fn channel_block(
    channel: ChannelState,
    block_number: BlockNumber,
    rng: crate::state::Random,
) -> (r: (ChannelState, crate::state::Random, Vec<Event>))
    ensures
        ({
            let s = spec_channel_block(channel@, block_number, rng);
            r.0@ == s.0 && r.1 == s.1 && spec_events(r.2@) == s.2
        }),
{
    let ghost ch0 = channel@;
    let mut channel = channel;
    let recipient = channel.partner_state.address;
    let canonical_identifier = channel.canonical_identifier;
    let mut ours = channel.our_state;
    let ws = ours.withdraws_pending;
    ours.withdraws_pending = Vec::new();
    proof {
        assert(ours@ =~~= (ChannelEndStateV {
            withdraws_pending: Seq::empty(),
            ..ch0.our_state
        }));
        assert(ws@.skip(0) =~= ch0.our_state.withdraws_pending);
    }
    let w = expire_withdraws(&ws, 0, ours, recipient, canonical_identifier, block_number, rng);
    let mut mid = w.0;
    let locks = mid.pending_locks.locks;
    mid.pending_locks = crate::state::PendingLocksState { locks: Vec::new() };
    proof {
        assert(locks@.skip(0) =~= locks@);
    }
    let l = expire_locks(
        &locks,
        0,
        Vec::new(),
        mid,
        recipient,
        canonical_identifier,
        block_number,
        w.1,
    );
    channel.our_state = l.0;
    let events = append_events(w.2, l.2);
    proof {
        reveal(spec_channel_block);
        let s = spec_channel_block(ch0, block_number, rng);
        assert(channel@ =~~= s.0);
        assert(spec_events(events@) =~= s.2);
    }
    (channel, l.1, events)
}

} // verus!
