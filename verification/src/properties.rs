//! The laws the reducer obeys, stated and proved over its specification:
//! determinism, replay equivalence, nonce monotonicity, locksroot and
//! balance-hash consistency, one-way channel status, and queue discipline.

use vstd::prelude::*;

use crate::chain::{
    spec_dequeue_entry, spec_enqueue_one, spec_transition, spec_without_message,
};
use crate::channel::{
    spec_action_withdraw, spec_apply_channel_closed, spec_apply_channel_settled,
    spec_apply_update_transfer, spec_receive_locked_transfer, spec_receive_unlock,
    spec_send_locked_transfer, spec_send_unlock,
};
use crate::event::{AddressMetadata, EventV, SendMessageEventV};
use crate::state::{
    spec_balance_hash, spec_locksroot, ChainStateV, ChannelEndStateV, ChannelStateV,
    ChannelStatus, QueueEntryV,
};
use crate::state_change::StateChange;
use crate::storage::spec_replay;
use crate::types::{Address, U256};

verus! {

/// Replay reproduces state exactly: two results of `transition` on equal
/// inputs are equal, because the contract pins each to the same
/// specification value.
pub proof fn lemma_transition_deterministic(
    cs: ChainStateV,
    state_change: StateChange,
    first: (ChainStateV, Seq<EventV>),
    second: (ChainStateV, Seq<EventV>),
)
    requires
        first == spec_transition(cs, state_change),
        second == spec_transition(cs, state_change),
    ensures
        first == second,
{
}

/// Reloading from a snapshot taken after the first `i` state changes and
/// replaying the rest ends in the same state as the original run.
pub proof fn lemma_replay_equivalence(cs: ChainStateV, changes: Seq<StateChange>, i: int)
    requires
        0 <= i <= changes.len(),
    ensures
        spec_replay(cs, changes) == spec_replay(
            spec_replay(cs, changes.take(i)),
            changes.skip(i),
        ),
    decreases i,
{
    if i == 0 {
        assert(changes.take(0) =~= Seq::<StateChange>::empty());
        assert(changes.skip(0) =~= changes);
    } else {
        let first = changes[0];
        let rest = changes.drop_first();
        assert(changes.take(i)[0] == first);
        assert(changes.take(i).drop_first() =~= rest.take(i - 1));
        assert(changes.skip(i) =~= rest.skip(i - 1));
        lemma_replay_equivalence(spec_transition(cs, first).0, rest, i - 1);
    }
}

/// The value meaning of the limb-level sum: when it fits, the result's
/// value is the sum of the values.
pub proof fn lemma_spec_add_value(a: U256, b: U256)
    ensures
        match a.spec_add(b) {
            Some(s) => s.as_nat() == a.as_nat() + b.as_nat(),
            None => a.as_nat() + b.as_nat()
                >= 0x1_0000_0000_0000_0000_0000_0000_0000_0000_0000_0000_0000_0000_0000_0000_0000_0000,
        },
{
    let base: int = 0x1_0000_0000_0000_0000;
    let s0 = a.n0 + b.n0;
    let s1 = a.n1 + b.n1 + s0 / base;
    let s2 = a.n2 + b.n2 + s1 / base;
    let s3 = a.n3 + b.n3 + s2 / base;
    vstd::arithmetic::div_mod::lemma_fundamental_div_mod(s0, base);
    vstd::arithmetic::div_mod::lemma_fundamental_div_mod(s1, base);
    vstd::arithmetic::div_mod::lemma_fundamental_div_mod(s2, base);
    vstd::arithmetic::div_mod::lemma_fundamental_div_mod(s3, base);
}

/// Nonce monotonicity at the receiving side: a taken-over transfer advances
/// the partner's nonce to exactly its successor; a rejected one leaves the
/// channel unchanged.
pub proof fn lemma_locked_transfer_nonce(
    ch: ChannelStateV,
    sender: Address,
    our_address: Address,
    transfer: crate::state::LockedTransferStateV,
    mid1: u64,
    mid2: u64,
)
    ensures
        ({
            let h = spec_receive_locked_transfer(ch, sender, our_address, transfer, mid1, mid2);
            if h.2 {
                ch.partner_state.nonce.spec_inc() == Some(h.0.partner_state.nonce)
            } else {
                h.0 == ch
            }
        }),
{
}

/// Nonce monotonicity at the sending side: a sent transfer advances this
/// side's nonce to exactly its successor; a refused one leaves the channel
/// unchanged.
pub proof fn lemma_send_locked_transfer_nonce(
    ch: ChannelStateV,
    transfer: crate::state::TransferDescriptionWithSecretState,
    routes: Seq<crate::state::RouteStateV>,
    recipient_metadata: Option<AddressMetadata>,
    block_number: u64,
    message_identifier: u64,
)
    ensures
        ({
            let h = spec_send_locked_transfer(
                ch,
                transfer,
                routes,
                recipient_metadata,
                block_number,
                message_identifier,
            );
            if h.2 {
                ch.our_state.nonce.spec_inc() == Some(h.0.our_state.nonce)
            } else {
                h.0 == ch
            }
        }),
{
    reveal(crate::channel::spec_send_locked_transfer);
}

/// Nonce monotonicity under unlocks, both directions.
pub proof fn lemma_unlock_nonce(
    ch: ChannelStateV,
    sc: crate::state_change::ReceiveUnlock,
    payment_identifier: u64,
    secret: crate::types::Secret,
    secrethash: crate::types::SecretHash,
    mid: u64,
)
    ensures
        ({
            let h = spec_receive_unlock(ch, sc, mid);
            h.2 ==> ch.partner_state.nonce.spec_inc() == Some(h.0.partner_state.nonce)
        }),
        ({
            let h = spec_send_unlock(ch, payment_identifier, secret, secrethash, mid);
            h.2 ==> ch.our_state.nonce.spec_inc() == Some(h.0.our_state.nonce)
        }),
{
}

/// Whether a channel end's balance proof commits to exactly its pending
/// locks: the locksroot is the Keccak digest of their encodings, and the
/// balance hash binds the transferred amount, the locked amount and that
/// locksroot. An end without a balance proof has no pending locks.
pub open spec fn spec_end_consistent(end: ChannelEndStateV) -> bool {
    match end.balance_proof {
        Some(bp) => bp.locksroot == spec_locksroot(end.pending_locks) && bp.balance_hash
            == spec_balance_hash(bp.transferred_amount, bp.locked_amount, bp.locksroot),
        None => end.pending_locks.len() == 0,
    }
}

/// Locksroot and balance-hash consistency is preserved by taking over a
/// locked transfer, an unlock, and by sending either.
#[verifier::rlimit(100)]
pub proof fn lemma_balance_proof_consistency(
    ch: ChannelStateV,
    sender: Address,
    our_address: Address,
    transfer: crate::state::LockedTransferStateV,
    unlock: crate::state_change::ReceiveUnlock,
    description: crate::state::TransferDescriptionWithSecretState,
    routes: Seq<crate::state::RouteStateV>,
    recipient_metadata: Option<AddressMetadata>,
    block_number: u64,
    payment_identifier: u64,
    secret: crate::types::Secret,
    secrethash: crate::types::SecretHash,
    mid1: u64,
    mid2: u64,
)
    requires
        spec_end_consistent(ch.our_state),
        spec_end_consistent(ch.partner_state),
    ensures
        spec_end_consistent(
            spec_receive_locked_transfer(
                ch,
                sender,
                our_address,
                transfer,
                mid1,
                mid2,
            ).0.partner_state,
        ),
        spec_end_consistent(spec_receive_unlock(ch, unlock, mid1).0.partner_state),
        spec_end_consistent(
            spec_send_locked_transfer(
                ch,
                description,
                routes,
                recipient_metadata,
                block_number,
                mid1,
            ).0.our_state,
        ),
        spec_end_consistent(
            spec_send_unlock(ch, payment_identifier, secret, secrethash, mid1).0.our_state,
        ),
{
    reveal(crate::channel::spec_send_locked_transfer);
}

/// The one-way order of channel statuses: a status never moves backwards,
/// though an intermediate one may become unusable.
pub open spec fn spec_status_rank(s: ChannelStatus) -> int {
    match s {
        ChannelStatus::Opened => 0,
        ChannelStatus::Closing => 1,
        ChannelStatus::Closed => 2,
        ChannelStatus::Settling => 3,
        ChannelStatus::Settled => 4,
        ChannelStatus::Removed => 5,
        ChannelStatus::Unusable => 6,
    }
}

/// Whether a status change respects the one-way lifecycle.
pub open spec fn spec_status_order_ok(old_status: ChannelStatus, new_status: ChannelStatus) -> bool {
    spec_status_rank(new_status) >= spec_status_rank(old_status) || new_status
        == ChannelStatus::Unusable
}

/// No channel status regression: observing a close, a settlement or a
/// balance-proof update on-chain never moves a usable channel's status
/// backwards.
pub proof fn lemma_no_status_regression(
    ch: ChannelStateV,
    closed: crate::state_change::ContractReceiveChannelClosed,
    settled: crate::state_change::ContractReceiveChannelSettled,
    updated: crate::state_change::ContractReceiveUpdateTransfer,
    our_address: Address,
    empty_locksroot: crate::types::H256,
)
    requires
        ch.spec_status() != ChannelStatus::Unusable,
    ensures
        spec_status_order_ok(
            ch.spec_status(),
            spec_apply_channel_closed(ch, closed, our_address).0.spec_status(),
        ),
        spec_status_order_ok(
            ch.spec_status(),
            spec_apply_channel_settled(ch, settled, empty_locksroot).0.spec_status(),
        ),
        spec_status_order_ok(
            ch.spec_status(),
            spec_apply_update_transfer(ch, updated).spec_status(),
        ),
{
}

/// The queue keeps arrival order: enqueueing a message event appends it to
/// its queue and touches no other queue, so of two messages to the same
/// recipient and channel the earlier one stays in front.
pub proof fn lemma_queue_fifo(qs: Seq<QueueEntryV>, ev: EventV)
    ensures
        ({
            let qs2 = spec_enqueue_one(qs, ev);
            match crate::event::spec_send_message_event(ev) {
                None => qs2 == qs,
                Some(m) => {
                    let qid = m.spec_queue_identifier();
                    match crate::views::spec_find_queue(qs, qid) {
                        Some(i) => qs2[i].events == qs[i].events.push(m) && forall|j: int|
                            0 <= j < qs.len() && j != i ==> qs2[j] == qs[j],
                        None => qs2 == qs.push(
                            QueueEntryV { queue_identifier: qid, events: seq![m] },
                        ),
                    }
                },
            }
        }),
{
    let qs2 = spec_enqueue_one(qs, ev);
    match crate::event::spec_send_message_event(ev) {
        None => {
        },
        Some(m) => {
            let qid = m.spec_queue_identifier();
            match crate::views::spec_find_queue(qs, qid) {
                Some(i) => {
                    lemma_find_queue_in_range(qs, qid, i);
                    assert(qs2 == qs.update(
                        i,
                        QueueEntryV { events: qs[i].events.push(m), ..qs[i] },
                    ));
                    assert(forall|j: int| 0 <= j < qs.len() && j != i ==> qs2[j] == qs[j]);
                },
                None => {
                },
            }
        },
    }
}

/// A found queue index is in range.
proof fn lemma_find_queue_in_range(
    qs: Seq<QueueEntryV>,
    qid: crate::state::QueueIdentifier,
    i: int,
)
    requires
        crate::views::spec_find_queue(qs, qid) == Some(i),
    ensures
        0 <= i < qs.len(),
        qs[i].queue_identifier == qid,
    decreases qs.len(),
{
    if qs.len() == 0 {
    } else if qs[0].queue_identifier == qid {
    } else {
        lemma_find_queue_in_range(qs.drop_first(), qid, i - 1);
        assert(qs.drop_first()[i - 1] == qs[i]);
    }
}

/// An acknowledgement removes exactly the acknowledged identifier: what a
/// sender's queue holds afterwards is its previous content filtered of that
/// identifier, order kept; other senders' queues are untouched.
pub proof fn lemma_ack_removes_only_acked(evs: Seq<SendMessageEventV>, message_identifier: u64)
    ensures
        spec_without_message(evs, message_identifier) == evs.filter(
            |m: SendMessageEventV| m.spec_message_identifier() != message_identifier,
        ),
    decreases evs.len(),
{
    reveal(Seq::filter);
    if evs.len() == 0 {
        assert(spec_without_message(evs, message_identifier) =~= evs.filter(
            |m: SendMessageEventV| m.spec_message_identifier() != message_identifier,
        ));
    } else {
        lemma_ack_removes_only_acked(evs.drop_last(), message_identifier);
    }
}

/// A queue entry not addressed to the acknowledging sender is untouched by
/// the acknowledgement.
pub proof fn lemma_ack_other_queues_untouched(
    q: QueueEntryV,
    sender: Address,
    message_identifier: u64,
)
    requires
        q.queue_identifier.recipient != sender,
    ensures
        spec_dequeue_entry(q, sender, message_identifier) == q,
{
}


/// Locksroot and balance-hash consistency is preserved by taking over a
/// partner's lock retraction.
pub proof fn lemma_lock_expired_consistency(
    ch: ChannelStateV,
    sc: crate::state_change::ReceiveLockExpired,
    block_number: u64,
    mid: u64,
)
    requires
        spec_end_consistent(ch.partner_state),
    ensures
        spec_end_consistent(
            crate::channel::spec_receive_lock_expired(ch, sc, block_number, mid).0.partner_state,
        ),
{
}

/// Locksroot and balance-hash consistency is preserved by the withdraw
/// sweep of a new block: only nonces and withdraw collections change.
pub proof fn lemma_expire_withdraws_consistent(
    ws: Seq<crate::state::PendingWithdrawState>,
    end: ChannelEndStateV,
    recipient: Address,
    canonical_identifier: crate::packing::CanonicalIdentifier,
    block_number: u64,
    rng: crate::state::Random,
)
    requires
        spec_end_consistent(end),
    ensures
        spec_end_consistent(
            crate::channel::spec_expire_withdraws(
                ws,
                end,
                recipient,
                canonical_identifier,
                block_number,
                rng,
            ).0,
        ),
    decreases ws.len(),
{
    if ws.len() == 0 {
    } else {
        let w = ws[0];
        if !w.spec_has_expired(block_number) || end.nonce.spec_inc() is None {
            lemma_expire_withdraws_consistent(
                ws.drop_first(),
                ChannelEndStateV { withdraws_pending: end.withdraws_pending.push(w), ..end },
                recipient,
                canonical_identifier,
                block_number,
                rng,
            );
        } else {
            let nonce = end.nonce.spec_inc()->Some_0;
            let mid = crate::state::spec_rng_next(rng.seed);
            let end2 = ChannelEndStateV {
                withdraws_expired: end.withdraws_expired.push(
                    crate::state::ExpiredWithdrawState {
                        total_withdraw: w.total_withdraw,
                        expiration: w.expiration,
                        nonce: w.nonce,
                    },
                ),
                nonce,
                ..end
            };
            lemma_expire_withdraws_consistent(
                ws.drop_first(),
                end2,
                recipient,
                canonical_identifier,
                block_number,
                crate::state::Random { seed: mid },
            );
        }
    }
}

/// Locksroot and balance-hash consistency is preserved by the lock sweep of
/// a new block: the balance proof always commits to the locks that stay.
pub proof fn lemma_expire_locks_consistent(
    rest: Seq<crate::state::HashTimeLockState>,
    kept: Seq<crate::state::HashTimeLockState>,
    end: ChannelEndStateV,
    recipient: Address,
    canonical_identifier: crate::packing::CanonicalIdentifier,
    block_number: u64,
    rng: crate::state::Random,
)
    requires
        match end.balance_proof {
            Some(bp) => bp.locksroot == spec_locksroot(kept + rest) && bp.balance_hash
                == spec_balance_hash(bp.transferred_amount, bp.locked_amount, bp.locksroot),
            None => (kept + rest).len() == 0,
        },
    ensures
        spec_end_consistent(
            crate::channel::spec_expire_locks(
                rest,
                kept,
                end,
                recipient,
                canonical_identifier,
                block_number,
                rng,
            ).0,
        ),
    decreases rest.len(),
{
    reveal(crate::channel::spec_expire_lock_now);
    if rest.len() == 0 {
        assert(kept + rest =~= kept);
    } else {
        let l = rest[0];
        let amounts = crate::channel::spec_current_amounts(end);
        let expired = l.expiration + 2 * crate::state::DEFAULT_NUMBER_OF_BLOCK_CONFIRMATIONS
            <= block_number;
        if !expired || end.nonce.spec_inc() is None || amounts.1.spec_sub(l.amount) is None {
            assert(kept.push(l) + rest.drop_first() =~= kept + rest);
            lemma_expire_locks_consistent(
                rest.drop_first(),
                kept.push(l),
                end,
                recipient,
                canonical_identifier,
                block_number,
                rng,
            );
        } else {
            let mid = crate::state::spec_rng_next(rng.seed);
            let remaining = kept + rest.drop_first();
            let step = crate::channel::spec_expire_lock_now(
                end,
                l,
                remaining,
                recipient,
                canonical_identifier,
                mid,
            );
            assert(step.0.balance_proof->Some_0.locksroot == spec_locksroot(remaining));
            lemma_expire_locks_consistent(
                rest.drop_first(),
                kept,
                step.0,
                recipient,
                canonical_identifier,
                block_number,
                crate::state::Random { seed: mid },
            );
        }
    }
}

/// Locksroot and balance-hash consistency is an invariant of the whole
/// block sweep of one channel.
pub proof fn lemma_channel_block_consistent(
    ch: ChannelStateV,
    block_number: u64,
    rng: crate::state::Random,
)
    requires
        spec_end_consistent(ch.our_state),
        spec_end_consistent(ch.partner_state),
    ensures
        spec_end_consistent(
            crate::channel::spec_channel_block(ch, block_number, rng).0.our_state,
        ),
        spec_end_consistent(
            crate::channel::spec_channel_block(ch, block_number, rng).0.partner_state,
        ),
{
    reveal(crate::channel::spec_channel_block);
    let w = crate::channel::spec_expire_withdraws(
        ch.our_state.withdraws_pending,
        ChannelEndStateV { withdraws_pending: Seq::empty(), ..ch.our_state },
        ch.partner_state.address,
        ch.canonical_identifier,
        block_number,
        rng,
    );
    lemma_expire_withdraws_consistent(
        ch.our_state.withdraws_pending,
        ChannelEndStateV { withdraws_pending: Seq::empty(), ..ch.our_state },
        ch.partner_state.address,
        ch.canonical_identifier,
        block_number,
        rng,
    );
    lemma_expire_withdraws_pending_locks(
        ch.our_state.withdraws_pending,
        ChannelEndStateV { withdraws_pending: Seq::empty(), ..ch.our_state },
        ch.partner_state.address,
        ch.canonical_identifier,
        block_number,
        rng,
    );
    assert(Seq::<crate::state::HashTimeLockState>::empty() + w.0.pending_locks
        =~= w.0.pending_locks);
    lemma_expire_locks_consistent(
        w.0.pending_locks,
        Seq::empty(),
        ChannelEndStateV { pending_locks: Seq::empty(), ..w.0 },
        ch.partner_state.address,
        ch.canonical_identifier,
        block_number,
        w.1,
    );
}

/// The withdraw sweep leaves the pending locks and the balance proof as
/// they were.
pub proof fn lemma_expire_withdraws_pending_locks(
    ws: Seq<crate::state::PendingWithdrawState>,
    end: ChannelEndStateV,
    recipient: Address,
    canonical_identifier: crate::packing::CanonicalIdentifier,
    block_number: u64,
    rng: crate::state::Random,
)
    ensures
        ({
            let r = crate::channel::spec_expire_withdraws(
                ws,
                end,
                recipient,
                canonical_identifier,
                block_number,
                rng,
            ).0;
            r.pending_locks == end.pending_locks && r.balance_proof == end.balance_proof
        }),
    decreases ws.len(),
{
    if ws.len() == 0 {
    } else {
        let w = ws[0];
        if !w.spec_has_expired(block_number) || end.nonce.spec_inc() is None {
            lemma_expire_withdraws_pending_locks(
                ws.drop_first(),
                ChannelEndStateV { withdraws_pending: end.withdraws_pending.push(w), ..end },
                recipient,
                canonical_identifier,
                block_number,
                rng,
            );
        } else {
            let nonce = end.nonce.spec_inc()->Some_0;
            let mid = crate::state::spec_rng_next(rng.seed);
            lemma_expire_withdraws_pending_locks(
                ws.drop_first(),
                ChannelEndStateV {
                    withdraws_expired: end.withdraws_expired.push(
                        crate::state::ExpiredWithdrawState {
                            total_withdraw: w.total_withdraw,
                            expiration: w.expiration,
                            nonce: w.nonce,
                        },
                    ),
                    nonce,
                    ..end
                },
                recipient,
                canonical_identifier,
                block_number,
                crate::state::Random { seed: mid },
            );
        }
    }
}


/// Whether every pending withdraw in the list is settled for block `n`:
/// either its threshold has not been reached, or the nonce space is
/// exhausted so no retraction can be announced.
pub open spec fn spec_withdraws_stable(
    ws: Seq<crate::state::PendingWithdrawState>,
    nonce: U256,
    block_number: u64,
) -> bool {
    forall|i: int| 0 <= i < ws.len() ==> !(#[trigger] ws[i]).spec_has_expired(block_number)
        || nonce.spec_inc() is None
}

/// The withdraw sweep leaves a stable pending list: what stays is either
/// not yet expired or blocked by an exhausted nonce, and an exhausted nonce
/// stays exhausted.
pub proof fn lemma_expire_withdraws_stable(
    ws: Seq<crate::state::PendingWithdrawState>,
    end: ChannelEndStateV,
    recipient: Address,
    canonical_identifier: crate::packing::CanonicalIdentifier,
    block_number: u64,
    rng: crate::state::Random,
)
    requires
        spec_withdraws_stable(end.withdraws_pending, end.nonce, block_number),
    ensures
        ({
            let r = crate::channel::spec_expire_withdraws(
                ws,
                end,
                recipient,
                canonical_identifier,
                block_number,
                rng,
            ).0;
            spec_withdraws_stable(r.withdraws_pending, r.nonce, block_number)
        }),
    decreases ws.len(),
{
    if ws.len() == 0 {
    } else {
        let w = ws[0];
        if !w.spec_has_expired(block_number) || end.nonce.spec_inc() is None {
            let end2 = ChannelEndStateV {
                withdraws_pending: end.withdraws_pending.push(w),
                ..end
            };
            assert(spec_withdraws_stable(end2.withdraws_pending, end2.nonce, block_number));
            lemma_expire_withdraws_stable(
                ws.drop_first(),
                end2,
                recipient,
                canonical_identifier,
                block_number,
                rng,
            );
        } else {
            let nonce = end.nonce.spec_inc()->Some_0;
            let mid = crate::state::spec_rng_next(rng.seed);
            let end2 = ChannelEndStateV {
                withdraws_expired: end.withdraws_expired.push(
                    crate::state::ExpiredWithdrawState {
                        total_withdraw: w.total_withdraw,
                        expiration: w.expiration,
                        nonce: w.nonce,
                    },
                ),
                nonce,
                ..end
            };
            assert(spec_withdraws_stable(end2.withdraws_pending, end2.nonce, block_number));
            lemma_expire_withdraws_stable(
                ws.drop_first(),
                end2,
                recipient,
                canonical_identifier,
                block_number,
                crate::state::Random { seed: mid },
            );
        }
    }
}

/// Sweeping a stable pending list announces nothing.
pub proof fn lemma_expire_withdraws_stable_silent(
    ws: Seq<crate::state::PendingWithdrawState>,
    end: ChannelEndStateV,
    recipient: Address,
    canonical_identifier: crate::packing::CanonicalIdentifier,
    block_number: u64,
    rng: crate::state::Random,
)
    requires
        spec_withdraws_stable(ws, end.nonce, block_number),
    ensures
        crate::channel::spec_expire_withdraws(
            ws,
            end,
            recipient,
            canonical_identifier,
            block_number,
            rng,
        ).2 == Seq::<EventV>::empty(),
    decreases ws.len(),
{
    if ws.len() == 0 {
    } else {
        let w = ws[0];
        assert(w == ws[0]);
        assert(!w.spec_has_expired(block_number) || end.nonce.spec_inc() is None);
        assert(forall|i: int| 0 <= i < ws.drop_first().len() ==> ws.drop_first()[i] == ws[i + 1]);
        lemma_expire_withdraws_stable_silent(
            ws.drop_first(),
            ChannelEndStateV { withdraws_pending: end.withdraws_pending.push(w), ..end },
            recipient,
            canonical_identifier,
            block_number,
            rng,
        );
    }
}

/// Re-seeing a block past the thresholds announces each expired withdraw
/// exactly once: after one sweep, a second sweep of what stayed pending
/// announces nothing.
pub proof fn lemma_withdraw_expiry_idempotent(
    ws: Seq<crate::state::PendingWithdrawState>,
    end: ChannelEndStateV,
    recipient: Address,
    canonical_identifier: crate::packing::CanonicalIdentifier,
    block_number: u64,
    rng: crate::state::Random,
    rng2: crate::state::Random,
)
    requires
        end.withdraws_pending == Seq::<crate::state::PendingWithdrawState>::empty(),
    ensures
        ({
            let r = crate::channel::spec_expire_withdraws(
                ws,
                end,
                recipient,
                canonical_identifier,
                block_number,
                rng,
            ).0;
            crate::channel::spec_expire_withdraws(
                r.withdraws_pending,
                ChannelEndStateV {
                    withdraws_pending: Seq::<crate::state::PendingWithdrawState>::empty(),
                    ..r
                },
                recipient,
                canonical_identifier,
                block_number,
                rng2,
            ).2 == Seq::<EventV>::empty()
        }),
{
    lemma_expire_withdraws_stable(
        ws,
        end,
        recipient,
        canonical_identifier,
        block_number,
        rng,
    );
    let r = crate::channel::spec_expire_withdraws(
        ws,
        end,
        recipient,
        canonical_identifier,
        block_number,
        rng,
    ).0;
    lemma_expire_withdraws_stable_silent(
        r.withdraws_pending,
        ChannelEndStateV {
            withdraws_pending: Seq::<crate::state::PendingWithdrawState>::empty(),
            ..r
        },
        recipient,
        canonical_identifier,
        block_number,
        rng2,
    );
}


/// The value meaning of the limb-level difference: when the subtrahend is
/// not larger, the result's value is the difference of the values.
pub proof fn lemma_spec_sub_value(a: U256, b: U256)
    ensures
        match a.spec_sub(b) {
            Some(d) => d.as_nat() + b.as_nat() == a.as_nat(),
            None => a.as_nat() < b.as_nat(),
        },
{
    let base: int = 0x1_0000_0000_0000_0000;
    let m0 = base + a.n0 - b.n0;
    let b0 = 1 - m0 / base;
    let m1 = base + a.n1 - b.n1 - b0;
    let b1 = 1 - m1 / base;
    let m2 = base + a.n2 - b.n2 - b1;
    let b2 = 1 - m2 / base;
    let m3 = base + a.n3 - b.n3 - b2;
    vstd::arithmetic::div_mod::lemma_fundamental_div_mod(m0, base);
    vstd::arithmetic::div_mod::lemma_fundamental_div_mod(m1, base);
    vstd::arithmetic::div_mod::lemma_fundamental_div_mod(m2, base);
    vstd::arithmetic::div_mod::lemma_fundamental_div_mod(m3, base);
}

/// Whether a lock is past its announcement threshold at block `n`.
pub open spec fn spec_lock_expired_at(l: crate::state::HashTimeLockState, block_number: u64) -> bool {
    l.expiration + 2 * crate::state::DEFAULT_NUMBER_OF_BLOCK_CONFIRMATIONS <= block_number
}

/// Whether every lock in the list is settled for block `n`: either its
/// threshold has not been reached, or no retraction can be announced
/// because the nonce space is exhausted or the locked amount no longer
/// covers it.
pub open spec fn spec_locks_stable(
    locks: Seq<crate::state::HashTimeLockState>,
    nonce: U256,
    locked: U256,
    block_number: u64,
) -> bool {
    forall|i: int| 0 <= i < locks.len() ==> !spec_lock_expired_at(
        #[trigger] locks[i],
        block_number,
    ) || nonce.spec_inc() is None || locked.spec_sub(locks[i].amount) is None
}

/// The lock sweep leaves a stable pending list, judged by the resulting
/// nonce and locked amount.
pub proof fn lemma_expire_locks_stable(
    rest: Seq<crate::state::HashTimeLockState>,
    kept: Seq<crate::state::HashTimeLockState>,
    end: ChannelEndStateV,
    recipient: Address,
    canonical_identifier: crate::packing::CanonicalIdentifier,
    block_number: u64,
    rng: crate::state::Random,
)
    requires
        spec_locks_stable(
            kept,
            end.nonce,
            crate::channel::spec_current_amounts(end).1,
            block_number,
        ),
    ensures
        ({
            let r = crate::channel::spec_expire_locks(
                rest,
                kept,
                end,
                recipient,
                canonical_identifier,
                block_number,
                rng,
            ).0;
            spec_locks_stable(
                r.pending_locks,
                r.nonce,
                crate::channel::spec_current_amounts(r).1,
                block_number,
            )
        }),
    decreases rest.len(),
{
    reveal(crate::channel::spec_expire_lock_now);
    if rest.len() == 0 {
    } else {
        let l = rest[0];
        let amounts = crate::channel::spec_current_amounts(end);
        let expired = spec_lock_expired_at(l, block_number);
        if !expired || end.nonce.spec_inc() is None || amounts.1.spec_sub(l.amount) is None {
            assert(spec_locks_stable(kept.push(l), end.nonce, amounts.1, block_number));
            lemma_expire_locks_stable(
                rest.drop_first(),
                kept.push(l),
                end,
                recipient,
                canonical_identifier,
                block_number,
                rng,
            );
        } else {
            let mid = crate::state::spec_rng_next(rng.seed);
            let remaining = kept + rest.drop_first();
            let step = crate::channel::spec_expire_lock_now(
                end,
                l,
                remaining,
                recipient,
                canonical_identifier,
                mid,
            );
            let locked2 = crate::channel::spec_current_amounts(step.0).1;
            assert(locked2 == amounts.1.spec_sub(l.amount)->Some_0);
            lemma_spec_sub_value(amounts.1, l.amount);
            assert forall|i: int| 0 <= i < kept.len() implies !spec_lock_expired_at(
                #[trigger] kept[i],
                block_number,
            ) || step.0.nonce.spec_inc() is None || locked2.spec_sub(kept[i].amount) is None by {
                if spec_lock_expired_at(kept[i], block_number) {
                    assert(amounts.1.spec_sub(kept[i].amount) is None);
                    lemma_spec_sub_value(amounts.1, kept[i].amount);
                    lemma_spec_sub_value(locked2, kept[i].amount);
                }
            }
            lemma_expire_locks_stable(
                rest.drop_first(),
                kept,
                step.0,
                recipient,
                canonical_identifier,
                block_number,
                crate::state::Random { seed: mid },
            );
        }
    }
}

/// Sweeping a stable lock list announces nothing and changes nothing but
/// the pending list's assembly.
pub proof fn lemma_expire_locks_stable_silent(
    rest: Seq<crate::state::HashTimeLockState>,
    kept: Seq<crate::state::HashTimeLockState>,
    end: ChannelEndStateV,
    recipient: Address,
    canonical_identifier: crate::packing::CanonicalIdentifier,
    block_number: u64,
    rng: crate::state::Random,
)
    requires
        spec_locks_stable(
            rest,
            end.nonce,
            crate::channel::spec_current_amounts(end).1,
            block_number,
        ),
    ensures
        ({
            let r = crate::channel::spec_expire_locks(
                rest,
                kept,
                end,
                recipient,
                canonical_identifier,
                block_number,
                rng,
            );
            r.2 == Seq::<EventV>::empty() && r.0 == (ChannelEndStateV {
                pending_locks: kept + rest,
                ..end
            })
        }),
    decreases rest.len(),
{
    if rest.len() == 0 {
        assert(kept + rest =~= kept);
        assert(crate::channel::spec_expire_locks(
            rest,
            kept,
            end,
            recipient,
            canonical_identifier,
            block_number,
            rng,
        ).0 =~~= (ChannelEndStateV { pending_locks: kept + rest, ..end }));
    } else {
        let l = rest[0];
        assert(forall|i: int| 0 <= i < rest.drop_first().len() ==> rest.drop_first()[i] == rest[i
            + 1]);
        assert(kept.push(l) + rest.drop_first() =~= kept + rest);
        lemma_expire_locks_stable_silent(
            rest.drop_first(),
            kept.push(l),
            end,
            recipient,
            canonical_identifier,
            block_number,
            rng,
        );
    }
}

/// Re-seeing a block past the thresholds announces each expired lock
/// exactly once: after one sweep, a second sweep of what stayed pending
/// announces nothing.
pub proof fn lemma_lock_expiry_idempotent(
    locks: Seq<crate::state::HashTimeLockState>,
    end: ChannelEndStateV,
    recipient: Address,
    canonical_identifier: crate::packing::CanonicalIdentifier,
    block_number: u64,
    rng: crate::state::Random,
    rng2: crate::state::Random,
)
    ensures
        ({
            let r = crate::channel::spec_expire_locks(
                locks,
                Seq::empty(),
                end,
                recipient,
                canonical_identifier,
                block_number,
                rng,
            ).0;
            crate::channel::spec_expire_locks(
                r.pending_locks,
                Seq::empty(),
                ChannelEndStateV {
                    pending_locks: Seq::<crate::state::HashTimeLockState>::empty(),
                    ..r
                },
                recipient,
                canonical_identifier,
                block_number,
                rng2,
            ).2 == Seq::<EventV>::empty()
        }),
{
    lemma_expire_locks_stable(
        locks,
        Seq::empty(),
        end,
        recipient,
        canonical_identifier,
        block_number,
        rng,
    );
    let r = crate::channel::spec_expire_locks(
        locks,
        Seq::empty(),
        end,
        recipient,
        canonical_identifier,
        block_number,
        rng,
    ).0;
    lemma_expire_locks_stable_silent(
        r.pending_locks,
        Seq::empty(),
        ChannelEndStateV {
            pending_locks: Seq::<crate::state::HashTimeLockState>::empty(),
            ..r
        },
        recipient,
        canonical_identifier,
        block_number,
        rng2,
    );
}


/// Whether both ends of a channel commit to exactly their pending locks.
pub open spec fn spec_channel_consistent(ch: ChannelStateV) -> bool {
    spec_end_consistent(ch.our_state) && spec_end_consistent(ch.partner_state)
}

/// Whether every channel of the state tree is consistent.
pub open spec fn spec_state_consistent(cs: ChainStateV) -> bool {
    forall|a: int, b: int, c: int|
        (0 <= a < cs.identifiers_to_tokennetworkregistries.len() && 0 <= b
            < cs.identifiers_to_tokennetworkregistries[a].tokennetworkaddresses_to_tokennetworks.len()
            && 0 <= c
            < cs.identifiers_to_tokennetworkregistries[a].tokennetworkaddresses_to_tokennetworks[b].channelidentifiers_to_channels.len())
            ==> spec_channel_consistent(
            #[trigger] cs.identifiers_to_tokennetworkregistries[a].tokennetworkaddresses_to_tokennetworks[b].channelidentifiers_to_channels[c],
        )
}

/// A found registry index is in range and its registry holds the network.
proof fn lemma_find_registry_of_network_range(
    regs: Seq<crate::state::TokenNetworkRegistryStateV>,
    token_network_address: Address,
    a: int,
)
    requires
        crate::views::spec_find_registry_of_network(regs, token_network_address) == Some(a),
    ensures
        0 <= a < regs.len(),
        crate::views::spec_find_network(
            regs[a].tokennetworkaddresses_to_tokennetworks,
            token_network_address,
        ) is Some,
    decreases regs.len(),
{
    if regs.len() == 0 {
    } else if crate::views::spec_find_network(
        regs[0].tokennetworkaddresses_to_tokennetworks,
        token_network_address,
    ) is Some {
    } else {
        lemma_find_registry_of_network_range(regs.drop_first(), token_network_address, a - 1);
        assert(regs.drop_first()[a - 1] == regs[a]);
    }
}

/// A found network index is in range.
proof fn lemma_find_network_range(
    nets: Seq<crate::state::TokenNetworkStateV>,
    address: Address,
    b: int,
)
    requires
        crate::views::spec_find_network(nets, address) == Some(b),
    ensures
        0 <= b < nets.len(),
    decreases nets.len(),
{
    if nets.len() == 0 {
    } else if nets[0].address == address {
    } else {
        lemma_find_network_range(nets.drop_first(), address, b - 1);
    }
}

/// A found channel index is in range.
proof fn lemma_find_channel_range(chs: Seq<ChannelStateV>, channel_identifier: U256, c: int)
    requires
        crate::views::spec_find_channel(chs, channel_identifier) == Some(c),
    ensures
        0 <= c < chs.len(),
    decreases chs.len(),
{
    if chs.len() == 0 {
    } else if chs[0].canonical_identifier.channel_identifier == channel_identifier {
    } else {
        lemma_find_channel_range(chs.drop_first(), channel_identifier, c - 1);
    }
}

/// Replacing one channel with a consistent one keeps the state consistent.
pub proof fn lemma_update_channel_consistent(
    cs: ChainStateV,
    canonical_identifier: crate::packing::CanonicalIdentifier,
    ch2: ChannelStateV,
)
    requires
        spec_state_consistent(cs),
        spec_channel_consistent(ch2),
        crate::views::spec_get_channel(cs, canonical_identifier) is Some,
    ensures
        spec_state_consistent(crate::chain::spec_update_channel(cs, canonical_identifier, ch2)),
{
    let cs2 = crate::chain::spec_update_channel(cs, canonical_identifier, ch2);
    let regs = cs.identifiers_to_tokennetworkregistries;
    let regs2 = cs2.identifiers_to_tokennetworkregistries;
    let a = crate::views::spec_find_registry_of_network(
        regs,
        canonical_identifier.token_network_address,
    )->Some_0;
    lemma_find_registry_of_network_range(regs, canonical_identifier.token_network_address, a);
    let nets = regs[a].tokennetworkaddresses_to_tokennetworks;
    let b = crate::views::spec_find_network(
        nets,
        canonical_identifier.token_network_address,
    )->Some_0;
    lemma_find_network_range(nets, canonical_identifier.token_network_address, b);
    let chs = nets[b].channelidentifiers_to_channels;
    let c = crate::views::spec_find_channel(
        chs,
        canonical_identifier.channel_identifier,
    )->Some_0;
    lemma_find_channel_range(chs, canonical_identifier.channel_identifier, c);
    assert(chs.remove(c).insert(c, ch2) =~= chs.update(c, ch2));
    assert forall|x: int, y: int, z: int|
        (0 <= x < regs2.len() && 0 <= y
            < regs2[x].tokennetworkaddresses_to_tokennetworks.len() && 0 <= z
            < regs2[x].tokennetworkaddresses_to_tokennetworks[y].channelidentifiers_to_channels.len())
        implies spec_channel_consistent(
        #[trigger] regs2[x].tokennetworkaddresses_to_tokennetworks[y].channelidentifiers_to_channels[z],
    ) by {
        if x == a && y == b {
            if z == c {
                assert(regs2[x].tokennetworkaddresses_to_tokennetworks[y].channelidentifiers_to_channels[z]
                    == ch2);
            } else {
                assert(regs2[x].tokennetworkaddresses_to_tokennetworks[y].channelidentifiers_to_channels[z]
                    == chs[z]);
            }
        } else {
            assert(regs2[x].tokennetworkaddresses_to_tokennetworks[y].channelidentifiers_to_channels[z]
                == regs[x].tokennetworkaddresses_to_tokennetworks[y].channelidentifiers_to_channels[z]);
        }
    }
}

/// Deleting one channel keeps the state consistent.
pub proof fn lemma_delete_channel_consistent(cs: ChainStateV, a: int, b: int, c: int)
    requires
        spec_state_consistent(cs),
        0 <= a < cs.identifiers_to_tokennetworkregistries.len(),
        0 <= b
            < cs.identifiers_to_tokennetworkregistries[a].tokennetworkaddresses_to_tokennetworks.len(),
        0 <= c
            < cs.identifiers_to_tokennetworkregistries[a].tokennetworkaddresses_to_tokennetworks[b].channelidentifiers_to_channels.len(),
    ensures
        spec_state_consistent(crate::chain::spec_delete_channel(cs, a, b, c)),
{
    let cs2 = crate::chain::spec_delete_channel(cs, a, b, c);
    let regs = cs.identifiers_to_tokennetworkregistries;
    let regs2 = cs2.identifiers_to_tokennetworkregistries;
    assert forall|x: int, y: int, z: int|
        (0 <= x < regs2.len() && 0 <= y
            < regs2[x].tokennetworkaddresses_to_tokennetworks.len() && 0 <= z
            < regs2[x].tokennetworkaddresses_to_tokennetworks[y].channelidentifiers_to_channels.len())
        implies spec_channel_consistent(
        #[trigger] regs2[x].tokennetworkaddresses_to_tokennetworks[y].channelidentifiers_to_channels[z],
    ) by {
        let chs2 = regs2[x].tokennetworkaddresses_to_tokennetworks[y].channelidentifiers_to_channels;
        let chs = regs[x].tokennetworkaddresses_to_tokennetworks[y].channelidentifiers_to_channels;
        if x == a && y == b {
            if z < c {
                assert(chs2[z] == chs[z]);
            } else {
                assert(chs2[z] == chs[z + 1]);
            }
        } else {
            assert(chs2[z] == chs[z]);
        }
    }
}


/// Whether every channel in the list is consistent.
pub open spec fn spec_channels_consistent(chs: Seq<ChannelStateV>) -> bool {
    forall|i: int| 0 <= i < chs.len() ==> spec_channel_consistent(#[trigger] chs[i])
}

/// Whether every channel of every network in the list is consistent.
pub open spec fn spec_networks_consistent(nets: Seq<crate::state::TokenNetworkStateV>) -> bool {
    forall|i: int| 0 <= i < nets.len() ==> spec_channels_consistent(
        (#[trigger] nets[i]).channelidentifiers_to_channels,
    )
}

/// Whether every channel of every registry in the list is consistent.
pub open spec fn spec_registries_consistent(
    regs: Seq<crate::state::TokenNetworkRegistryStateV>,
) -> bool {
    forall|i: int| 0 <= i < regs.len() ==> spec_networks_consistent(
        (#[trigger] regs[i]).tokennetworkaddresses_to_tokennetworks,
    )
}

/// The block sweep keeps every channel of a token network consistent.
pub proof fn lemma_block_channels_consistent(
    chs: Seq<ChannelStateV>,
    block_number: u64,
    rng: crate::state::Random,
)
    requires
        spec_channels_consistent(chs),
    ensures
        spec_channels_consistent(
            crate::chain::spec_block_channels(chs, block_number, rng).0,
        ),
    decreases chs.len(),
{
    if chs.len() == 0 {
    } else {
        let step = crate::channel::spec_channel_block(chs[0], block_number, rng);
        lemma_channel_block_consistent(chs[0], block_number, rng);
        reveal(crate::channel::spec_channel_block);
        assert(spec_channel_consistent(step.0));
        assert(forall|i: int| 0 <= i < chs.drop_first().len() ==> chs.drop_first()[i] == chs[i
            + 1]);
        lemma_block_channels_consistent(chs.drop_first(), block_number, step.1);
        let rec = crate::chain::spec_block_channels(chs.drop_first(), block_number, step.1);
        assert forall|i: int| 0 <= i < (seq![step.0] + rec.0).len() implies spec_channel_consistent(
            #[trigger] (seq![step.0] + rec.0)[i],
        ) by {
            if i > 0 {
                assert((seq![step.0] + rec.0)[i] == rec.0[i - 1]);
            }
        }
    }
}

/// The block sweep keeps every channel of a registry consistent.
pub proof fn lemma_block_networks_consistent(
    nets: Seq<crate::state::TokenNetworkStateV>,
    block_number: u64,
    rng: crate::state::Random,
)
    requires
        spec_networks_consistent(nets),
    ensures
        spec_networks_consistent(
            crate::chain::spec_block_networks(nets, block_number, rng).0,
        ),
    decreases nets.len(),
{
    if nets.len() == 0 {
    } else {
        let step = crate::chain::spec_block_channels(
            nets[0].channelidentifiers_to_channels,
            block_number,
            rng,
        );
        lemma_block_channels_consistent(
            nets[0].channelidentifiers_to_channels,
            block_number,
            rng,
        );
        let net2 = crate::state::TokenNetworkStateV {
            channelidentifiers_to_channels: step.0,
            ..nets[0]
        };
        assert(forall|i: int| 0 <= i < nets.drop_first().len() ==> nets.drop_first()[i] == nets[i
            + 1]);
        lemma_block_networks_consistent(nets.drop_first(), block_number, step.1);
        let rec = crate::chain::spec_block_networks(nets.drop_first(), block_number, step.1);
        assert forall|i: int| 0 <= i < (seq![net2] + rec.0).len() implies spec_channels_consistent(
            (#[trigger] (seq![net2] + rec.0)[i]).channelidentifiers_to_channels,
        ) by {
            if i > 0 {
                assert((seq![net2] + rec.0)[i] == rec.0[i - 1]);
            }
        }
    }
}

/// The block sweep keeps every channel of the state consistent.
pub proof fn lemma_block_registries_consistent(
    regs: Seq<crate::state::TokenNetworkRegistryStateV>,
    block_number: u64,
    rng: crate::state::Random,
)
    requires
        spec_registries_consistent(regs),
    ensures
        spec_registries_consistent(
            crate::chain::spec_block_registries(regs, block_number, rng).0,
        ),
    decreases regs.len(),
{
    if regs.len() == 0 {
    } else {
        let step = crate::chain::spec_block_networks(
            regs[0].tokennetworkaddresses_to_tokennetworks,
            block_number,
            rng,
        );
        lemma_block_networks_consistent(
            regs[0].tokennetworkaddresses_to_tokennetworks,
            block_number,
            rng,
        );
        let reg2 = crate::state::TokenNetworkRegistryStateV {
            tokennetworkaddresses_to_tokennetworks: step.0,
            ..regs[0]
        };
        assert(forall|i: int| 0 <= i < regs.drop_first().len() ==> regs.drop_first()[i] == regs[i
            + 1]);
        lemma_block_registries_consistent(regs.drop_first(), block_number, step.1);
        let rec = crate::chain::spec_block_registries(regs.drop_first(), block_number, step.1);
        assert forall|i: int| 0 <= i < (seq![reg2] + rec.0).len() implies spec_networks_consistent(
            (#[trigger] (seq![reg2] + rec.0)[i]).tokennetworkaddresses_to_tokennetworks,
        ) by {
            if i > 0 {
                assert((seq![reg2] + rec.0)[i] == rec.0[i - 1]);
            }
        }
    }
}


/// The two shapes of whole-state consistency coincide.
pub proof fn lemma_state_consistent_shapes(cs: ChainStateV)
    ensures
        spec_state_consistent(cs) == spec_registries_consistent(
            cs.identifiers_to_tokennetworkregistries,
        ),
{
    let regs = cs.identifiers_to_tokennetworkregistries;
    if spec_state_consistent(cs) {
        assert forall|i: int| 0 <= i < regs.len() implies spec_networks_consistent(
            (#[trigger] regs[i]).tokennetworkaddresses_to_tokennetworks,
        ) by {
            let nets = regs[i].tokennetworkaddresses_to_tokennetworks;
            assert forall|j: int| 0 <= j < nets.len() implies spec_channels_consistent(
                (#[trigger] nets[j]).channelidentifiers_to_channels,
            ) by {
                let chs = nets[j].channelidentifiers_to_channels;
                assert forall|k: int| 0 <= k < chs.len() implies spec_channel_consistent(
                    #[trigger] chs[k],
                ) by {
                    assert(spec_channel_consistent(
                        regs[i].tokennetworkaddresses_to_tokennetworks[j].channelidentifiers_to_channels[k],
                    ));
                }
            }
        }
    }
    if spec_registries_consistent(regs) {
        assert forall|a: int, b: int, c: int|
            (0 <= a < regs.len() && 0 <= b < regs[a].tokennetworkaddresses_to_tokennetworks.len()
                && 0 <= c
                < regs[a].tokennetworkaddresses_to_tokennetworks[b].channelidentifiers_to_channels.len())
            implies spec_channel_consistent(
            #[trigger] regs[a].tokennetworkaddresses_to_tokennetworks[b].channelidentifiers_to_channels[c],
        ) by {
            assert(spec_networks_consistent(regs[a].tokennetworkaddresses_to_tokennetworks));
            assert(spec_channels_consistent(
                regs[a].tokennetworkaddresses_to_tokennetworks[b].channelidentifiers_to_channels,
            ));
        }
    }
}

/// A channel the state hands out is consistent when the state is.
pub proof fn lemma_get_channel_consistent(
    cs: ChainStateV,
    canonical_identifier: crate::packing::CanonicalIdentifier,
)
    requires
        spec_state_consistent(cs),
        crate::views::spec_get_channel(cs, canonical_identifier) is Some,
    ensures
        spec_channel_consistent(
            crate::views::spec_get_channel(cs, canonical_identifier)->Some_0,
        ),
{
    let regs = cs.identifiers_to_tokennetworkregistries;
    let a = crate::views::spec_find_registry_of_network(
        regs,
        canonical_identifier.token_network_address,
    )->Some_0;
    lemma_find_registry_of_network_range(regs, canonical_identifier.token_network_address, a);
    let nets = regs[a].tokennetworkaddresses_to_tokennetworks;
    let b = crate::views::spec_find_network(
        nets,
        canonical_identifier.token_network_address,
    )->Some_0;
    lemma_find_network_range(nets, canonical_identifier.token_network_address, b);
    let chs = nets[b].channelidentifiers_to_channels;
    let c = crate::views::spec_find_channel(
        chs,
        canonical_identifier.channel_identifier,
    )->Some_0;
    lemma_find_channel_range(chs, canonical_identifier.channel_identifier, c);
}

/// Replacing one token network whose channels are consistent keeps the
/// state consistent.
pub proof fn lemma_set_network_consistent(
    cs: ChainStateV,
    a: int,
    b: int,
    net2: crate::state::TokenNetworkStateV,
)
    requires
        spec_state_consistent(cs),
        0 <= a < cs.identifiers_to_tokennetworkregistries.len(),
        0 <= b
            < cs.identifiers_to_tokennetworkregistries[a].tokennetworkaddresses_to_tokennetworks.len(),
        spec_channels_consistent(net2.channelidentifiers_to_channels),
    ensures
        spec_state_consistent(crate::chain::spec_set_network(cs, a, b, net2)),
{
    let cs2 = crate::chain::spec_set_network(cs, a, b, net2);
    let regs = cs.identifiers_to_tokennetworkregistries;
    let regs2 = cs2.identifiers_to_tokennetworkregistries;
    assert forall|x: int, y: int, z: int|
        (0 <= x < regs2.len() && 0 <= y
            < regs2[x].tokennetworkaddresses_to_tokennetworks.len() && 0 <= z
            < regs2[x].tokennetworkaddresses_to_tokennetworks[y].channelidentifiers_to_channels.len())
        implies spec_channel_consistent(
        #[trigger] regs2[x].tokennetworkaddresses_to_tokennetworks[y].channelidentifiers_to_channels[z],
    ) by {
        if x == a && y == b {
            assert(regs2[x].tokennetworkaddresses_to_tokennetworks[y] == net2);
        } else {
            assert(regs2[x].tokennetworkaddresses_to_tokennetworks[y].channelidentifiers_to_channels[z]
                == regs[x].tokennetworkaddresses_to_tokennetworks[y].channelidentifiers_to_channels[z]);
        }
    }
}

/// A found channel-by-partner index is in range.
proof fn lemma_find_channel_by_partner_range(chs: Seq<ChannelStateV>, partner: Address, c: int)
    requires
        crate::views::spec_find_channel_by_partner(chs, partner) == Some(c),
    ensures
        0 <= c < chs.len(),
    decreases chs.len(),
{
    if chs.len() == 0 {
    } else if chs[0].partner_state.address == partner {
    } else {
        lemma_find_channel_by_partner_range(chs.drop_first(), partner, c - 1);
    }
}


/// Whether the channels a state change carries into the tree are themselves
/// consistent; chain events built by the decoder always are, since their
/// channels are fresh.
pub open spec fn spec_change_consistent(sc: StateChange) -> bool {
    match sc {
        StateChange::ContractReceiveTokenNetworkRegistry(x) => spec_networks_consistent(
            x.token_network_registry@.tokennetworkaddresses_to_tokennetworks,
        ),
        StateChange::ContractReceiveTokenNetworkCreated(x) => spec_channels_consistent(
            x.token_network@.channelidentifiers_to_channels,
        ),
        StateChange::ContractReceiveChannelOpened(x) => spec_channel_consistent(x.channel_state@),
        _ => true,
    }
}

/// Locksroot and balance-hash consistency after every reducer call: a
/// reducer call on a consistent state, fed a state change whose carried
/// channels are consistent, leaves every balance proof committing to
/// exactly its end's pending locks.
#[verifier::rlimit(100)]
#[verifier::spinoff_prover]
pub proof fn lemma_transition_preserves_consistency(cs: ChainStateV, sc: StateChange)
    requires
        spec_state_consistent(cs),
        spec_change_consistent(sc),
    ensures
        spec_state_consistent(spec_transition(cs, sc).0),
{
    reveal(crate::chain::spec_transition);
    let d = crate::chain::spec_dispatch(cs, sc);
    lemma_dispatch_preserves_consistency(cs, sc);
    assert(spec_transition(cs, sc).0.identifiers_to_tokennetworkregistries
        == d.0.identifiers_to_tokennetworkregistries);
}

/// The dispatch step preserves consistency, case by case.
#[verifier::rlimit(100)]
#[verifier::spinoff_prover]
pub proof fn lemma_dispatch_preserves_consistency(cs: ChainStateV, sc: StateChange)
    requires
        spec_state_consistent(cs),
        spec_change_consistent(sc),
    ensures
        spec_state_consistent(crate::chain::spec_dispatch(cs, sc).0),
{
    match sc {
        StateChange::Block(x) => {
            lemma_state_consistent_shapes(cs);
            lemma_block_registries_consistent(
                cs.identifiers_to_tokennetworkregistries,
                x.block_number,
                cs.pseudo_random_number_generator,
            );
            lemma_state_consistent_shapes(crate::chain::spec_dispatch(cs, sc).0);
        },
        StateChange::ActionInitChain(x) => {
            let fresh = ChainStateV::spec_new(
                x.chain_id,
                x.block_number,
                x.block_hash,
                x.our_address,
            );
            assert(spec_state_consistent(fresh));
        },
        StateChange::ActionInitInitiator(x) => {
            lemma_init_initiator_consistent(cs, x);
        },
        StateChange::ActionChannelSetRevealTimeout(x) => {
            let cid = x.canonical_identifier;
            match crate::views::spec_get_channel(cs, cid) {
                None => {
                },
                Some(ch) => {
                    lemma_get_channel_consistent(cs, cid);
                    let h = crate::channel::spec_set_reveal_timeout(ch, x.reveal_timeout);
                    assert(spec_channel_consistent(h.0));
                    lemma_update_channel_consistent(cs, cid, h.0);
                },
            }
        },
        StateChange::ActionChannelWithdraw(x) => {
            let cid = x.canonical_identifier;
            match crate::views::spec_get_channel(cs, cid) {
                None => {
                },
                Some(ch) => {
                    lemma_get_channel_consistent(cs, cid);
                    let mid1 = crate::state::spec_rng_next(cs.pseudo_random_number_generator.seed);
                    let base = ChainStateV {
                        pseudo_random_number_generator: crate::state::Random { seed: mid1 },
                        ..cs
                    };
                    let h = crate::channel::spec_action_withdraw(
                        ch,
                        x.total_withdraw,
                        cs.block_number,
                        mid1,
                        x.recipient_metadata,
                    );
                    assert(spec_channel_consistent(h.0));
                    lemma_update_channel_consistent(base, cid, h.0);
                },
            }
        },
        StateChange::ActionTransferReroute(_) => {
        },
        StateChange::ActionCancelPayment(_) => {
        },
        StateChange::ReceiveTransferCancelRoute(_) => {
        },
        StateChange::ReceiveSecretReveal(x) => {
            lemma_secret_reveal_consistent(cs, x);
        },
        StateChange::ReceiveSecretRequest(_) => {
        },
        StateChange::ReceiveLockExpired(x) => {
            let cid = x.balance_proof.canonical_identifier;
            match crate::views::spec_get_channel(cs, cid) {
                None => {
                },
                Some(ch) => {
                    lemma_get_channel_consistent(cs, cid);
                    let mid1 = crate::state::spec_rng_next(cs.pseudo_random_number_generator.seed);
                    let base = ChainStateV {
                        pseudo_random_number_generator: crate::state::Random { seed: mid1 },
                        ..cs
                    };
                    let h = crate::channel::spec_receive_lock_expired(
                        ch,
                        x,
                        cs.block_number,
                        mid1,
                    );
                    lemma_lock_expired_consistency(ch, x, cs.block_number, mid1);
                    assert(spec_channel_consistent(h.0));
                    lemma_update_channel_consistent(base, cid, h.0);
                },
            }
        },
        StateChange::ReceiveLockedTransfer(x) => {
            let cid = x.transfer@.balance_proof.canonical_identifier;
            match crate::views::spec_get_channel(cs, cid) {
                None => {
                },
                Some(ch) => {
                    lemma_get_channel_consistent(cs, cid);
                    let mid1 = crate::state::spec_rng_next(cs.pseudo_random_number_generator.seed);
                    let mid2 = crate::state::spec_rng_next(mid1);
                    let base = ChainStateV {
                        pseudo_random_number_generator: crate::state::Random { seed: mid2 },
                        ..cs
                    };
                    let h = crate::channel::spec_receive_locked_transfer(
                        ch,
                        x.sender,
                        cs.our_address,
                        x.transfer@,
                        mid1,
                        mid2,
                    );
                    lemma_receive_locked_transfer_consistency(
                        ch,
                        x.sender,
                        cs.our_address,
                        x.transfer@,
                        mid1,
                        mid2,
                    );
                    assert(spec_channel_consistent(h.0));
                    lemma_update_channel_consistent(base, cid, h.0);
                },
            }
        },
        StateChange::ReceiveUnlock(x) => {
            let cid = x.balance_proof.canonical_identifier;
            match crate::views::spec_get_channel(cs, cid) {
                None => {
                },
                Some(ch) => {
                    lemma_get_channel_consistent(cs, cid);
                    let mid1 = crate::state::spec_rng_next(cs.pseudo_random_number_generator.seed);
                    let base = ChainStateV {
                        pseudo_random_number_generator: crate::state::Random { seed: mid1 },
                        ..cs
                    };
                    let h = crate::channel::spec_receive_unlock(ch, x, mid1);
                    lemma_receive_unlock_consistency(ch, x, mid1);
                    assert(spec_channel_consistent(h.0));
                    lemma_update_channel_consistent(base, cid, h.0);
                },
            }
        },
        StateChange::ReceiveWithdrawRequest(x) => {
            let cid = x.canonical_identifier;
            match crate::views::spec_get_channel(cs, cid) {
                None => {
                },
                Some(ch) => {
                    lemma_get_channel_consistent(cs, cid);
                    let mid1 = crate::state::spec_rng_next(cs.pseudo_random_number_generator.seed);
                    let base = ChainStateV {
                        pseudo_random_number_generator: crate::state::Random { seed: mid1 },
                        ..cs
                    };
                    let h = crate::channel::spec_receive_withdraw_request(ch, x, mid1);
                    assert(spec_channel_consistent(h.0));
                    lemma_update_channel_consistent(base, cid, h.0);
                },
            }
        },
        StateChange::ReceiveWithdrawConfirmation(x) => {
            let cid = x.canonical_identifier;
            match crate::views::spec_get_channel(cs, cid) {
                None => {
                },
                Some(ch) => {
                    lemma_get_channel_consistent(cs, cid);
                    let h = crate::channel::spec_receive_withdraw_confirmation(
                        ch,
                        x,
                        cs.block_hash,
                    );
                    assert(spec_channel_consistent(h.0));
                    lemma_update_channel_consistent(cs, cid, h.0);
                },
            }
        },
        StateChange::ReceiveWithdrawExpired(x) => {
            let cid = x.canonical_identifier;
            match crate::views::spec_get_channel(cs, cid) {
                None => {
                },
                Some(ch) => {
                    lemma_get_channel_consistent(cs, cid);
                    let mid1 = crate::state::spec_rng_next(cs.pseudo_random_number_generator.seed);
                    let base = ChainStateV {
                        pseudo_random_number_generator: crate::state::Random { seed: mid1 },
                        ..cs
                    };
                    let h = crate::channel::spec_receive_withdraw_expired(
                        ch,
                        x,
                        cs.block_number,
                        mid1,
                    );
                    assert(spec_channel_consistent(h.0));
                    lemma_update_channel_consistent(base, cid, h.0);
                },
            }
        },
        StateChange::ReceiveProcessed(_) => {
        },
        StateChange::ReceiveDelivered(_) => {
        },
        StateChange::ContractReceiveTokenNetworkRegistry(x) => {
            lemma_registry_consistent(cs, x.token_network_registry@);
        },
        StateChange::ContractReceiveTokenNetworkCreated(x) => {
            lemma_network_created_consistent(
                cs,
                x.token_network_registry_address,
                x.token_network@,
            );
        },
        StateChange::ContractReceiveChannelOpened(x) => {
            lemma_channel_opened_consistent(cs, x.channel_state@);
        },
        StateChange::ContractReceiveChannelClosed(x) => {
            let cid = x.canonical_identifier;
            match crate::views::spec_get_channel(cs, cid) {
                None => {
                },
                Some(ch) => {
                    lemma_get_channel_consistent(cs, cid);
                    let h = crate::channel::spec_apply_channel_closed(ch, x, cs.our_address);
                    assert(spec_channel_consistent(h.0));
                    lemma_update_channel_consistent(cs, cid, h.0);
                },
            }
        },
        StateChange::ContractReceiveChannelSettled(x) => {
            lemma_channel_settled_consistent(cs, x);
        },
        StateChange::ContractReceiveChannelDeposit(x) => {
            let cid = x.canonical_identifier;
            match crate::views::spec_get_channel(cs, cid) {
                None => {
                },
                Some(ch) => {
                    lemma_get_channel_consistent(cs, cid);
                    let h = crate::channel::spec_apply_channel_deposit(ch, x.deposit_transaction);
                    assert(spec_channel_consistent(h));
                    lemma_update_channel_consistent(cs, cid, h);
                },
            }
        },
        StateChange::ContractReceiveChannelWithdraw(x) => {
            let cid = x.canonical_identifier;
            match crate::views::spec_get_channel(cs, cid) {
                None => {
                },
                Some(ch) => {
                    lemma_get_channel_consistent(cs, cid);
                    let h = crate::channel::spec_apply_channel_withdraw(
                        ch,
                        x.participant,
                        x.total_withdraw,
                    );
                    assert(spec_channel_consistent(h));
                    lemma_update_channel_consistent(cs, cid, h);
                },
            }
        },
        StateChange::ContractReceiveChannelBatchUnlock(x) => {
            let cid = x.canonical_identifier;
            match crate::views::spec_get_channel(cs, cid) {
                None => {
                },
                Some(ch) => {
                    if ch.spec_status() == crate::state::ChannelStatus::Settled {
                        lemma_delete_path_consistent(cs, cid);
                    }
                },
            }
        },
        StateChange::ContractReceiveSecretReveal(x) => {
            lemma_contract_secret_reveal_consistent(cs, x);
        },
        StateChange::ContractReceiveRouteNew(_) => {
        },
        StateChange::ContractReceiveUpdateTransfer(x) => {
            let cid = x.canonical_identifier;
            match crate::views::spec_get_channel(cs, cid) {
                None => {
                },
                Some(ch) => {
                    lemma_get_channel_consistent(cs, cid);
                    let h = crate::channel::spec_apply_update_transfer(ch, x);
                    assert(spec_channel_consistent(h));
                    lemma_update_channel_consistent(cs, cid, h);
                },
            }
        },
    }
}

/// Both consistency facts for a taken-over transfer: the partner end is
/// rebuilt consistently and this side is untouched.
proof fn lemma_receive_locked_transfer_consistency(
    ch: ChannelStateV,
    sender: Address,
    our_address: Address,
    transfer: crate::state::LockedTransferStateV,
    mid1: u64,
    mid2: u64,
)
    requires
        spec_channel_consistent(ch),
    ensures
        spec_channel_consistent(
            spec_receive_locked_transfer(ch, sender, our_address, transfer, mid1, mid2).0,
        ),
{
}

/// Both consistency facts for a taken-over unlock.
proof fn lemma_receive_unlock_consistency(
    ch: ChannelStateV,
    sc: crate::state_change::ReceiveUnlock,
    mid: u64,
)
    requires
        spec_channel_consistent(ch),
    ensures
        spec_channel_consistent(spec_receive_unlock(ch, sc, mid).0),
{
}

/// Deleting the channel a canonical identifier resolves to keeps the state
/// consistent.
proof fn lemma_delete_path_consistent(
    cs: ChainStateV,
    canonical_identifier: crate::packing::CanonicalIdentifier,
)
    requires
        spec_state_consistent(cs),
        crate::views::spec_get_channel(cs, canonical_identifier) is Some,
    ensures
        ({
            let regs = cs.identifiers_to_tokennetworkregistries;
            let a = crate::views::spec_find_registry_of_network(
                regs,
                canonical_identifier.token_network_address,
            )->Some_0;
            let b = crate::views::spec_find_network(
                regs[a].tokennetworkaddresses_to_tokennetworks,
                canonical_identifier.token_network_address,
            )->Some_0;
            let c = crate::views::spec_find_channel(
                regs[a].tokennetworkaddresses_to_tokennetworks[b].channelidentifiers_to_channels,
                canonical_identifier.channel_identifier,
            )->Some_0;
            spec_state_consistent(crate::chain::spec_delete_channel(cs, a, b, c))
        }),
{
    let regs = cs.identifiers_to_tokennetworkregistries;
    let a = crate::views::spec_find_registry_of_network(
        regs,
        canonical_identifier.token_network_address,
    )->Some_0;
    lemma_find_registry_of_network_range(regs, canonical_identifier.token_network_address, a);
    let nets = regs[a].tokennetworkaddresses_to_tokennetworks;
    let b = crate::views::spec_find_network(
        nets,
        canonical_identifier.token_network_address,
    )->Some_0;
    lemma_find_network_range(nets, canonical_identifier.token_network_address, b);
    let chs = nets[b].channelidentifiers_to_channels;
    let c = crate::views::spec_find_channel(
        chs,
        canonical_identifier.channel_identifier,
    )->Some_0;
    lemma_find_channel_range(chs, canonical_identifier.channel_identifier, c);
    lemma_delete_channel_consistent(cs, a, b, c);
}

/// Recording an unknown registry keeps the state consistent.
proof fn lemma_registry_consistent(
    cs: ChainStateV,
    reg: crate::state::TokenNetworkRegistryStateV,
)
    requires
        spec_state_consistent(cs),
        spec_networks_consistent(reg.tokennetworkaddresses_to_tokennetworks),
    ensures
        spec_state_consistent(crate::chain::spec_handle_registry(cs, reg)),
{
    lemma_state_consistent_shapes(cs);
    let cs2 = crate::chain::spec_handle_registry(cs, reg);
    let regs = cs.identifiers_to_tokennetworkregistries;
    match crate::views::spec_find_registry(regs, reg.address) {
        Some(_) => {
        },
        None => {
            assert forall|i: int| 0 <= i < regs.push(reg).len()
                implies spec_networks_consistent(
                (#[trigger] regs.push(reg)[i]).tokennetworkaddresses_to_tokennetworks,
            ) by {
                if i < regs.len() {
                    assert(regs.push(reg)[i] == regs[i]);
                }
            }
            lemma_state_consistent_shapes(cs2);
        },
    }
}

/// Recording a new token network keeps the state consistent.
proof fn lemma_network_created_consistent(
    cs: ChainStateV,
    registry_address: Address,
    net: crate::state::TokenNetworkStateV,
)
    requires
        spec_state_consistent(cs),
        spec_channels_consistent(net.channelidentifiers_to_channels),
    ensures
        spec_state_consistent(
            crate::chain::spec_handle_network_created(cs, registry_address, net),
        ),
{
    lemma_state_consistent_shapes(cs);
    let cs2 = crate::chain::spec_handle_network_created(cs, registry_address, net);
    let regs = cs.identifiers_to_tokennetworkregistries;
    match crate::views::spec_find_registry(regs, registry_address) {
        None => {
        },
        Some(a) => {
            lemma_find_registry_range(regs, registry_address, a);
            let reg = regs[a];
            if crate::views::spec_find_network(
                reg.tokennetworkaddresses_to_tokennetworks,
                net.address,
            ) is Some {
            } else {
                let nets = reg.tokennetworkaddresses_to_tokennetworks;
                assert forall|i: int| 0 <= i < nets.push(net).len()
                    implies spec_channels_consistent(
                    (#[trigger] nets.push(net)[i]).channelidentifiers_to_channels,
                ) by {
                    if i < nets.len() {
                        assert(nets.push(net)[i] == nets[i]);
                        assert(spec_networks_consistent(nets));
                    }
                }
                assert forall|i: int| 0 <= i
                    < cs2.identifiers_to_tokennetworkregistries.len()
                    implies spec_networks_consistent(
                    (#[trigger] cs2.identifiers_to_tokennetworkregistries[i]).tokennetworkaddresses_to_tokennetworks,
                ) by {
                    if i != a {
                        assert(cs2.identifiers_to_tokennetworkregistries[i] == regs[i]);
                    }
                }
                lemma_state_consistent_shapes(cs2);
            }
        },
    }
}

/// A found registry index is in range.
proof fn lemma_find_registry_range(
    regs: Seq<crate::state::TokenNetworkRegistryStateV>,
    address: Address,
    a: int,
)
    requires
        crate::views::spec_find_registry(regs, address) == Some(a),
    ensures
        0 <= a < regs.len(),
    decreases regs.len(),
{
    if regs.len() == 0 {
    } else if regs[0].address == address {
    } else {
        lemma_find_registry_range(regs.drop_first(), address, a - 1);
    }
}

/// Recording a newly opened channel keeps the state consistent.
#[verifier::rlimit(100)]
#[verifier::spinoff_prover]
proof fn lemma_channel_opened_consistent(cs: ChainStateV, ch: ChannelStateV)
    requires
        spec_state_consistent(cs),
        spec_channel_consistent(ch),
    ensures
        spec_state_consistent(crate::chain::spec_handle_channel_opened(cs, ch)),
{
    let cid = ch.canonical_identifier;
    let regs = cs.identifiers_to_tokennetworkregistries;
    match crate::views::spec_find_registry_of_network(regs, cid.token_network_address) {
        None => {
        },
        Some(a) => {
            lemma_find_registry_of_network_range(regs, cid.token_network_address, a);
            let reg = regs[a];
            let b = crate::views::spec_find_network(
                reg.tokennetworkaddresses_to_tokennetworks,
                cid.token_network_address,
            )->Some_0;
            lemma_find_network_range(
                reg.tokennetworkaddresses_to_tokennetworks,
                cid.token_network_address,
                b,
            );
            let net = reg.tokennetworkaddresses_to_tokennetworks[b];
            if crate::views::spec_find_channel(
                net.channelidentifiers_to_channels,
                cid.channel_identifier,
            ) is Some {
            } else {
                let chs = net.channelidentifiers_to_channels;
                lemma_state_consistent_shapes(cs);
                assert(spec_channels_consistent(chs));
                assert forall|i: int| 0 <= i < chs.push(ch).len()
                    implies spec_channel_consistent(#[trigger] chs.push(ch)[i]) by {
                    if i < chs.len() {
                        assert(chs.push(ch)[i] == chs[i]);
                    }
                }
                let net2 = crate::state::TokenNetworkStateV {
                    channelidentifiers_to_channels: chs.push(ch),
                    partneraddresses_to_channelidentifiers:
                        net.partneraddresses_to_channelidentifiers.push(
                        (ch.partner_state.address, cid.channel_identifier),
                    ),
                    ..net
                };
                lemma_set_network_consistent(cs, a, b, net2);
            }
        },
    }
}

/// Recording a settlement keeps the state consistent.
#[verifier::rlimit(100)]
#[verifier::spinoff_prover]
proof fn lemma_channel_settled_consistent(
    cs: ChainStateV,
    sc: crate::state_change::ContractReceiveChannelSettled,
)
    requires
        spec_state_consistent(cs),
    ensures
        spec_state_consistent(crate::chain::spec_handle_channel_settled(cs, sc).0),
{
    let el = spec_locksroot(Seq::empty());
    match crate::views::spec_get_channel(cs, sc.canonical_identifier) {
        None => {
        },
        Some(ch) => {
            lemma_get_channel_consistent(cs, sc.canonical_identifier);
            if sc.our_onchain_locksroot == el && sc.partner_onchain_locksroot == el {
                lemma_delete_path_consistent(cs, sc.canonical_identifier);
            } else {
                let h = crate::channel::spec_apply_channel_settled(ch, sc, el);
                assert(spec_channel_consistent(h.0));
                lemma_update_channel_consistent(cs, sc.canonical_identifier, h.0);
            }
        },
    }
}

/// An off-chain secret reveal keeps the state consistent.
#[verifier::rlimit(100)]
#[verifier::spinoff_prover]
proof fn lemma_secret_reveal_consistent(
    cs: ChainStateV,
    sc: crate::state_change::ReceiveSecretReveal,
)
    requires
        spec_state_consistent(cs),
    ensures
        spec_state_consistent(crate::chain::spec_handle_secret_reveal(cs, sc).0),
{
    if crate::hashing::spec_secret_hash(sc.secret) != sc.secrethash {
    } else {
        match crate::views::spec_find_task(cs.payment_mapping, sc.secrethash) {
            None => {
            },
            Some(t) => {
                let task = cs.payment_mapping[t].1;
                match crate::views::spec_get_channel(cs, task.canonical_identifier) {
                    None => {
                    },
                    Some(ch) => {
                        lemma_get_channel_consistent(cs, task.canonical_identifier);
                        let mid1 = crate::state::spec_rng_next(
                            cs.pseudo_random_number_generator.seed,
                        );
                        let base = ChainStateV {
                            pseudo_random_number_generator: crate::state::Random { seed: mid1 },
                            ..cs
                        };
                        if task.role == crate::state::TransferRole::Initiator {
                            let h = crate::channel::spec_send_unlock(
                                ch,
                                task.payment_identifier,
                                sc.secret,
                                sc.secrethash,
                                mid1,
                            );
                            assert(spec_channel_consistent(h.0));
                            lemma_update_channel_consistent(
                                base,
                                task.canonical_identifier,
                                h.0,
                            );
                        } else {
                            let ch2 = crate::channel::spec_register_offchain_secret(
                                ch,
                                sc.secret,
                                sc.secrethash,
                            );
                            assert(spec_channel_consistent(ch2));
                            lemma_update_channel_consistent(
                                base,
                                task.canonical_identifier,
                                ch2,
                            );
                        }
                    },
                }
            },
        }
    }
}

/// An on-chain secret registration keeps the state consistent.
#[verifier::rlimit(100)]
#[verifier::spinoff_prover]
proof fn lemma_contract_secret_reveal_consistent(
    cs: ChainStateV,
    sc: crate::state_change::ContractReceiveSecretReveal,
)
    requires
        spec_state_consistent(cs),
    ensures
        spec_state_consistent(crate::chain::spec_handle_contract_secret_reveal(cs, sc).0),
{
    match crate::views::spec_find_task(cs.payment_mapping, sc.secrethash) {
        None => {
        },
        Some(t) => {
            let task = cs.payment_mapping[t].1;
            let cs1 = ChainStateV {
                payment_mapping: cs.payment_mapping.update(
                    t,
                    (
                        sc.secrethash,
                        crate::state::TransferTask { secret: Some(sc.secret), ..task },
                    ),
                ),
                ..cs
            };
            assert(spec_state_consistent(cs1));
            match crate::views::spec_get_channel(cs1, task.canonical_identifier) {
                None => {
                },
                Some(ch) => {
                    lemma_get_channel_consistent(cs1, task.canonical_identifier);
                    let ch2 = crate::channel::spec_register_secret(
                        ch,
                        sc.secrethash,
                        sc.secret,
                        sc.block_number,
                    );
                    assert(spec_channel_consistent(ch2));
                    lemma_update_channel_consistent(cs1, task.canonical_identifier, ch2);
                },
            }
        },
    }
}

/// Consistency of this side after sending a locked transfer.
proof fn lemma_send_locked_transfer_consistency(
    ch: ChannelStateV,
    transfer: crate::state::TransferDescriptionWithSecretState,
    routes: Seq<crate::state::RouteStateV>,
    recipient_metadata: Option<AddressMetadata>,
    block_number: u64,
    message_identifier: u64,
)
    requires
        spec_channel_consistent(ch),
    ensures
        spec_channel_consistent(
            spec_send_locked_transfer(
                ch,
                transfer,
                routes,
                recipient_metadata,
                block_number,
                message_identifier,
            ).0,
        ),
{
    reveal(crate::channel::spec_send_locked_transfer);
}

/// Starting a transfer keeps the state consistent.
#[verifier::rlimit(100)]
#[verifier::spinoff_prover]
proof fn lemma_init_initiator_consistent(
    cs: ChainStateV,
    sc: crate::state_change::ActionInitInitiator,
)
    requires
        spec_state_consistent(cs),
    ensures
        spec_state_consistent(
            crate::chain::spec_handle_init_initiator(
                cs,
                sc.transfer,
                sc.routes@.map_values(|x: crate::state::RouteState| x@),
            ).0,
        ),
{
    reveal(crate::channel::spec_send_locked_transfer);
    let routes = sc.routes@.map_values(|x: crate::state::RouteState| x@);
    let transfer = sc.transfer;
    match crate::chain::spec_select_route(
        cs,
        transfer.token_network_address,
        routes,
        transfer.amount,
    ) {
        None => {
        },
        Some(ri) => {
            crate::chain::lemma_select_route_viable(
                cs,
                transfer.token_network_address,
                routes,
                transfer.amount,
                ri,
            );
            let regs = cs.identifiers_to_tokennetworkregistries;
            let a = crate::views::spec_find_registry_of_network(
                regs,
                transfer.token_network_address,
            )->Some_0;
            lemma_find_registry_of_network_range(regs, transfer.token_network_address, a);
            let nets = regs[a].tokennetworkaddresses_to_tokennetworks;
            let b = crate::views::spec_find_network(
                nets,
                transfer.token_network_address,
            )->Some_0;
            lemma_find_network_range(nets, transfer.token_network_address, b);
            let chs = nets[b].channelidentifiers_to_channels;
            let c = crate::views::spec_find_channel_by_partner(
                chs,
                routes[ri].route[0],
            )->Some_0;
            lemma_find_channel_by_partner_range(chs, routes[ri].route[0], c);
            let ch = chs[c];
            assert(spec_channel_consistent(ch));
            let mid1 = crate::state::spec_rng_next(cs.pseudo_random_number_generator.seed);
            let base = ChainStateV {
                pseudo_random_number_generator: crate::state::Random { seed: mid1 },
                ..cs
            };
            let metadata = match crate::views::spec_find_metadata(
                routes[ri].address_to_metadata,
                routes[ri].route[0],
            ) {
                Some(m) => Some(routes[ri].address_to_metadata[m].1),
                None => None,
            };
            let h = crate::channel::spec_send_locked_transfer(
                ch,
                transfer,
                routes,
                metadata,
                cs.block_number,
                mid1,
            );
            lemma_send_locked_transfer_consistency(
                ch,
                transfer,
                routes,
                metadata,
                cs.block_number,
                mid1,
            );
            assert(spec_channel_consistent(h.0));
            let cs2 = crate::chain::spec_set_channel(base, a as int, b as int, c, h.0);
            assert forall|x: int, y: int, z: int|
                (0 <= x < cs2.identifiers_to_tokennetworkregistries.len() && 0 <= y
                    < cs2.identifiers_to_tokennetworkregistries[x].tokennetworkaddresses_to_tokennetworks.len()
                    && 0 <= z
                    < cs2.identifiers_to_tokennetworkregistries[x].tokennetworkaddresses_to_tokennetworks[y].channelidentifiers_to_channels.len())
                implies spec_channel_consistent(
                #[trigger] cs2.identifiers_to_tokennetworkregistries[x].tokennetworkaddresses_to_tokennetworks[y].channelidentifiers_to_channels[z],
            ) by {
                if x == a && y == b && z == c {
                    assert(cs2.identifiers_to_tokennetworkregistries[x].tokennetworkaddresses_to_tokennetworks[y].channelidentifiers_to_channels[z]
                        == h.0);
                } else {
                    assert(cs2.identifiers_to_tokennetworkregistries[x].tokennetworkaddresses_to_tokennetworks[y].channelidentifiers_to_channels[z]
                        == cs.identifiers_to_tokennetworkregistries[x].tokennetworkaddresses_to_tokennetworks[y].channelidentifiers_to_channels[z]);
                }
            }
        },
    }
}

} // verus!
