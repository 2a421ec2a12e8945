//! End-to-end runs of the reducer: open, deposit, transfer, unlock, lock
//! expiry, nonce replay, withdraw timeout, and crash recovery.

use raiden::chain::transition;
use raiden::event::Event;
use raiden::packing::CanonicalIdentifier;
use raiden::state::{
    compute_balance_hash, compute_locksroot, BalanceProofState, ChainState, ChannelState,
    ChannelStatus, HashTimeLockState, LockedTransferState, MediationFeeConfig, PendingLocksState,
    TokenNetworkRegistryState, TokenNetworkState, TransactionChannelDeposit,
    TransactionExecutionStatus, TransactionResult, TransferDescriptionWithSecretState, RouteState,
};
use raiden::state_change::{
    ActionChannelWithdraw, ActionInitChain, ActionInitInitiator, Block,
    ContractReceiveChannelDeposit, ContractReceiveChannelOpened,
    ContractReceiveTokenNetworkCreated, ContractReceiveTokenNetworkRegistry,
    ReceiveLockedTransfer, ReceiveSecretReveal, ReceiveUnlock, StateChange,
};
use raiden::types::{Address, ChainID, H256, U256};

fn addr(n: u32) -> Address {
    Address { a2: 0, a1: 0, a0: n }
}

fn h(n: u64) -> H256 {
    H256 { b3: 0, b2: 0, b1: 0, b0: n }
}

fn amount(n: u64) -> U256 {
    U256 { n3: 0, n2: 0, n1: 0, n0: n }
}

fn fee_config() -> MediationFeeConfig {
    MediationFeeConfig {
        token_to_flat_fee: Vec::new(),
        token_to_proportional_fee: Vec::new(),
        token_to_proportional_imbalance_fee: Vec::new(),
        cap_meditation_fees: true,
    }
}

fn canonical() -> CanonicalIdentifier {
    CanonicalIdentifier {
        chain_identifier: ChainID::Goerli,
        token_network_address: addr(30),
        channel_identifier: amount(1),
    }
}

/// A chain state with one registry, one token network and one open channel
/// between us (participant 1) and the partner (participant 2).
fn opened_state(settle_timeout: u64) -> ChainState {
    let init = ActionInitChain {
        chain_id: ChainID::Goerli,
        block_number: 1,
        block_hash: h(99),
        our_address: addr(1),
    };
    let state = transition(
        ChainState::new(ChainID::Goerli, 0, h(0), addr(1)),
        StateChange::ActionInitChain(init),
    ).new_state;
    let registry = TokenNetworkRegistryState {
        address: addr(20),
        tokennetworkaddresses_to_tokennetworks: Vec::new(),
        tokenaddresses_to_tokennetworkaddresses: Vec::new(),
    };
    let state = transition(
        state,
        StateChange::ContractReceiveTokenNetworkRegistry(ContractReceiveTokenNetworkRegistry {
            transaction_hash: None,
            token_network_registry: registry,
            block_number: 1,
            block_hash: h(99),
        }),
    ).new_state;
    let state = transition(
        state,
        StateChange::ContractReceiveTokenNetworkCreated(ContractReceiveTokenNetworkCreated {
            transaction_hash: None,
            token_network_registry_address: addr(20),
            token_network: TokenNetworkState::new(addr(30), addr(40)),
            block_number: 1,
            block_hash: h(99),
        }),
    ).new_state;
    let open_transaction = TransactionExecutionStatus {
        started_block_number: Some(0),
        finished_block_number: Some(1),
        result: Some(TransactionResult::Success),
    };
    let channel = ChannelState::new(
        canonical(),
        addr(40),
        addr(20),
        addr(1),
        addr(2),
        50,
        settle_timeout,
        open_transaction,
        fee_config(),
    )
    .unwrap();
    transition(
        state,
        StateChange::ContractReceiveChannelOpened(ContractReceiveChannelOpened {
            transaction_hash: None,
            block_number: 1,
            block_hash: h(99),
            channel_state: channel,
        }),
    ).new_state
}

fn deposit(state: ChainState, participant: Address, total: u64) -> ChainState {
    transition(
        state,
        StateChange::ContractReceiveChannelDeposit(ContractReceiveChannelDeposit {
            transaction_hash: None,
            block_number: 2,
            block_hash: h(98),
            canonical_identifier: canonical(),
            deposit_transaction: TransactionChannelDeposit {
                participant_address: participant,
                contract_balance: amount(total),
                deposit_block_number: 2,
            },
            fee_config: fee_config(),
        }),
    ).new_state
}

fn the_channel(state: &ChainState) -> &ChannelState {
    raiden::views::get_channel_by_canonical_identifier(state, canonical()).unwrap()
}

fn one_route() -> RouteState {
    RouteState {
        route: vec![addr(2)],
        address_to_metadata: Vec::new(),
        estimated_fee: amount(0),
    }
}

fn init_initiator(state: ChainState, secret: H256, total: u64) -> raiden::chain::TransitionResult {
    let secrethash = raiden::hashing::secret_hash(secret);
    transition(
        state,
        StateChange::ActionInitInitiator(ActionInitInitiator {
            transfer: TransferDescriptionWithSecretState {
                token_network_registry_address: addr(20),
                payment_identifier: 7,
                amount: amount(total),
                token_network_address: addr(30),
                initiator: addr(1),
                target: addr(2),
                secret,
                secrethash,
                lock_timeout: None,
            },
            routes: vec![one_route()],
        }),
    )
}

#[test]
fn reveal_timeout_validation() {
    let open_transaction = TransactionExecutionStatus {
        started_block_number: Some(0),
        finished_block_number: Some(1),
        result: Some(TransactionResult::Success),
    };
    let result = ChannelState::new(
        canonical(),
        addr(40),
        addr(20),
        addr(1),
        addr(2),
        50,
        50,
        open_transaction,
        fee_config(),
    );
    assert!(result.is_err());
}

#[test]
fn open_deposit_transfer_unlock() {
    let state = opened_state(500);
    let state = deposit(state, addr(1), 100);
    assert_eq!(the_channel(&state).capacity(), amount(100));

    let secret = h(1234);
    let secrethash = raiden::hashing::secret_hash(secret);
    let result = init_initiator(state, secret, 100);
    let state = result.new_state;
    let sent = result.events.iter().any(|e| match e {
        Event::SendLockedTransfer(ev) => {
            ev.transfer.balance_proof.nonce == amount(1)
                && ev.transfer.balance_proof.locked_amount == amount(100)
                && ev.transfer.balance_proof.transferred_amount == amount(0)
        }
        _ => false,
    });
    assert!(sent);
    assert_eq!(the_channel(&state).our_state.pending_locks.locks.len(), 1);

    // The partner learned the secret and reveals it back; we answer with the
    // unlock carrying nonce 2, the full transferred amount and no locks.
    let result = transition(
        state,
        StateChange::ReceiveSecretReveal(ReceiveSecretReveal {
            sender: addr(2),
            secret,
            secrethash,
            message_identifier: 900,
        }),
    );
    let state = result.new_state;
    let unlocked = result.events.iter().any(|e| match e {
        Event::SendUnlock(ev) => {
            ev.balance_proof.nonce == amount(2)
                && ev.balance_proof.transferred_amount == amount(100)
                && ev.balance_proof.locked_amount == amount(0)
        }
        _ => false,
    });
    assert!(unlocked);
    let sent_success = result.events.iter().any(|e| matches!(e, Event::PaymentSentSuccess(_)));
    assert!(sent_success);
    assert!(the_channel(&state).our_state.pending_locks.locks.is_empty());
    assert_eq!(the_channel(&state).capacity(), amount(100));
}

#[test]
fn lock_expiration_is_emitted_once() {
    let state = opened_state(500);
    let state = deposit(state, addr(1), 100);
    let secret = h(77);
    let state = init_initiator(state, secret, 50).new_state;
    let expiration = the_channel(&state).our_state.pending_locks.locks[0].expiration;

    // Far past the lock's threshold: one expiry notice.
    let result = transition(
        state,
        StateChange::Block(Block {
            block_number: expiration + 100,
            block_hash: h(5),
            gas_limit: amount(0),
        }),
    );
    let state = result.new_state;
    let expired: Vec<_> = result
        .events
        .iter()
        .filter(|e| matches!(e, Event::SendLockExpired(_)))
        .collect();
    assert_eq!(expired.len(), 1);
    assert!(the_channel(&state).our_state.pending_locks.locks.is_empty());

    // Re-seeing a block past the threshold emits nothing further.
    let result = transition(
        state,
        StateChange::Block(Block {
            block_number: expiration + 110,
            block_hash: h(6),
            gas_limit: amount(0),
        }),
    );
    assert!(result.events.iter().all(|e| !matches!(e, Event::SendLockExpired(_))));
}

#[test]
fn nonce_replay_is_rejected() {
    let state = opened_state(500);
    let mut state = deposit(state, addr(2), 100);

    // The partner's recorded nonce is 7; a transfer carrying nonce 5 must be
    // rejected with a nonce mismatch and leave the state unchanged.
    {
        let path = raiden::views::find_channel_path(&state, canonical()).unwrap();
        let (a, b, c) = path;
        let reg = &mut state.identifiers_to_tokennetworkregistries[a];
        let net = &mut reg.tokennetworkaddresses_to_tokennetworks[b];
        net.channelidentifiers_to_channels[c].partner_state.nonce = amount(7);
    }
    let before = state.clone();
    let lock = HashTimeLockState { amount: amount(10), expiration: 1000, secrethash: h(50) };
    let locksroot = compute_locksroot(&PendingLocksState { locks: vec![lock] });
    let bp = BalanceProofState {
        nonce: amount(5),
        transferred_amount: amount(0),
        locked_amount: amount(10),
        locksroot,
        canonical_identifier: canonical(),
        balance_hash: compute_balance_hash(amount(0), amount(10), locksroot),
        message_hash: None,
        signature: None,
        sender: Some(addr(2)),
    };
    let result = transition(
        state,
        StateChange::ReceiveLockedTransfer(ReceiveLockedTransfer {
            sender: addr(2),
            transfer: LockedTransferState {
                payment_identifier: 9,
                token: addr(40),
                lock,
                initiator: addr(2),
                target: addr(1),
                message_identifier: 321,
                route_states: Vec::new(),
                balance_proof: bp,
            },
        }),
    );
    let rejected = result.events.iter().any(|e| match e {
        Event::ErrorInvalidReceivedLockedTransfer(ev) => {
            ev.reason == raiden::event::ErrorReason::NonceMismatch
        }
        _ => false,
    });
    assert!(rejected);
    // Only the deterministic message-identifier stream advanced; every other
    // part of the state is untouched.
    let mut new_state = result.new_state;
    new_state.pseudo_random_number_generator = before.pseudo_random_number_generator;
    assert_eq!(new_state, before);
}

#[test]
fn accepted_transfer_and_unlock_from_partner() {
    let state = opened_state(500);
    let state = deposit(state, addr(2), 100);
    let secret = h(4242);
    let secrethash = raiden::hashing::secret_hash(secret);
    let lock = HashTimeLockState { amount: amount(30), expiration: 1000, secrethash };
    let locksroot = compute_locksroot(&PendingLocksState { locks: vec![lock] });
    let bp = BalanceProofState {
        nonce: amount(1),
        transferred_amount: amount(0),
        locked_amount: amount(30),
        locksroot,
        canonical_identifier: canonical(),
        balance_hash: compute_balance_hash(amount(0), amount(30), locksroot),
        message_hash: None,
        signature: None,
        sender: Some(addr(2)),
    };
    let result = transition(
        state,
        StateChange::ReceiveLockedTransfer(ReceiveLockedTransfer {
            sender: addr(2),
            transfer: LockedTransferState {
                payment_identifier: 9,
                token: addr(40),
                lock,
                initiator: addr(2),
                target: addr(1),
                message_identifier: 321,
                route_states: Vec::new(),
                balance_proof: bp,
            },
        }),
    );
    let state = result.new_state;
    assert!(result.events.iter().any(|e| matches!(e, Event::SendProcessed(_))));
    assert!(result.events.iter().any(|e| matches!(e, Event::SendSecretRequest(_))));
    assert_eq!(the_channel(&state).partner_state.nonce, amount(1));

    let empty_locksroot = compute_locksroot(&PendingLocksState { locks: Vec::new() });
    let bp2 = BalanceProofState {
        nonce: amount(2),
        transferred_amount: amount(30),
        locked_amount: amount(0),
        locksroot: empty_locksroot,
        canonical_identifier: canonical(),
        balance_hash: compute_balance_hash(amount(30), amount(0), empty_locksroot),
        message_hash: None,
        signature: None,
        sender: Some(addr(2)),
    };
    let result = transition(
        state,
        StateChange::ReceiveUnlock(ReceiveUnlock {
            sender: addr(2),
            message_identifier: 55,
            payment_identifier: 9,
            secret,
            secrethash,
            balance_proof: bp2,
        }),
    );
    let state = result.new_state;
    assert!(result.events.iter().any(|e| matches!(e, Event::UnlockClaimSuccess(_))));
    let partner = &the_channel(&state).partner_state;
    assert_eq!(partner.nonce, amount(2));
    assert!(partner.pending_locks.locks.is_empty());
    assert_eq!(partner.balance_proof.unwrap().transferred_amount, amount(30));
}

#[test]
fn withdraw_timeout() {
    let state = opened_state(500);
    let state = deposit(state, addr(1), 100);
    let result = transition(
        state,
        StateChange::ActionChannelWithdraw(ActionChannelWithdraw {
            canonical_identifier: canonical(),
            total_withdraw: amount(40),
            recipient_metadata: None,
        }),
    );
    let state = result.new_state;
    let expiration = match result.events.iter().find_map(|e| match e {
        Event::SendWithdrawRequest(ev) => Some(ev.expiration),
        _ => None,
    }) {
        Some(x) => x,
        None => panic!("no withdraw request emitted"),
    };
    assert_eq!(the_channel(&state).our_state.withdraws_pending.len(), 1);

    // No confirmation arrives before the threshold passes.
    let result = transition(
        state,
        StateChange::Block(Block {
            block_number: expiration + 2 * raiden::state::DEFAULT_NUMBER_OF_BLOCK_CONFIRMATIONS
                + 1,
            block_hash: h(7),
            gas_limit: amount(0),
        }),
    );
    let state = result.new_state;
    assert!(result.events.iter().any(|e| matches!(e, Event::SendWithdrawExpired(_))));
    let ours = &the_channel(&state).our_state;
    assert!(ours.withdraws_pending.is_empty());
    assert_eq!(ours.withdraws_expired.len(), 1);
    assert_eq!(ours.withdraws_expired[0].total_withdraw, amount(40));
}

#[test]
fn restart_replays_to_the_same_state() {
    // The same run, once applied step by step and once replayed from the
    // recorded log over the initial state, ends bit-identically.
    let secret = h(31337);
    let secrethash = raiden::hashing::secret_hash(secret);
    let changes = vec![
        StateChange::ActionInitChain(ActionInitChain {
            chain_id: ChainID::Goerli,
            block_number: 1,
            block_hash: h(99),
            our_address: addr(1),
        }),
        StateChange::ContractReceiveTokenNetworkRegistry(ContractReceiveTokenNetworkRegistry {
            transaction_hash: None,
            token_network_registry: TokenNetworkRegistryState {
                address: addr(20),
                tokennetworkaddresses_to_tokennetworks: Vec::new(),
                tokenaddresses_to_tokennetworkaddresses: Vec::new(),
            },
            block_number: 1,
            block_hash: h(99),
        }),
        StateChange::ContractReceiveTokenNetworkCreated(ContractReceiveTokenNetworkCreated {
            transaction_hash: None,
            token_network_registry_address: addr(20),
            token_network: TokenNetworkState::new(addr(30), addr(40)),
            block_number: 1,
            block_hash: h(99),
        }),
        StateChange::Block(Block { block_number: 5, block_hash: h(5), gas_limit: amount(0) }),
        StateChange::ReceiveSecretReveal(ReceiveSecretReveal {
            sender: addr(2),
            secret,
            secrethash,
            message_identifier: 1,
        }),
    ];
    let start = ChainState::new(ChainID::Goerli, 0, h(0), addr(1));
    let mut stepped = start.clone();
    for sc in changes.iter() {
        stepped = transition(stepped, sc.clone()).new_state;
    }
    let replayed = raiden::storage::replay(start, changes);
    assert_eq!(stepped, replayed);
    assert_eq!(replayed.block_number, 5);
}

#[test]
fn block_number_is_monotonic() {
    let state = opened_state(500);
    let state = transition(
        state,
        StateChange::Block(Block { block_number: 50, block_hash: h(1), gas_limit: amount(0) }),
    ).new_state;
    // An older block is ignored.
    let state = transition(
        state,
        StateChange::Block(Block { block_number: 10, block_hash: h(2), gas_limit: amount(0) }),
    ).new_state;
    assert_eq!(state.block_number, 50);
}

#[test]
fn channel_status_follows_transactions() {
    let state = opened_state(500);
    assert_eq!(the_channel(&state).status(), ChannelStatus::Opened);
    let result = transition(
        state,
        StateChange::ContractReceiveChannelClosed(
            raiden::state_change::ContractReceiveChannelClosed {
                transaction_hash: None,
                block_number: 10,
                block_hash: h(9),
                transaction_from: addr(2),
                canonical_identifier: canonical(),
            },
        ),
    );
    assert_eq!(the_channel(&result.new_state).status(), ChannelStatus::Closed);
}
