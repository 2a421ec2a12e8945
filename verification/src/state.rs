//! The persistent state tree: chain view, token-network registries, token
//! networks, channels and channel ends, balance proofs and pending locks.
//!
//! Every type with collection-valued fields has a ghost view twin over `Seq`,
//! used by the reducer's specification.

use vstd::prelude::*;

use crate::hashing::spec_keccak;
use crate::packing::{spec_u64_word, CanonicalIdentifier};
use crate::types::{
    spec_h256_be_bytes, spec_u256_be_bytes, Address, BlockExpiration, BlockHash, BlockNumber,
    LockedAmount, Locksroot, MessageIdentifier, Nonce, RevealTimeout, Secret, SecretHash,
    SettleTimeout, Signature, TokenAmount, H256, U256,
};

verus! {

broadcast use vstd::std_specs::vec::axiom_spec_len;

/// Blocks a chain event needs before this node treats it as confirmed.
pub const DEFAULT_NUMBER_OF_BLOCK_CONFIRMATIONS: u64 = 5;

/// The reveal timeout given to a channel created from a chain event.
pub const DEFAULT_REVEAL_TIMEOUT: u64 = 50;

/// Committed state changes between two snapshots.
pub const SNAPSHOT_STATE_CHANGE_COUNT: u64 = 500;

/// How an on-chain transaction attempt ended, if it ended.
#[derive(Clone, Copy, PartialEq, Eq, Structural, Debug)]
pub enum TransactionResult {
    Success,
    Failure,
}

/// The lifecycle marker of an on-chain transaction: when it was seen started,
/// when it finished, and its result.
#[derive(Clone, Copy, PartialEq, Eq, Structural, Debug)]
pub struct TransactionExecutionStatus {
    pub started_block_number: Option<BlockNumber>,
    pub finished_block_number: Option<BlockNumber>,
    pub result: Option<TransactionResult>,
}

/// The derived status of a channel.
#[derive(Clone, Copy, PartialEq, Eq, Structural, Debug)]
pub enum ChannelStatus {
    Opened,
    Closing,
    Closed,
    Settling,
    Settled,
    Removed,
    Unusable,
}

/// A participant's cumulative claim on a channel at a given nonce.
#[derive(Clone, Copy, PartialEq, Eq, Structural, Debug)]
pub struct BalanceProofState {
    pub nonce: Nonce,
    pub transferred_amount: TokenAmount,
    pub locked_amount: LockedAmount,
    pub locksroot: Locksroot,
    pub canonical_identifier: CanonicalIdentifier,
    pub balance_hash: H256,
    pub message_hash: Option<H256>,
    pub signature: Option<Signature>,
    pub sender: Option<Address>,
}

/// An amount bound to a secret hash and an expiration block, claimable by
/// presenting the preimage before expiration.
#[derive(Clone, Copy, PartialEq, Eq, Structural, Debug)]
pub struct HashTimeLockState {
    pub amount: TokenAmount,
    pub expiration: BlockExpiration,
    pub secrethash: SecretHash,
}

/// A lock whose secret is known, together with that secret.
#[derive(Clone, Copy, PartialEq, Eq, Structural, Debug)]
pub struct UnlockPartialProofState {
    pub lock: HashTimeLockState,
    pub secret: Secret,
    pub amount: TokenAmount,
    pub expiration: BlockExpiration,
    pub secrethash: SecretHash,
}

/// The insertion-ordered pending locks of one channel end.
#[derive(Clone, PartialEq, Eq, Debug)]
pub struct PendingLocksState {
    pub locks: Vec<HashTimeLockState>,
}

impl View for PendingLocksState {
    type V = Seq<HashTimeLockState>;

    open spec fn view(&self) -> Seq<HashTimeLockState> {
        self.locks@
    }
}

/// A withdraw this end has asked for and the partner has not yet confirmed.
#[derive(Clone, Copy, PartialEq, Eq, Structural, Debug)]
pub struct PendingWithdrawState {
    pub total_withdraw: TokenAmount,
    pub expiration: BlockExpiration,
    pub nonce: Nonce,
}

/// A withdraw whose confirmation never arrived before its threshold.
#[derive(Clone, Copy, PartialEq, Eq, Structural, Debug)]
pub struct ExpiredWithdrawState {
    pub total_withdraw: TokenAmount,
    pub expiration: BlockExpiration,
    pub nonce: Nonce,
}

impl PendingWithdrawState {
    /// The block at which the withdraw counts as expired: its expiration
    /// plus twice the confirmation count, capped at the largest block
    /// number.
    pub open spec fn spec_expiration_threshold(self) -> u64 {
        if self.expiration + 2 * DEFAULT_NUMBER_OF_BLOCK_CONFIRMATIONS <= u64::MAX {
            (self.expiration + 2 * DEFAULT_NUMBER_OF_BLOCK_CONFIRMATIONS) as u64
        } else {
            u64::MAX
        }
    }

    pub fn expiration_threshold(&self) -> (r: u64)
        ensures
            r == self.spec_expiration_threshold(),
    {
        if self.expiration <= u64::MAX - 2 * DEFAULT_NUMBER_OF_BLOCK_CONFIRMATIONS {
            self.expiration + 2 * DEFAULT_NUMBER_OF_BLOCK_CONFIRMATIONS
        } else {
            u64::MAX
        }
    }

    /// Whether `current_block` has reached the expiration threshold.
    pub open spec fn spec_has_expired(self, current_block: BlockNumber) -> bool {
        current_block >= self.spec_expiration_threshold()
    }

    pub fn has_expired(&self, current_block: BlockNumber) -> (r: bool)
        ensures
            r == self.spec_has_expired(current_block),
    {
        current_block >= self.expiration_threshold()
    }
}

/// One side of a channel.
#[derive(Clone, PartialEq, Eq, Debug)]
pub struct ChannelEndState {
    pub address: Address,
    pub contract_balance: TokenAmount,
    pub onchain_total_withdraw: TokenAmount,
    pub withdraws_pending: Vec<PendingWithdrawState>,
    pub withdraws_expired: Vec<ExpiredWithdrawState>,
    pub secrethashes_to_lockedlocks: Vec<HashTimeLockState>,
    pub secrethashes_to_unlockedlocks: Vec<UnlockPartialProofState>,
    pub secrethashes_to_onchain_unlockedlocks: Vec<UnlockPartialProofState>,
    pub balance_proof: Option<BalanceProofState>,
    pub pending_locks: PendingLocksState,
    pub onchain_locksroot: Locksroot,
    pub nonce: Nonce,
}

/// Ghost twin of [`ChannelEndState`].
#[verifier::ext_equal]
pub ghost struct ChannelEndStateV {
    pub address: Address,
    pub contract_balance: TokenAmount,
    pub onchain_total_withdraw: TokenAmount,
    pub withdraws_pending: Seq<PendingWithdrawState>,
    pub withdraws_expired: Seq<ExpiredWithdrawState>,
    pub secrethashes_to_lockedlocks: Seq<HashTimeLockState>,
    pub secrethashes_to_unlockedlocks: Seq<UnlockPartialProofState>,
    pub secrethashes_to_onchain_unlockedlocks: Seq<UnlockPartialProofState>,
    pub balance_proof: Option<BalanceProofState>,
    pub pending_locks: Seq<HashTimeLockState>,
    pub onchain_locksroot: Locksroot,
    pub nonce: Nonce,
}

impl View for ChannelEndState {
    type V = ChannelEndStateV;

    open spec fn view(&self) -> ChannelEndStateV {
        ChannelEndStateV {
            address: self.address,
            contract_balance: self.contract_balance,
            onchain_total_withdraw: self.onchain_total_withdraw,
            withdraws_pending: self.withdraws_pending@,
            withdraws_expired: self.withdraws_expired@,
            secrethashes_to_lockedlocks: self.secrethashes_to_lockedlocks@,
            secrethashes_to_unlockedlocks: self.secrethashes_to_unlockedlocks@,
            secrethashes_to_onchain_unlockedlocks: self.secrethashes_to_onchain_unlockedlocks@,
            balance_proof: self.balance_proof,
            pending_locks: self.pending_locks@,
            onchain_locksroot: self.onchain_locksroot,
            nonce: self.nonce,
        }
    }
}

/// The mediation fees recorded for a channel.
#[derive(Clone, Copy, PartialEq, Eq, Structural, Debug)]
pub struct FeeScheduleState {
    pub cap_fees: bool,
    pub flat: U256,
    pub proportional: U256,
}

impl FeeScheduleState {
    pub fn default_schedule() -> (r: FeeScheduleState)
        ensures
            r == (FeeScheduleState {
                cap_fees: true,
                flat: U256 { n3: 0, n2: 0, n1: 0, n0: 0 },
                proportional: U256 { n3: 0, n2: 0, n1: 0, n0: 0 },
            }),
    {
        FeeScheduleState {
            cap_fees: true,
            flat: U256 { n3: 0, n2: 0, n1: 0, n0: 0 },
            proportional: U256 { n3: 0, n2: 0, n1: 0, n0: 0 },
        }
    }
}

/// The per-token mediation fee configuration a node was started with.
#[derive(Clone, PartialEq, Eq, Debug)]
pub struct MediationFeeConfig {
    pub token_to_flat_fee: Vec<(Address, U256)>,
    pub token_to_proportional_fee: Vec<(Address, U256)>,
    pub token_to_proportional_imbalance_fee: Vec<(Address, U256)>,
    pub cap_meditation_fees: bool,
}

/// The first fee recorded for `token`, zero when none is.
pub open spec fn spec_fee_for(fees: Seq<(Address, U256)>, token: Address) -> U256
    decreases fees.len(),
{
    if fees.len() == 0 {
        U256 { n3: 0, n2: 0, n1: 0, n0: 0 }
    } else if fees[0].0 == token {
        fees[0].1
    } else {
        spec_fee_for(fees.drop_first(), token)
    }
}

fn fee_for(fees: &Vec<(Address, U256)>, token: Address) -> (r: U256)
    ensures
        r == spec_fee_for(fees@, token),
    decreases fees@.len(),
{
    proof {
        assert(fees@.skip(0) =~= fees@);
    }
    let mut i: usize = 0;
    while i < fees.len()
        invariant
            0 <= i <= fees@.len(),
            spec_fee_for(fees@, token) == spec_fee_for(fees@.skip(i as int), token),
        decreases fees@.len() - i,
    {
        if fees[i].0 == token {
            proof {
                assert(fees@.skip(i as int)[0] == fees@[i as int]);
            }
            return fees[i].1;
        }
        proof {
            assert(fees@.skip(i as int).drop_first() =~= fees@.skip(i + 1));
        }
        i = i + 1;
    }
    proof {
        assert(fees@.skip(i as int).len() == 0);
    }
    U256 { n3: 0, n2: 0, n1: 0, n0: 0 }
}

impl MediationFeeConfig {
    pub fn get_flat_fee(&self, token_address: &Address) -> (r: U256)
        ensures
            r == spec_fee_for(self.token_to_flat_fee@, *token_address),
    {
        fee_for(&self.token_to_flat_fee, *token_address)
    }

    pub fn get_proportional_fee(&self, token_address: &Address) -> (r: U256)
        ensures
            r == spec_fee_for(self.token_to_proportional_fee@, *token_address),
    {
        fee_for(&self.token_to_proportional_fee, *token_address)
    }
}

/// A channel between this node and one partner.
#[derive(Clone, PartialEq, Eq, Debug)]
pub struct ChannelState {
    pub canonical_identifier: CanonicalIdentifier,
    pub token_address: Address,
    pub token_network_registry_address: Address,
    pub reveal_timeout: RevealTimeout,
    pub settle_timeout: SettleTimeout,
    pub fee_schedule: FeeScheduleState,
    pub our_state: ChannelEndState,
    pub partner_state: ChannelEndState,
    pub open_transaction: TransactionExecutionStatus,
    pub close_transaction: Option<TransactionExecutionStatus>,
    pub settle_transaction: Option<TransactionExecutionStatus>,
    pub update_transaction: Option<TransactionExecutionStatus>,
}

/// Ghost twin of [`ChannelState`].
#[verifier::ext_equal]
pub ghost struct ChannelStateV {
    pub canonical_identifier: CanonicalIdentifier,
    pub token_address: Address,
    pub token_network_registry_address: Address,
    pub reveal_timeout: RevealTimeout,
    pub settle_timeout: SettleTimeout,
    pub fee_schedule: FeeScheduleState,
    pub our_state: ChannelEndStateV,
    pub partner_state: ChannelEndStateV,
    pub open_transaction: TransactionExecutionStatus,
    pub close_transaction: Option<TransactionExecutionStatus>,
    pub settle_transaction: Option<TransactionExecutionStatus>,
    pub update_transaction: Option<TransactionExecutionStatus>,
}

impl View for ChannelState {
    type V = ChannelStateV;

    open spec fn view(&self) -> ChannelStateV {
        ChannelStateV {
            canonical_identifier: self.canonical_identifier,
            token_address: self.token_address,
            token_network_registry_address: self.token_network_registry_address,
            reveal_timeout: self.reveal_timeout,
            settle_timeout: self.settle_timeout,
            fee_schedule: self.fee_schedule,
            our_state: self.our_state@,
            partner_state: self.partner_state@,
            open_transaction: self.open_transaction,
            close_transaction: self.close_transaction,
            settle_transaction: self.settle_transaction,
            update_transaction: self.update_transaction,
        }
    }
}

/// The mediation routing graph of a token network; this node records none.
#[derive(Clone, Copy, PartialEq, Eq, Structural, Debug, Default)]
pub struct TokenNetworkGraphState {
}

/// A token network: its channels and the index from partner to channel.
#[derive(Clone, PartialEq, Eq, Debug)]
pub struct TokenNetworkState {
    pub address: Address,
    pub token_address: Address,
    pub network_graph: TokenNetworkGraphState,
    pub channelidentifiers_to_channels: Vec<ChannelState>,
    pub partneraddresses_to_channelidentifiers: Vec<(Address, U256)>,
}

/// Ghost twin of [`TokenNetworkState`].
#[verifier::ext_equal]
pub ghost struct TokenNetworkStateV {
    pub address: Address,
    pub token_address: Address,
    pub network_graph: TokenNetworkGraphState,
    pub channelidentifiers_to_channels: Seq<ChannelStateV>,
    pub partneraddresses_to_channelidentifiers: Seq<(Address, U256)>,
}

impl View for TokenNetworkState {
    type V = TokenNetworkStateV;

    open spec fn view(&self) -> TokenNetworkStateV {
        TokenNetworkStateV {
            address: self.address,
            token_address: self.token_address,
            network_graph: self.network_graph,
            channelidentifiers_to_channels: self.channelidentifiers_to_channels@.map_values(
                |c: ChannelState| c@,
            ),
            partneraddresses_to_channelidentifiers: self.partneraddresses_to_channelidentifiers@,
        }
    }
}

/// A registry of token networks, and the index from token to network.
#[derive(Clone, PartialEq, Eq, Debug)]
pub struct TokenNetworkRegistryState {
    pub address: Address,
    pub tokennetworkaddresses_to_tokennetworks: Vec<TokenNetworkState>,
    pub tokenaddresses_to_tokennetworkaddresses: Vec<(Address, Address)>,
}

/// Ghost twin of [`TokenNetworkRegistryState`].
#[verifier::ext_equal]
pub ghost struct TokenNetworkRegistryStateV {
    pub address: Address,
    pub tokennetworkaddresses_to_tokennetworks: Seq<TokenNetworkStateV>,
    pub tokenaddresses_to_tokennetworkaddresses: Seq<(Address, Address)>,
}

impl View for TokenNetworkRegistryState {
    type V = TokenNetworkRegistryStateV;

    open spec fn view(&self) -> TokenNetworkRegistryStateV {
        TokenNetworkRegistryStateV {
            address: self.address,
            tokennetworkaddresses_to_tokennetworks:
                self.tokennetworkaddresses_to_tokennetworks@.map_values(
                |t: TokenNetworkState| t@,
            ),
            tokenaddresses_to_tokennetworkaddresses: self.tokenaddresses_to_tokennetworkaddresses@,
        }
    }
}

/// `(recipient, canonical_identifier)`: the retry key of an outbound queue.
#[derive(Clone, Copy, PartialEq, Eq, Structural, Debug, Hash)]
pub struct QueueIdentifier {
    pub recipient: Address,
    pub canonical_identifier: CanonicalIdentifier,
}

/// The role this node plays in a transfer it tracks.
#[derive(Clone, Copy, PartialEq, Eq, Structural, Debug)]
pub enum TransferRole {
    Initiator,
    Mediator,
    Target,
}

/// A transfer tracked by secret hash in the payment mapping.
#[derive(Clone, Copy, PartialEq, Eq, Structural, Debug)]
pub struct TransferTask {
    pub role: TransferRole,
    pub token_network_registry_address: Address,
    pub token_network_address: Address,
    pub canonical_identifier: CanonicalIdentifier,
    pub payment_identifier: crate::types::PaymentIdentifier,
    pub target: Address,
    pub initiator: Address,
    pub amount: TokenAmount,
    pub secret: Option<Secret>,
}

/// The payment mapping: one tracked transfer per secret hash.
#[derive(Clone, PartialEq, Eq, Debug)]
pub struct PaymentMappingState {
    pub secrethashes_to_task: Vec<(SecretHash, TransferTask)>,
}

impl View for PaymentMappingState {
    type V = Seq<(SecretHash, TransferTask)>;

    open spec fn view(&self) -> Seq<(SecretHash, TransferTask)> {
        self.secrethashes_to_task@
    }
}

/// The 96-byte encoding of a lock:
/// `expiration (32) ‖ amount (32) ‖ secrethash (32)`, big-endian.
pub open spec fn spec_encoded_lock(lock: HashTimeLockState) -> Seq<u8> {
    spec_u64_word(lock.expiration) + spec_u256_be_bytes(lock.amount) + spec_h256_be_bytes(
        lock.secrethash,
    )
}

/// Encodes a lock into its 96 signed bytes.
pub fn encode_lock(lock: &HashTimeLockState) -> (r: Vec<u8>)
    ensures
        r@ == spec_encoded_lock(*lock),
{
    let mut b: Vec<u8> = Vec::new();
    crate::packing::push_u64_word(&mut b, lock.expiration);
    crate::types::push_u256_be(&mut b, lock.amount);
    crate::types::push_h256_be(&mut b, lock.secrethash);
    proof {
        assert(b@ =~= spec_encoded_lock(*lock));
    }
    b
}

/// The concatenation of the encodings of the locks, in insertion order.
pub open spec fn spec_pending_locks_bytes(locks: Seq<HashTimeLockState>) -> Seq<u8>
    decreases locks.len(),
{
    if locks.len() == 0 {
        Seq::empty()
    } else {
        spec_pending_locks_bytes(locks.drop_last()) + spec_encoded_lock(locks.last())
    }
}

/// The locksroot: the Keccak-256 digest of the concatenated lock encodings.
pub open spec fn spec_locksroot(locks: Seq<HashTimeLockState>) -> Locksroot {
    spec_keccak(spec_pending_locks_bytes(locks))
}

/// Computes the locksroot of the pending locks.
pub fn compute_locksroot(locks: &PendingLocksState) -> (r: Locksroot)
    ensures
        r == spec_locksroot(locks@),
{
    let mut bytes: Vec<u8> = Vec::new();
    proof {
        assert(bytes@ =~= spec_pending_locks_bytes(locks@.subrange(0, 0)));
    }
    let mut i: usize = 0;
    while i < locks.locks.len()
        invariant
            0 <= i <= locks.locks@.len(),
            bytes@ == spec_pending_locks_bytes(locks.locks@.subrange(0, i as int)),
        decreases locks.locks@.len() - i,
    {
        let encoded = encode_lock(&locks.locks[i]);
        let mut k: usize = 0;
        while k < encoded.len()
            invariant
                0 <= k <= encoded@.len(),
                bytes@ == spec_pending_locks_bytes(locks.locks@.subrange(0, i as int))
                    + encoded@.subrange(0, k as int),
                i < locks.locks@.len(),
                encoded@ == spec_encoded_lock(locks.locks@[i as int]),
            decreases encoded@.len() - k,
        {
            bytes.push(encoded[k]);
            k = k + 1;
            proof {
                assert(bytes@ =~= spec_pending_locks_bytes(locks.locks@.subrange(0, i as int))
                    + encoded@.subrange(0, k as int));
            }
        }
        i = i + 1;
        proof {
            assert(locks.locks@.subrange(0, i as int).drop_last() =~= locks.locks@.subrange(
                0,
                i - 1,
            ));
            assert(locks.locks@.subrange(0, i as int).last() == locks.locks@[i - 1]);
            assert(encoded@.subrange(0, encoded@.len() as int) =~= encoded@);
            assert(bytes@ =~= spec_pending_locks_bytes(locks.locks@.subrange(0, i as int)));
        }
    }
    proof {
        assert(locks.locks@.subrange(0, locks.locks@.len() as int) =~= locks.locks@);
    }
    crate::hashing::keccak256(&bytes)
}

/// The balance hash committed by a balance proof:
/// `Keccak(transferred ‖ locked ‖ locksroot)`, each part 32 bytes.
pub open spec fn spec_balance_hash(
    transferred: TokenAmount,
    locked: LockedAmount,
    locksroot: Locksroot,
) -> H256 {
    spec_keccak(
        spec_u256_be_bytes(transferred) + spec_u256_be_bytes(locked) + spec_h256_be_bytes(
            locksroot,
        ),
    )
}

/// Computes the balance hash of a balance proof triple.
pub fn compute_balance_hash(
    transferred: TokenAmount,
    locked: LockedAmount,
    locksroot: Locksroot,
) -> (r: H256)
    ensures
        r == spec_balance_hash(transferred, locked, locksroot),
{
    let mut b: Vec<u8> = Vec::new();
    crate::types::push_u256_be(&mut b, transferred);
    crate::types::push_u256_be(&mut b, locked);
    crate::types::push_h256_be(&mut b, locksroot);
    proof {
        assert(b@ =~= spec_u256_be_bytes(transferred) + spec_u256_be_bytes(locked)
            + spec_h256_be_bytes(locksroot));
    }
    crate::hashing::keccak256(&b)
}

/// The largest total withdraw among the pending withdraws, zero when there
/// is none.
pub open spec fn spec_max_withdraw(s: Seq<PendingWithdrawState>) -> nat
    decreases s.len(),
{
    if s.len() == 0 {
        0
    } else {
        let rest = spec_max_withdraw(s.drop_last());
        if s.last().total_withdraw.as_nat() >= rest {
            s.last().total_withdraw.as_nat()
        } else {
            rest
        }
    }
}

impl ChannelEndStateV {
    /// The empty end a fresh channel starts with.
    pub open spec fn spec_empty(address: Address) -> ChannelEndStateV {
        ChannelEndStateV {
            address,
            contract_balance: U256 { n3: 0, n2: 0, n1: 0, n0: 0 },
            onchain_total_withdraw: U256 { n3: 0, n2: 0, n1: 0, n0: 0 },
            withdraws_pending: Seq::empty(),
            withdraws_expired: Seq::empty(),
            secrethashes_to_lockedlocks: Seq::empty(),
            secrethashes_to_unlockedlocks: Seq::empty(),
            secrethashes_to_onchain_unlockedlocks: Seq::empty(),
            balance_proof: None,
            pending_locks: Seq::empty(),
            onchain_locksroot: H256 { b3: 0, b2: 0, b1: 0, b0: 0 },
            nonce: U256 { n3: 0, n2: 0, n1: 0, n0: 0 },
        }
    }

    /// The largest withdraw this end has asked for off-chain.
    pub open spec fn spec_offchain_total_withdraw(self) -> nat {
        spec_max_withdraw(self.withdraws_pending)
    }

    /// The effective total withdraw: the larger of the on-chain total and
    /// the largest pending request.
    pub open spec fn spec_total_withdraw(self) -> nat {
        if self.spec_offchain_total_withdraw() >= self.onchain_total_withdraw.as_nat() {
            self.spec_offchain_total_withdraw()
        } else {
            self.onchain_total_withdraw.as_nat()
        }
    }

    /// What this end can still dispose of: its deposits less its withdraws.
    pub open spec fn spec_end_balance(self) -> nat {
        if self.contract_balance.as_nat() >= self.spec_total_withdraw() {
            (self.contract_balance.as_nat() - self.spec_total_withdraw()) as nat
        } else {
            0
        }
    }
}

impl ChannelEndState {
    pub fn new(address: Address) -> (r: ChannelEndState)
        ensures
            r@ == ChannelEndStateV::spec_empty(address),
    {
        let r = ChannelEndState {
            address,
            contract_balance: U256::zero(),
            onchain_total_withdraw: U256::zero(),
            withdraws_pending: Vec::new(),
            withdraws_expired: Vec::new(),
            secrethashes_to_lockedlocks: Vec::new(),
            secrethashes_to_unlockedlocks: Vec::new(),
            secrethashes_to_onchain_unlockedlocks: Vec::new(),
            balance_proof: None,
            pending_locks: PendingLocksState { locks: Vec::new() },
            onchain_locksroot: H256::zero(),
            nonce: U256::zero(),
        };
        proof {
            assert(r@ =~= ChannelEndStateV::spec_empty(address));
        }
        r
    }

    /// The largest withdraw this end has asked for off-chain.
    pub fn offchain_total_withdraw(&self) -> (r: TokenAmount)
        ensures
            r.as_nat() == self@.spec_offchain_total_withdraw(),
    {
        let mut acc = U256::zero();
        proof {
            assert(self.withdraws_pending@.subrange(0, 0) =~= Seq::<
                PendingWithdrawState,
            >::empty());
        }
        let mut i: usize = 0;
        while i < self.withdraws_pending.len()
            invariant
                0 <= i <= self.withdraws_pending@.len(),
                acc.as_nat() == spec_max_withdraw(self.withdraws_pending@.subrange(0, i as int)),
            decreases self.withdraws_pending@.len() - i,
        {
            acc = acc.max_of(self.withdraws_pending[i].total_withdraw);
            i = i + 1;
            proof {
                assert(self.withdraws_pending@.subrange(0, i as int).drop_last()
                    =~= self.withdraws_pending@.subrange(0, i - 1));
                assert(self.withdraws_pending@.subrange(0, i as int).last()
                    == self.withdraws_pending@[i - 1]);
            }
        }
        proof {
            assert(self.withdraws_pending@.subrange(0, self.withdraws_pending@.len() as int)
                =~= self.withdraws_pending@);
        }
        acc
    }

    /// The effective total withdraw of this end.
    pub fn total_withdraw(&self) -> (r: TokenAmount)
        ensures
            r.as_nat() == self@.spec_total_withdraw(),
    {
        self.offchain_total_withdraw().max_of(self.onchain_total_withdraw)
    }

    /// The nonce the next balance proof of this end must carry, or `None`
    /// when the nonce space is exhausted.
    pub fn next_nonce(&self) -> (r: Option<Nonce>)
        ensures
            r == self.nonce.spec_inc(),
            match r {
                Some(n) => n.as_nat() == self.nonce.as_nat() + 1,
                None => self.nonce.as_nat() + 1
                    >= 0x1_0000_0000_0000_0000_0000_0000_0000_0000_0000_0000_0000_0000_0000_0000_0000_0000,
            },
    {
        self.nonce.checked_add(U256 { n3: 0, n2: 0, n1: 0, n0: 1 })
    }
}

/// The reason a channel could not be constructed.
#[derive(Clone, Copy, PartialEq, Eq, Structural, Debug)]
pub enum ChannelError {
    /// The reveal timeout must be strictly smaller than the settle timeout.
    InvalidTimeouts { reveal_timeout: RevealTimeout, settle_timeout: SettleTimeout },
}

impl ChannelStateV {
    /// The derived status of the channel: settle markers dominate close
    /// markers, and a channel with neither is open.
    pub open spec fn spec_status(self) -> ChannelStatus {
        if self.settle_transaction is Some {
            let settle = self.settle_transaction->Some_0;
            if settle.result == Some(TransactionResult::Success) {
                ChannelStatus::Settled
            } else if settle.finished_block_number is None {
                ChannelStatus::Settling
            } else {
                ChannelStatus::Unusable
            }
        } else if self.close_transaction is Some {
            let close = self.close_transaction->Some_0;
            if close.result == Some(TransactionResult::Success) {
                ChannelStatus::Closed
            } else if close.finished_block_number is None {
                ChannelStatus::Closing
            } else {
                ChannelStatus::Unusable
            }
        } else {
            ChannelStatus::Opened
        }
    }

    /// The channel's capacity: what both ends together can still dispose
    /// of, capped at the largest 256-bit value.
    pub open spec fn spec_capacity(self) -> nat {
        if self.our_state.spec_end_balance() + self.partner_state.spec_end_balance()
            < 0x1_0000_0000_0000_0000_0000_0000_0000_0000_0000_0000_0000_0000_0000_0000_0000_0000 {
            self.our_state.spec_end_balance() + self.partner_state.spec_end_balance()
        } else {
            (0x1_0000_0000_0000_0000_0000_0000_0000_0000_0000_0000_0000_0000_0000_0000_0000_0000
                - 1) as nat
        }
    }
}

impl ChannelState {
    /// Builds a fresh channel. Returns an error exactly when the reveal
    /// timeout is not strictly smaller than the settle timeout.
    pub fn new(
        canonical_identifier: CanonicalIdentifier,
        token_address: Address,
        token_network_registry_address: Address,
        our_address: Address,
        partner_address: Address,
        reveal_timeout: RevealTimeout,
        settle_timeout: SettleTimeout,
        open_transaction: TransactionExecutionStatus,
        fee_config: MediationFeeConfig,
    ) -> (r: Result<ChannelState, ChannelError>)
        ensures
            match r {
                Ok(c) => reveal_timeout < settle_timeout && c@ == (ChannelStateV {
                    canonical_identifier,
                    token_address,
                    token_network_registry_address,
                    reveal_timeout,
                    settle_timeout,
                    fee_schedule: (FeeScheduleState {
                        cap_fees: fee_config.cap_meditation_fees,
                        flat: spec_fee_for(fee_config.token_to_flat_fee@, token_address),
                        proportional: spec_fee_for(
                            fee_config.token_to_proportional_fee@,
                            token_address,
                        ),
                    }),
                    our_state: ChannelEndStateV::spec_empty(our_address),
                    partner_state: ChannelEndStateV::spec_empty(partner_address),
                    open_transaction,
                    close_transaction: None,
                    settle_transaction: None,
                    update_transaction: None,
                }),
                Err(e) => reveal_timeout >= settle_timeout && e == (ChannelError::InvalidTimeouts {
                    reveal_timeout,
                    settle_timeout,
                }),
            },
    {
        if reveal_timeout >= settle_timeout {
            return Err(ChannelError::InvalidTimeouts { reveal_timeout, settle_timeout });
        }
        let flat = fee_config.get_flat_fee(&token_address);
        let proportional = fee_config.get_proportional_fee(&token_address);
        let r = ChannelState {
            canonical_identifier,
            token_address,
            token_network_registry_address,
            reveal_timeout,
            settle_timeout,
            fee_schedule: FeeScheduleState {
                cap_fees: fee_config.cap_meditation_fees,
                flat,
                proportional,
            },
            our_state: ChannelEndState::new(our_address),
            partner_state: ChannelEndState::new(partner_address),
            open_transaction,
            close_transaction: None,
            settle_transaction: None,
            update_transaction: None,
        };
        Ok(r)
    }

    /// The derived status of the channel.
    pub fn status(&self) -> (r: ChannelStatus)
        ensures
            r == self@.spec_status(),
    {
        if let Some(settle_transaction) = &self.settle_transaction {
            if settle_transaction.result == Some(TransactionResult::Success) {
                ChannelStatus::Settled
            } else if settle_transaction.finished_block_number.is_none() {
                ChannelStatus::Settling
            } else {
                ChannelStatus::Unusable
            }
        } else if let Some(close_transaction) = &self.close_transaction {
            if close_transaction.result == Some(TransactionResult::Success) {
                ChannelStatus::Closed
            } else if close_transaction.finished_block_number.is_none() {
                ChannelStatus::Closing
            } else {
                ChannelStatus::Unusable
            }
        } else {
            ChannelStatus::Opened
        }
    }

    /// The channel's capacity.
    pub fn capacity(&self) -> (r: TokenAmount)
        ensures
            r.as_nat() == self@.spec_capacity(),
    {
        let ours = self.our_state.contract_balance.saturating_sub(self.our_state.total_withdraw());
        let partners = self.partner_state.contract_balance.saturating_sub(
            self.partner_state.total_withdraw(),
        );
        ours.saturating_add(partners)
    }
}

impl TokenNetworkState {
    pub fn new(address: Address, token_address: Address) -> (r: TokenNetworkState)
        ensures
            r@ == (TokenNetworkStateV {
                address,
                token_address,
                network_graph: TokenNetworkGraphState {  },
                channelidentifiers_to_channels: Seq::empty(),
                partneraddresses_to_channelidentifiers: Seq::empty(),
            }),
    {
        let r = TokenNetworkState {
            address,
            token_address,
            network_graph: TokenNetworkGraphState {  },
            channelidentifiers_to_channels: Vec::new(),
            partneraddresses_to_channelidentifiers: Vec::new(),
        };
        proof {
            assert(r@ =~= (TokenNetworkStateV {
                address,
                token_address,
                network_graph: TokenNetworkGraphState {  },
                channelidentifiers_to_channels: Seq::empty(),
                partneraddresses_to_channelidentifiers: Seq::empty(),
            }));
        }
        r
    }
}

/// The deterministic stream that issues message identifiers; its seed is
/// part of the persistent state.
#[derive(Clone, Copy, PartialEq, Eq, Structural, Debug)]
pub struct Random {
    pub seed: u64,
}

/// The next state of the deterministic stream: a 64-bit linear congruence.
pub open spec fn spec_rng_next(seed: u64) -> u64 {
    (((seed * 6364136223846793005) % 0x1_0000_0000_0000_0000 + 1442695040888963407)
        % 0x1_0000_0000_0000_0000) as u64
}

impl Random {
    pub fn new() -> (r: Random)
        ensures
            r == (Random { seed: 1 }),
    {
        Random { seed: 1 }
    }

    /// Advances the stream and returns the fresh value.
    pub fn next(&mut self) -> (r: u64)
        ensures
            final(self).seed == spec_rng_next(old(self).seed),
            r == final(self).seed,
    {
        let next: u64 = self.seed.wrapping_mul(6364136223846793005).wrapping_add(
            1442695040888963407,
        );
        self.seed = next;
        next
    }
}

/// One hop of a route.
#[derive(Clone, Copy, PartialEq, Eq, Structural, Debug)]
pub struct HopState {
    pub node_address: Address,
    pub channel_identifier: U256,
}

/// A candidate route for a transfer, with delivery metadata per address.
#[derive(PartialEq, Eq, Debug)]
pub struct RouteState {
    pub route: Vec<Address>,
    pub address_to_metadata: Vec<(Address, crate::event::AddressMetadata)>,
    pub estimated_fee: TokenAmount,
}

/// Ghost twin of [`RouteState`].
#[verifier::ext_equal]
pub ghost struct RouteStateV {
    pub route: Seq<Address>,
    pub address_to_metadata: Seq<(Address, crate::event::AddressMetadata)>,
    pub estimated_fee: TokenAmount,
}

impl View for RouteState {
    type V = RouteStateV;

    open spec fn view(&self) -> RouteStateV {
        RouteStateV {
            route: self.route@,
            address_to_metadata: self.address_to_metadata@,
            estimated_fee: self.estimated_fee,
        }
    }
}

/// Copies a list of addresses.
fn clone_addresses(v: &Vec<Address>) -> (r: Vec<Address>)
    ensures
        r@ == v@,
{
    let mut out: Vec<Address> = Vec::new();
    let mut i: usize = 0;
    while i < v.len()
        invariant
            0 <= i <= v@.len(),
            out@ == v@.subrange(0, i as int),
        decreases v@.len() - i,
    {
        out.push(v[i]);
        i = i + 1;
        proof {
            assert(out@ =~= v@.subrange(0, i as int));
        }
    }
    proof {
        assert(v@.subrange(0, v@.len() as int) =~= v@);
    }
    out
}

/// Copies a list of locks.
pub fn clone_locks(v: &Vec<HashTimeLockState>) -> (r: Vec<HashTimeLockState>)
    ensures
        r@ == v@,
{
    let mut out: Vec<HashTimeLockState> = Vec::new();
    let mut i: usize = 0;
    while i < v.len()
        invariant
            0 <= i <= v@.len(),
            out@ == v@.subrange(0, i as int),
        decreases v@.len() - i,
    {
        out.push(v[i]);
        i = i + 1;
        proof {
            assert(out@ =~= v@.subrange(0, i as int));
        }
    }
    proof {
        assert(v@.subrange(0, v@.len() as int) =~= v@);
    }
    out
}

/// Copies a metadata table.
fn clone_metadata_pairs(v: &Vec<(Address, crate::event::AddressMetadata)>) -> (r: Vec<
    (Address, crate::event::AddressMetadata),
>)
    ensures
        r@ == v@,
{
    let mut out: Vec<(Address, crate::event::AddressMetadata)> = Vec::new();
    let mut i: usize = 0;
    while i < v.len()
        invariant
            0 <= i <= v@.len(),
            out@ == v@.subrange(0, i as int),
        decreases v@.len() - i,
    {
        let pair = (v[i].0, v[i].1.clone());
        out.push(pair);
        i = i + 1;
        proof {
            assert(out@ =~= v@.subrange(0, i as int));
        }
    }
    proof {
        assert(v@.subrange(0, v@.len() as int) =~= v@);
    }
    out
}

impl Clone for RouteState {
    fn clone(&self) -> (r: Self)
        ensures
            r@ == self@,
    {
        RouteState {
            route: clone_addresses(&self.route),
            address_to_metadata: clone_metadata_pairs(&self.address_to_metadata),
            estimated_fee: self.estimated_fee,
        }
    }
}

/// Copies a list of routes.
pub fn clone_routes(v: &Vec<RouteState>) -> (r: Vec<RouteState>)
    ensures
        r@.map_values(|x: RouteState| x@) == v@.map_values(|x: RouteState| x@),
{
    let mut out: Vec<RouteState> = Vec::new();
    let mut i: usize = 0;
    while i < v.len()
        invariant
            0 <= i <= v@.len(),
            out@.len() == i,
            forall|k: int| 0 <= k < i ==> #[trigger] out@[k]@ == v@[k]@,
        decreases v@.len() - i,
    {
        out.push(v[i].clone());
        i = i + 1;
    }
    proof {
        assert(out@.map_values(|x: RouteState| x@) =~= v@.map_values(|x: RouteState| x@));
    }
    out
}

/// What the initiator knows about a transfer it starts, secret included.
#[derive(Clone, Copy, PartialEq, Eq, Structural, Debug)]
pub struct TransferDescriptionWithSecretState {
    pub token_network_registry_address: Address,
    pub payment_identifier: crate::types::PaymentIdentifier,
    pub amount: TokenAmount,
    pub token_network_address: Address,
    pub initiator: Address,
    pub target: Address,
    pub secret: Secret,
    pub secrethash: SecretHash,
    pub lock_timeout: Option<crate::types::BlockTimeout>,
}

/// A locked transfer as it travels in a message, with its balance proof.
#[derive(PartialEq, Eq, Debug)]
pub struct LockedTransferState {
    pub payment_identifier: crate::types::PaymentIdentifier,
    pub token: Address,
    pub lock: HashTimeLockState,
    pub initiator: Address,
    pub target: Address,
    pub message_identifier: MessageIdentifier,
    pub route_states: Vec<RouteState>,
    pub balance_proof: BalanceProofState,
}

/// Ghost twin of [`LockedTransferState`].
#[verifier::ext_equal]
pub ghost struct LockedTransferStateV {
    pub payment_identifier: crate::types::PaymentIdentifier,
    pub token: Address,
    pub lock: HashTimeLockState,
    pub initiator: Address,
    pub target: Address,
    pub message_identifier: MessageIdentifier,
    pub route_states: Seq<RouteStateV>,
    pub balance_proof: BalanceProofState,
}

impl View for LockedTransferState {
    type V = LockedTransferStateV;

    open spec fn view(&self) -> LockedTransferStateV {
        LockedTransferStateV {
            payment_identifier: self.payment_identifier,
            token: self.token,
            lock: self.lock,
            initiator: self.initiator,
            target: self.target,
            message_identifier: self.message_identifier,
            route_states: self.route_states@.map_values(|x: RouteState| x@),
            balance_proof: self.balance_proof,
        }
    }
}

impl Clone for LockedTransferState {
    fn clone(&self) -> (r: Self)
        ensures
            r@ == self@,
    {
        let r = LockedTransferState {
            payment_identifier: self.payment_identifier,
            token: self.token,
            lock: self.lock,
            initiator: self.initiator,
            target: self.target,
            message_identifier: self.message_identifier,
            route_states: clone_routes(&self.route_states),
            balance_proof: self.balance_proof,
        };
        proof {
            assert(r@ =~= self@);
        }
        r
    }
}

/// A deposit observed on-chain.
#[derive(Clone, Copy, PartialEq, Eq, Structural, Debug)]
pub struct TransactionChannelDeposit {
    pub participant_address: Address,
    pub contract_balance: TokenAmount,
    pub deposit_block_number: BlockNumber,
}

/// One outbound queue: its retry key and its ordered messages.
#[derive(Clone, PartialEq, Eq, Debug)]
pub struct QueueEntry {
    pub queue_identifier: QueueIdentifier,
    pub events: Vec<crate::event::SendMessageEvent>,
}

/// Ghost twin of [`QueueEntry`].
#[verifier::ext_equal]
pub ghost struct QueueEntryV {
    pub queue_identifier: QueueIdentifier,
    pub events: Seq<crate::event::SendMessageEventV>,
}

impl View for QueueEntry {
    type V = QueueEntryV;

    open spec fn view(&self) -> QueueEntryV {
        QueueEntryV {
            queue_identifier: self.queue_identifier,
            events: self.events@.map_values(|e: crate::event::SendMessageEvent| e@),
        }
    }
}

/// The root of the state tree, owned by a single writer.
#[derive(Clone, PartialEq, Eq, Debug)]
pub struct ChainState {
    pub chain_id: crate::types::ChainID,
    pub block_number: BlockNumber,
    pub block_hash: BlockHash,
    pub our_address: Address,
    pub identifiers_to_tokennetworkregistries: Vec<TokenNetworkRegistryState>,
    pub queueids_to_queues: Vec<QueueEntry>,
    pub payment_mapping: PaymentMappingState,
    pub pseudo_random_number_generator: Random,
}

/// Ghost twin of [`ChainState`].
#[verifier::ext_equal]
pub ghost struct ChainStateV {
    pub chain_id: crate::types::ChainID,
    pub block_number: BlockNumber,
    pub block_hash: BlockHash,
    pub our_address: Address,
    pub identifiers_to_tokennetworkregistries: Seq<TokenNetworkRegistryStateV>,
    pub queueids_to_queues: Seq<QueueEntryV>,
    pub payment_mapping: Seq<(SecretHash, TransferTask)>,
    pub pseudo_random_number_generator: Random,
}

impl View for ChainState {
    type V = ChainStateV;

    open spec fn view(&self) -> ChainStateV {
        ChainStateV {
            chain_id: self.chain_id,
            block_number: self.block_number,
            block_hash: self.block_hash,
            our_address: self.our_address,
            identifiers_to_tokennetworkregistries:
                self.identifiers_to_tokennetworkregistries@.map_values(
                |r: TokenNetworkRegistryState| r@,
            ),
            queueids_to_queues: self.queueids_to_queues@.map_values(|q: QueueEntry| q@),
            payment_mapping: self.payment_mapping@,
            pseudo_random_number_generator: self.pseudo_random_number_generator,
        }
    }
}

impl ChainStateV {
    /// The fresh state an `ActionInitChain` creates.
    pub open spec fn spec_new(
        chain_id: crate::types::ChainID,
        block_number: BlockNumber,
        block_hash: BlockHash,
        our_address: Address,
    ) -> ChainStateV {
        ChainStateV {
            chain_id,
            block_number,
            block_hash,
            our_address,
            identifiers_to_tokennetworkregistries: Seq::empty(),
            queueids_to_queues: Seq::empty(),
            payment_mapping: Seq::empty(),
            pseudo_random_number_generator: Random { seed: 1 },
        }
    }
}

impl ChainState {
    pub fn new(
        chain_id: crate::types::ChainID,
        block_number: BlockNumber,
        block_hash: BlockHash,
        our_address: Address,
    ) -> (r: ChainState)
        ensures
            r@ == ChainStateV::spec_new(chain_id, block_number, block_hash, our_address),
    {
        let r = ChainState {
            chain_id,
            block_number,
            block_hash,
            our_address,
            identifiers_to_tokennetworkregistries: Vec::new(),
            queueids_to_queues: Vec::new(),
            payment_mapping: PaymentMappingState { secrethashes_to_task: Vec::new() },
            pseudo_random_number_generator: Random::new(),
        };
        proof {
            assert(r@ =~= ChainStateV::spec_new(chain_id, block_number, block_hash, our_address));
        }
        r
    }
}

} // verus!
