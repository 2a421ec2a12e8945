//! The event decoder: turns a chain log record into a typed contract event
//! by matching its first topic against the known event signatures, and the
//! typed event into the state change the reducer accepts. Every converter's
//! contract is an exact case split: it says on which inputs conversion
//! succeeds, on which the event is ignored, and which error each malformed
//! input draws.

use vstd::prelude::*;

use crate::packing::CanonicalIdentifier;
use crate::state::{
    ChannelError, ChannelState, MediationFeeConfig, TokenNetworkState,
    TransactionChannelDeposit, TransactionExecutionStatus, TransactionResult,
    DEFAULT_REVEAL_TIMEOUT,
};
use crate::state_change::{
    ContractReceiveChannelClosed, ContractReceiveChannelDeposit, ContractReceiveChannelSettled,
    ContractReceiveChannelWithdraw, ContractReceiveTokenNetworkCreated,
    ContractReceiveUpdateTransfer, StateChange,
};
use crate::types::{
    spec_address_from_be_word, spec_h256_be_bytes, spec_u256_from_be, Address, BlockNumber,
    ChainID, H256, U256,
};

verus! {

broadcast use vstd::std_specs::vec::axiom_spec_len;

/// A decoded contract-event parameter.
#[derive(Clone, Copy, PartialEq, Eq, Structural, Debug)]
pub enum Token {
    AddressValue(Address),
    UintValue(U256),
    FixedBytes(H256),
}

/// The contract events this node decodes.
#[derive(Clone, Copy, PartialEq, Eq, Structural, Debug)]
pub enum EventKind {
    TokenNetworkCreated,
    ChannelOpened,
    ChannelNewDeposit,
    ChannelWithdraw,
    ChannelClosed,
    ChannelSettled,
    NonClosingBalanceProofUpdated,
}

/// The parameter shapes an event's words decode to.
#[derive(Clone, Copy, PartialEq, Eq, Structural, Debug)]
pub enum ParamKind {
    AddressParam,
    UintParam,
    FixedBytesParam,
}

/// One known contract event: its signature topic and the shapes of its
/// indexed topics and data words, in order.
#[derive(Clone, PartialEq, Eq, Debug)]
pub struct EventSpecItem {
    pub signature: H256,
    pub kind: EventKind,
    pub indexed: Vec<ParamKind>,
    pub data: Vec<ParamKind>,
}

/// Ghost twin of [`EventSpecItem`].
#[verifier::ext_equal]
pub ghost struct EventSpecItemV {
    pub signature: H256,
    pub kind: EventKind,
    pub indexed: Seq<ParamKind>,
    pub data: Seq<ParamKind>,
}

impl View for EventSpecItem {
    type V = EventSpecItemV;

    open spec fn view(&self) -> EventSpecItemV {
        EventSpecItemV {
            signature: self.signature,
            kind: self.kind,
            indexed: self.indexed@,
            data: self.data@,
        }
    }
}

/// A raw chain log record.
#[derive(Clone, PartialEq, Eq, Debug)]
pub struct Log {
    pub address: Address,
    pub topics: Vec<H256>,
    pub data: Vec<u8>,
    pub block_number: BlockNumber,
    pub block_hash: H256,
    pub transaction_hash: H256,
}

/// A typed contract event decoded from a log.
#[derive(Clone, PartialEq, Eq, Debug)]
pub struct Event {
    pub name: EventKind,
    pub address: Address,
    pub block_number: BlockNumber,
    pub block_hash: H256,
    pub transaction_hash: H256,
    pub data: Vec<Token>,
}

/// Why a log or an event could not be decoded.
#[derive(Clone, Copy, PartialEq, Eq, Structural, Debug)]
pub enum DecodeError {
    UnknownEvent,
    MissingParameter,
    InvalidParameter,
    UnknownTokenNetwork,
    UnknownChannel,
    InvalidChannel(ChannelError),
}

/// The token a 32-byte big-endian word decodes to under a parameter shape.
pub open spec fn spec_word_token(kind: ParamKind, bytes: Seq<u8>, i: int) -> Token {
    match kind {
        ParamKind::AddressParam => Token::AddressValue(spec_address_from_be_word(bytes, i)),
        ParamKind::UintParam => Token::UintValue(spec_u256_from_be(bytes, i)),
        ParamKind::FixedBytesParam => Token::FixedBytes(
            crate::types::spec_h256_from_be(bytes, i),
        ),
    }
}

fn word_token(kind: ParamKind, bytes: &Vec<u8>, i: usize) -> (r: Token)
    requires
        i + 32 <= bytes@.len(),
    ensures
        r == spec_word_token(kind, bytes@, i as int),
{
    match kind {
        ParamKind::AddressParam => Token::AddressValue(
            crate::types::address_from_be_word(bytes, i),
        ),
        ParamKind::UintParam => Token::UintValue(crate::types::u256_from_be(bytes, i)),
        ParamKind::FixedBytesParam => Token::FixedBytes(crate::types::h256_from_be(bytes, i)),
    }
}

/// First index of the table entry with this signature, `None` when no entry
/// matches.
pub open spec fn spec_find_item(regs: Seq<EventSpecItemV>, topic0: H256) -> Option<int>
    decreases regs.len(),
{
    if regs.len() == 0 {
        None
    } else if regs[0].signature == topic0 {
        Some(0int)
    } else {
        match spec_find_item(regs.drop_first(), topic0) {
            None => None,
            Some(r) => Some(r + 1),
        }
    }
}

/// Whether the log is long enough for the entry's shape: one topic per
/// indexed parameter after the signature, and one 32-byte word per data
/// parameter.
pub open spec fn spec_log_shape_ok(item: EventSpecItemV, topics: Seq<H256>, data: Seq<u8>) -> bool {
    topics.len() >= 1 + item.indexed.len() && data.len() >= 32 * item.data.len()
}

/// The words an event's parameters decode to: the indexed topics in topic
/// order, then the data words in order.
pub open spec fn spec_decoded_tokens(
    item: EventSpecItemV,
    topics: Seq<H256>,
    data: Seq<u8>,
) -> Seq<Token> {
    Seq::new(
        item.indexed.len(),
        |i: int| spec_word_token(item.indexed[i], spec_h256_be_bytes(topics[1 + i]), 0),
    ) + Seq::new(item.data.len(), |j: int| spec_word_token(item.data[j], data, 32 * j))
}

/// What decoding a log yields: nothing when no signature matches the first
/// topic or the log is too short for the first matching entry's shape;
/// otherwise the typed event carrying the log's metadata and its decoded
/// parameter words.
pub open spec fn spec_decode_log_post(
    regs: Seq<EventSpecItemV>,
    log: Log,
    r: Option<Event>,
) -> bool {
    if log.topics@.len() == 0 {
        r is None
    } else {
        match spec_find_item(regs, log.topics@[0]) {
            None => r is None,
            Some(k) => {
                let item = regs[k];
                if !spec_log_shape_ok(item, log.topics@, log.data@) {
                    r is None
                } else {
                    r matches Some(ev) && ev.name == item.kind && ev.address == log.address
                        && ev.block_number == log.block_number && ev.block_hash == log.block_hash
                        && ev.transaction_hash == log.transaction_hash && ev.data@
                        == spec_decoded_tokens(item, log.topics@, log.data@)
                }
            },
        }
    }
}

/// Reads an entry's parameter words out of a log that is long enough for
/// its shape.
#[verifier::rlimit(100)]
fn decoded_tokens(item: &EventSpecItem, log: &Log) -> (r: Vec<Token>)
    requires
        log.topics@.len() >= 1 + item@.indexed.len(),
        log.data@.len() >= 32 * item@.data.len(),
    ensures
        r@ == spec_decoded_tokens(item@, log.topics@, log.data@),
{
    let topics_len: usize = log.topics.len();
    let data_len: usize = log.data.len();
    let mut data: Vec<Token> = Vec::new();
    let mut i: usize = 0;
    while i < item.indexed.len()
        invariant
            log.topics@.len() >= 1 + item@.indexed.len(),
            log.topics@.len() <= usize::MAX,
            0 <= i <= item@.indexed.len(),
            data@.len() == i,
            forall|x: int| 0 <= x < i ==> data@[x] == spec_word_token(
                item@.indexed[x],
                spec_h256_be_bytes(log.topics@[1 + x]),
                0,
            ),
        decreases item@.indexed.len() - i,
    {
        let mut word: Vec<u8> = Vec::new();
        crate::types::push_h256_be(&mut word, log.topics[1 + i]);
        let t = word_token(item.indexed[i], &word, 0);
        data.push(t);
        i = i + 1;
    }
    let mut j: usize = 0;
    while j < item.data.len()
        invariant
            log.data@.len() >= 32 * item@.data.len(),
            log.data@.len() <= usize::MAX,
            0 <= j <= item@.data.len(),
            data@.len() == item@.indexed.len() + j,
            forall|x: int| 0 <= x < item@.indexed.len() ==> data@[x] == spec_word_token(
                item@.indexed[x],
                spec_h256_be_bytes(log.topics@[1 + x]),
                0,
            ),
            forall|x: int| 0 <= x < j ==> data@[item@.indexed.len() + x] == spec_word_token(
                item@.data[x],
                log.data@,
                32 * x,
            ),
        decreases item@.data.len() - j,
    {
        let t = word_token(item.data[j], &log.data, 32 * j);
        data.push(t);
        j = j + 1;
    }
    proof {
        assert(data@ =~= spec_decoded_tokens(item@, log.topics@, log.data@));
    }
    data
}

/// Decodes one log against the table of known events; the first matching
/// signature wins.
#[verifier::rlimit(100)]
pub fn decode_log(registry: &Vec<EventSpecItem>, log: &Log) -> (r: Option<Event>)
    ensures
        spec_decode_log_post(registry@.map_values(|x: EventSpecItem| x@), *log, r),
{
    let ghost regs = registry@.map_values(|x: EventSpecItem| x@);
    let topics_len: usize = log.topics.len();
    if topics_len == 0 {
        return None;
    }
    let data_len: usize = log.data.len();
    let topic0 = log.topics[0];
    proof {
        assert(regs.skip(0) =~= regs);
    }
    let mut k: usize = 0;
    while k < registry.len()
        invariant
            regs == registry@.map_values(|x: EventSpecItem| x@),
            0 <= k <= regs.len(),
            log.topics@.len() > 0,
            log.topics@.len() <= usize::MAX,
            log.data@.len() <= usize::MAX,
            topic0 == log.topics@[0],
            spec_find_item(regs, topic0) == match spec_find_item(regs.skip(k as int), topic0) {
                None => None::<int>,
                Some(r) => Some(k + r),
            },
        decreases regs.len() - k,
    {
        proof {
            assert(regs.skip(k as int)[0] == regs[k as int]);
        }
        if registry[k].signature == topic0 {
            let item = &registry[k];
            if log.topics.len() - 1 < item.indexed.len() {
                return None;
            }
            let words = log.data.len() / 32;
            proof {
                assert((log.data@.len() / 32 >= item@.data.len()) == (log.data@.len() >= 32
                    * item@.data.len())) by (nonlinear_arith);
            }
            if words < item.data.len() {
                return None;
            }
            let data = decoded_tokens(item, log);
            return Some(
                Event {
                    name: item.kind,
                    address: log.address,
                    block_number: log.block_number,
                    block_hash: log.block_hash,
                    transaction_hash: log.transaction_hash,
                    data,
                },
            );
        }
        proof {
            assert(regs.skip(k as int).drop_first() =~= regs.skip(k + 1));
            assert(spec_find_item(regs.skip(k as int), topic0) == match spec_find_item(
                regs.skip(k + 1),
                topic0,
            ) {
                None => None::<int>,
                Some(r) => Some(1 + r),
            });
        }
        k = k + 1;
    }
    proof {
        assert(regs.skip(k as int).len() == 0);
    }
    None
}

/// Whether a 256-bit token value fits in a 64-bit block count.
pub open spec fn spec_fits_u64(v: U256) -> bool {
    v.n3 == 0 && v.n2 == 0 && v.n1 == 0
}

/// What converting a `TokenNetworkCreated` event yields: the fresh token
/// network exactly when the event carries the token address and the token
/// network address; too few parameters draw `MissingParameter` and
/// mis-typed ones `InvalidParameter`.
pub open spec fn spec_token_network_created_post(
    event: Event,
    r: Result<StateChange, DecodeError>,
) -> bool {
    let d = event.data@;
    if d.len() < 2 {
        r == Err::<StateChange, DecodeError>(DecodeError::MissingParameter)
    } else if !(d[0] is AddressValue && d[1] is AddressValue) {
        r == Err::<StateChange, DecodeError>(DecodeError::InvalidParameter)
    } else {
        r matches Ok(sc) && sc matches StateChange::ContractReceiveTokenNetworkCreated(x)
            && x.token_network@ == (crate::state::TokenNetworkStateV {
            address: d[1]->AddressValue_0,
            token_address: d[0]->AddressValue_0,
            network_graph: (crate::state::TokenNetworkGraphState {  }),
            channelidentifiers_to_channels: Seq::empty(),
            partneraddresses_to_channelidentifiers: Seq::empty(),
        }) && x.token_network_registry_address == event.address && x.block_number
            == event.block_number && x.block_hash == event.block_hash && x.transaction_hash
            == Some(event.transaction_hash)
    }
}

/// Converts a `TokenNetworkCreated` event: token address then token network
/// address; the registry is the emitting contract.
pub fn token_network_created(event: &Event) -> (r: Result<StateChange, DecodeError>)
    ensures
        spec_token_network_created_post(*event, r),
{
    if event.data.len() < 2 {
        return Err(DecodeError::MissingParameter);
    }
    let token_address = match event.data[0] {
        Token::AddressValue(a) => a,
        _ => {
            return Err(DecodeError::InvalidParameter);
        },
    };
    let token_network_address = match event.data[1] {
        Token::AddressValue(a) => a,
        _ => {
            return Err(DecodeError::InvalidParameter);
        },
    };
    let token_network = TokenNetworkState::new(token_network_address, token_address);
    Ok(
        StateChange::ContractReceiveTokenNetworkCreated(
            ContractReceiveTokenNetworkCreated {
                transaction_hash: Some(event.transaction_hash),
                token_network_registry_address: event.address,
                token_network,
                block_number: event.block_number,
                block_hash: event.block_hash,
            },
        ),
    )
}

/// What converting a `ChannelOpened` event yields. With the channel
/// identifier, both participants and a settle timeout that fits a block
/// count: a channel this node does not take part in is ignored
/// (`Ok(None)`); one with the standard reveal timeout not strictly below
/// the settle timeout draws the construction error; otherwise the fresh
/// channel is returned, with the other participant as partner and a
/// successful open marker at the event's block. Too few parameters draw
/// `MissingParameter`; mis-typed ones, or a settle timeout beyond the block
/// range, draw `InvalidParameter`.
pub open spec fn spec_channel_opened_post(
    event: Event,
    our_address: Address,
    chain_identifier: ChainID,
    r: Result<Option<StateChange>, DecodeError>,
) -> bool {
    let d = event.data@;
    if d.len() < 4 {
        r == Err::<Option<StateChange>, DecodeError>(DecodeError::MissingParameter)
    } else if !(d[0] is UintValue && d[1] is AddressValue && d[2] is AddressValue && d[3]
        is UintValue && spec_fits_u64(d[3]->UintValue_0)) {
        r == Err::<Option<StateChange>, DecodeError>(DecodeError::InvalidParameter)
    } else {
        let cid = d[0]->UintValue_0;
        let p1 = d[1]->AddressValue_0;
        let p2 = d[2]->AddressValue_0;
        let settle = d[3]->UintValue_0.n0;
        if our_address != p1 && our_address != p2 {
            r == Ok::<Option<StateChange>, DecodeError>(None)
        } else if !(DEFAULT_REVEAL_TIMEOUT < settle) {
            r == Err::<Option<StateChange>, DecodeError>(
                DecodeError::InvalidChannel(
                    ChannelError::InvalidTimeouts {
                        reveal_timeout: DEFAULT_REVEAL_TIMEOUT,
                        settle_timeout: settle,
                    },
                ),
            )
        } else {
            r matches Ok(Some(sc)) && sc matches StateChange::ContractReceiveChannelOpened(x)
                && x.channel_state@.canonical_identifier == (CanonicalIdentifier {
                chain_identifier,
                token_network_address: event.address,
                channel_identifier: cid,
            }) && x.channel_state@.our_state == crate::state::ChannelEndStateV::spec_empty(
                our_address,
            ) && x.channel_state@.partner_state == crate::state::ChannelEndStateV::spec_empty(
                if our_address == p1 {
                    p2
                } else {
                    p1
                },
            ) && x.channel_state@.reveal_timeout == DEFAULT_REVEAL_TIMEOUT
                && x.channel_state@.settle_timeout == settle && x.channel_state@.open_transaction
                == (TransactionExecutionStatus {
                started_block_number: Some(0),
                finished_block_number: Some(event.block_number),
                result: Some(TransactionResult::Success),
            }) && x.channel_state@.close_transaction is None
                && x.channel_state@.settle_transaction is None
                && x.channel_state@.update_transaction is None && x.block_number
                == event.block_number && x.block_hash == event.block_hash && x.transaction_hash
                == Some(event.transaction_hash)
        }
    }
}

/// Converts a `ChannelOpened` event: channel identifier, the two
/// participants, and the settle timeout.
#[verifier::rlimit(80)]
pub fn channel_opened(
    event: &Event,
    our_address: Address,
    chain_identifier: ChainID,
    token_network_registry_address: Address,
    fee_config: MediationFeeConfig,
) -> (r: Result<Option<StateChange>, DecodeError>)
    ensures
        spec_channel_opened_post(*event, our_address, chain_identifier, r),
{
    if event.data.len() < 4 {
        return Err(DecodeError::MissingParameter);
    }
    let channel_identifier = match event.data[0] {
        Token::UintValue(v) => v,
        _ => {
            return Err(DecodeError::InvalidParameter);
        },
    };
    let participant1 = match event.data[1] {
        Token::AddressValue(a) => a,
        _ => {
            return Err(DecodeError::InvalidParameter);
        },
    };
    let participant2 = match event.data[2] {
        Token::AddressValue(a) => a,
        _ => {
            return Err(DecodeError::InvalidParameter);
        },
    };
    let settle_word = match event.data[3] {
        Token::UintValue(v) => v,
        _ => {
            return Err(DecodeError::InvalidParameter);
        },
    };
    if settle_word.n3 != 0 || settle_word.n2 != 0 || settle_word.n1 != 0 {
        return Err(DecodeError::InvalidParameter);
    }
    let settle_timeout = settle_word.n0;
    let partner_address: Address;
    if our_address == participant1 {
        partner_address = participant2;
    } else if our_address == participant2 {
        partner_address = participant1;
    } else {
        return Ok(None);
    }
    let token_network_address = event.address;
    let open_transaction = TransactionExecutionStatus {
        started_block_number: Some(0),
        finished_block_number: Some(event.block_number),
        result: Some(TransactionResult::Success),
    };
    let channel_state = match ChannelState::new(
        CanonicalIdentifier {
            chain_identifier,
            token_network_address,
            channel_identifier,
        },
        Address::zero(),
        token_network_registry_address,
        our_address,
        partner_address,
        DEFAULT_REVEAL_TIMEOUT,
        settle_timeout,
        open_transaction,
        fee_config,
    ) {
        Ok(c) => c,
        Err(e) => {
            return Err(DecodeError::InvalidChannel(e));
        },
    };
    Ok(
        Some(
            StateChange::ContractReceiveChannelOpened(
                crate::state_change::ContractReceiveChannelOpened {
                    transaction_hash: Some(event.transaction_hash),
                    block_number: event.block_number,
                    block_hash: event.block_hash,
                    channel_state,
                },
            ),
        ),
    )
}

/// What converting a `ChannelNewDeposit` event yields: the deposit exactly
/// when the event carries the channel identifier, the participant and the
/// new total; too few parameters draw `MissingParameter` and mis-typed ones
/// `InvalidParameter`.
pub open spec fn spec_channel_deposit_post(
    event: Event,
    chain_identifier: ChainID,
    r: Result<StateChange, DecodeError>,
) -> bool {
    let d = event.data@;
    if d.len() < 3 {
        r == Err::<StateChange, DecodeError>(DecodeError::MissingParameter)
    } else if !(d[0] is UintValue && d[1] is AddressValue && d[2] is UintValue) {
        r == Err::<StateChange, DecodeError>(DecodeError::InvalidParameter)
    } else {
        r matches Ok(sc) && sc matches StateChange::ContractReceiveChannelDeposit(x)
            && x.canonical_identifier == (CanonicalIdentifier {
            chain_identifier,
            token_network_address: event.address,
            channel_identifier: d[0]->UintValue_0,
        }) && x.deposit_transaction == (TransactionChannelDeposit {
            participant_address: d[1]->AddressValue_0,
            contract_balance: d[2]->UintValue_0,
            deposit_block_number: event.block_number,
        }) && x.block_number == event.block_number && x.block_hash == event.block_hash
            && x.transaction_hash == Some(event.transaction_hash)
    }
}

/// Converts a `ChannelNewDeposit` event: channel identifier, participant,
/// and the participant's new total deposit.
pub fn channel_deposit(
    event: &Event,
    chain_identifier: ChainID,
    fee_config: MediationFeeConfig,
) -> (r: Result<StateChange, DecodeError>)
    ensures
        spec_channel_deposit_post(*event, chain_identifier, r),
{
    if event.data.len() < 3 {
        return Err(DecodeError::MissingParameter);
    }
    let channel_identifier = match event.data[0] {
        Token::UintValue(v) => v,
        _ => {
            return Err(DecodeError::InvalidParameter);
        },
    };
    let participant = match event.data[1] {
        Token::AddressValue(a) => a,
        _ => {
            return Err(DecodeError::InvalidParameter);
        },
    };
    let total_deposit = match event.data[2] {
        Token::UintValue(v) => v,
        _ => {
            return Err(DecodeError::InvalidParameter);
        },
    };
    Ok(
        StateChange::ContractReceiveChannelDeposit(
            ContractReceiveChannelDeposit {
                transaction_hash: Some(event.transaction_hash),
                block_number: event.block_number,
                block_hash: event.block_hash,
                canonical_identifier: CanonicalIdentifier {
                    chain_identifier,
                    token_network_address: event.address,
                    channel_identifier,
                },
                deposit_transaction: TransactionChannelDeposit {
                    participant_address: participant,
                    contract_balance: total_deposit,
                    deposit_block_number: event.block_number,
                },
                fee_config,
            },
        ),
    )
}

/// What converting a `ChannelWithdraw` event yields: the withdraw exactly
/// when the event carries the channel identifier, the participant and the
/// new on-chain total; too few parameters draw `MissingParameter` and
/// mis-typed ones `InvalidParameter`.
pub open spec fn spec_channel_withdraw_post(
    event: Event,
    chain_identifier: ChainID,
    r: Result<StateChange, DecodeError>,
) -> bool {
    let d = event.data@;
    if d.len() < 3 {
        r == Err::<StateChange, DecodeError>(DecodeError::MissingParameter)
    } else if !(d[0] is UintValue && d[1] is AddressValue && d[2] is UintValue) {
        r == Err::<StateChange, DecodeError>(DecodeError::InvalidParameter)
    } else {
        r matches Ok(sc) && sc matches StateChange::ContractReceiveChannelWithdraw(x)
            && x.canonical_identifier == (CanonicalIdentifier {
            chain_identifier,
            token_network_address: event.address,
            channel_identifier: d[0]->UintValue_0,
        }) && x.participant == d[1]->AddressValue_0 && x.total_withdraw == d[2]->UintValue_0
            && x.block_number == event.block_number && x.block_hash == event.block_hash
            && x.transaction_hash == Some(event.transaction_hash)
    }
}

/// Converts a `ChannelWithdraw` event: channel identifier, participant, and
/// the participant's new on-chain total withdraw.
pub fn channel_withdraw(
    event: &Event,
    chain_identifier: ChainID,
    fee_config: MediationFeeConfig,
) -> (r: Result<StateChange, DecodeError>)
    ensures
        spec_channel_withdraw_post(*event, chain_identifier, r),
{
    if event.data.len() < 3 {
        return Err(DecodeError::MissingParameter);
    }
    let channel_identifier = match event.data[0] {
        Token::UintValue(v) => v,
        _ => {
            return Err(DecodeError::InvalidParameter);
        },
    };
    let participant = match event.data[1] {
        Token::AddressValue(a) => a,
        _ => {
            return Err(DecodeError::InvalidParameter);
        },
    };
    let total_withdraw = match event.data[2] {
        Token::UintValue(v) => v,
        _ => {
            return Err(DecodeError::InvalidParameter);
        },
    };
    Ok(
        StateChange::ContractReceiveChannelWithdraw(
            ContractReceiveChannelWithdraw {
                transaction_hash: Some(event.transaction_hash),
                block_number: event.block_number,
                block_hash: event.block_hash,
                canonical_identifier: CanonicalIdentifier {
                    chain_identifier,
                    token_network_address: event.address,
                    channel_identifier,
                },
                participant,
                total_withdraw,
                fee_config,
            },
        ),
    )
}

/// What converting a `ChannelClosed` event yields: the close exactly when
/// the event carries the channel identifier and the closing participant;
/// too few parameters draw `MissingParameter` and mis-typed ones
/// `InvalidParameter`.
pub open spec fn spec_channel_closed_post(
    event: Event,
    chain_identifier: ChainID,
    r: Result<StateChange, DecodeError>,
) -> bool {
    let d = event.data@;
    if d.len() < 2 {
        r == Err::<StateChange, DecodeError>(DecodeError::MissingParameter)
    } else if !(d[0] is UintValue && d[1] is AddressValue) {
        r == Err::<StateChange, DecodeError>(DecodeError::InvalidParameter)
    } else {
        r matches Ok(sc) && sc matches StateChange::ContractReceiveChannelClosed(x)
            && x.canonical_identifier == (CanonicalIdentifier {
            chain_identifier,
            token_network_address: event.address,
            channel_identifier: d[0]->UintValue_0,
        }) && x.transaction_from == d[1]->AddressValue_0 && x.block_number == event.block_number
            && x.block_hash == event.block_hash && x.transaction_hash == Some(
            event.transaction_hash,
        )
    }
}

/// Converts a `ChannelClosed` event: channel identifier and the closing
/// participant.
pub fn channel_closed(
    event: &Event,
    chain_identifier: ChainID,
) -> (r: Result<StateChange, DecodeError>)
    ensures
        spec_channel_closed_post(*event, chain_identifier, r),
{
    if event.data.len() < 2 {
        return Err(DecodeError::MissingParameter);
    }
    let channel_identifier = match event.data[0] {
        Token::UintValue(v) => v,
        _ => {
            return Err(DecodeError::InvalidParameter);
        },
    };
    let transaction_from = match event.data[1] {
        Token::AddressValue(a) => a,
        _ => {
            return Err(DecodeError::InvalidParameter);
        },
    };
    Ok(
        StateChange::ContractReceiveChannelClosed(
            ContractReceiveChannelClosed {
                transaction_hash: Some(event.transaction_hash),
                block_number: event.block_number,
                block_hash: event.block_hash,
                transaction_from,
                canonical_identifier: CanonicalIdentifier {
                    chain_identifier,
                    token_network_address: event.address,
                    channel_identifier,
                },
            },
        ),
    )
}

/// What converting a `ChannelSettled` event yields: the settlement,
/// carrying the two locksroots fetched for the settling block, exactly when
/// the event carries the channel identifier; a missing identifier draws
/// `MissingParameter`, a mis-typed one `InvalidParameter`.
pub open spec fn spec_channel_settled_post(
    event: Event,
    chain_identifier: ChainID,
    our_onchain_locksroot: H256,
    partner_onchain_locksroot: H256,
    r: Result<StateChange, DecodeError>,
) -> bool {
    let d = event.data@;
    if d.len() < 1 {
        r == Err::<StateChange, DecodeError>(DecodeError::MissingParameter)
    } else if !(d[0] is UintValue) {
        r == Err::<StateChange, DecodeError>(DecodeError::InvalidParameter)
    } else {
        r matches Ok(sc) && sc matches StateChange::ContractReceiveChannelSettled(x)
            && x.canonical_identifier == (CanonicalIdentifier {
            chain_identifier,
            token_network_address: event.address,
            channel_identifier: d[0]->UintValue_0,
        }) && x.our_onchain_locksroot == our_onchain_locksroot && x.partner_onchain_locksroot
            == partner_onchain_locksroot && x.block_number == event.block_number && x.block_hash
            == event.block_hash && x.transaction_hash == Some(event.transaction_hash)
    }
}

/// Converts a `ChannelSettled` event: the channel identifier from the
/// event, and the two on-chain locksroots that a point-in-time query of the
/// token network contract handed back for the settling block.
pub fn channel_settled(
    event: &Event,
    chain_identifier: ChainID,
    our_onchain_locksroot: H256,
    partner_onchain_locksroot: H256,
) -> (r: Result<StateChange, DecodeError>)
    ensures
        spec_channel_settled_post(
            *event,
            chain_identifier,
            our_onchain_locksroot,
            partner_onchain_locksroot,
            r,
        ),
{
    if event.data.len() < 1 {
        return Err(DecodeError::MissingParameter);
    }
    let channel_identifier = match event.data[0] {
        Token::UintValue(v) => v,
        _ => {
            return Err(DecodeError::InvalidParameter);
        },
    };
    Ok(
        StateChange::ContractReceiveChannelSettled(
            ContractReceiveChannelSettled {
                transaction_hash: Some(event.transaction_hash),
                block_number: event.block_number,
                block_hash: event.block_hash,
                canonical_identifier: CanonicalIdentifier {
                    chain_identifier,
                    token_network_address: event.address,
                    channel_identifier,
                },
                our_onchain_locksroot,
                partner_onchain_locksroot,
            },
        ),
    )
}

/// What converting a `NonClosingBalanceProofUpdated` event yields: the
/// update exactly when the event carries the channel identifier and the
/// nonce; too few parameters draw `MissingParameter` and mis-typed ones
/// `InvalidParameter`.
pub open spec fn spec_update_transfer_post(
    event: Event,
    chain_identifier: ChainID,
    r: Result<StateChange, DecodeError>,
) -> bool {
    let d = event.data@;
    if d.len() < 2 {
        r == Err::<StateChange, DecodeError>(DecodeError::MissingParameter)
    } else if !(d[0] is UintValue && d[1] is UintValue) {
        r == Err::<StateChange, DecodeError>(DecodeError::InvalidParameter)
    } else {
        r matches Ok(sc) && sc matches StateChange::ContractReceiveUpdateTransfer(x)
            && x.canonical_identifier == (CanonicalIdentifier {
            chain_identifier,
            token_network_address: event.address,
            channel_identifier: d[0]->UintValue_0,
        }) && x.nonce == d[1]->UintValue_0 && x.block_number == event.block_number && x.block_hash
            == event.block_hash && x.transaction_hash == Some(event.transaction_hash)
    }
}

/// Converts a `NonClosingBalanceProofUpdated` event: channel identifier and
/// the updated nonce.
pub fn channel_non_closing_balance_proof_updated(
    event: &Event,
    chain_identifier: ChainID,
) -> (r: Result<StateChange, DecodeError>)
    ensures
        spec_update_transfer_post(*event, chain_identifier, r),
{
    if event.data.len() < 2 {
        return Err(DecodeError::MissingParameter);
    }
    let channel_identifier = match event.data[0] {
        Token::UintValue(v) => v,
        _ => {
            return Err(DecodeError::InvalidParameter);
        },
    };
    let nonce = match event.data[1] {
        Token::UintValue(v) => v,
        _ => {
            return Err(DecodeError::InvalidParameter);
        },
    };
    Ok(
        StateChange::ContractReceiveUpdateTransfer(
            ContractReceiveUpdateTransfer {
                transaction_hash: Some(event.transaction_hash),
                block_number: event.block_number,
                block_hash: event.block_hash,
                canonical_identifier: CanonicalIdentifier {
                    chain_identifier,
                    token_network_address: event.address,
                    channel_identifier,
                },
                nonce,
            },
        ),
    )
}

/// A per-event conversion result lifted out of the dispatcher's: the
/// dispatcher wraps a converter's `Ok(sc)` as `Ok(Some(sc))` and passes its
/// errors through, while `Ok(None)` belongs to the dispatcher alone.
pub open spec fn spec_unwrapped(r: Result<Option<StateChange>, DecodeError>) -> Option<
    Result<StateChange, DecodeError>,
> {
    match r {
        Ok(Some(sc)) => Some(Ok(sc)),
        Ok(None) => None,
        Err(e) => Some(Err(e)),
    }
}

/// What dispatching a typed event yields: exactly the matching converter's
/// result — wrapped so that success becomes `Ok(Some(..))` — and, for a
/// `ChannelSettled` event without its locksroot enrichment,
/// `Err(UnknownChannel)`.
pub open spec fn spec_as_state_change_post(
    event: Event,
    our_address: Address,
    chain_identifier: ChainID,
    settled_locksroots: Option<(H256, H256)>,
    r: Result<Option<StateChange>, DecodeError>,
) -> bool {
    match event.name {
        EventKind::TokenNetworkCreated => spec_unwrapped(r) matches Some(inner)
            && spec_token_network_created_post(event, inner),
        EventKind::ChannelOpened => spec_channel_opened_post(
            event,
            our_address,
            chain_identifier,
            r,
        ),
        EventKind::ChannelNewDeposit => spec_unwrapped(r) matches Some(inner)
            && spec_channel_deposit_post(event, chain_identifier, inner),
        EventKind::ChannelWithdraw => spec_unwrapped(r) matches Some(inner)
            && spec_channel_withdraw_post(event, chain_identifier, inner),
        EventKind::ChannelClosed => spec_unwrapped(r) matches Some(inner)
            && spec_channel_closed_post(event, chain_identifier, inner),
        EventKind::ChannelSettled => match settled_locksroots {
            None => r == Err::<Option<StateChange>, DecodeError>(DecodeError::UnknownChannel),
            Some((ours, partners)) => spec_unwrapped(r) matches Some(inner)
                && spec_channel_settled_post(event, chain_identifier, ours, partners, inner),
        },
        EventKind::NonClosingBalanceProofUpdated => spec_unwrapped(r) matches Some(inner)
            && spec_update_transfer_post(event, chain_identifier, inner),
    }
}

/// Converts a typed event into the state change the reducer accepts,
/// dispatching on the event's kind. The two locksroots are the enrichment a
/// `ChannelSettled` event needs, fetched from the token network contract
/// before the decoder is called.
pub fn as_state_change(
    event: &Event,
    our_address: Address,
    chain_identifier: ChainID,
    token_network_registry_address: Address,
    fee_config: MediationFeeConfig,
    settled_locksroots: Option<(H256, H256)>,
) -> (r: Result<Option<StateChange>, DecodeError>)
    ensures
        spec_as_state_change_post(
            *event,
            our_address,
            chain_identifier,
            settled_locksroots,
            r,
        ),
{
    match event.name {
        EventKind::TokenNetworkCreated => match token_network_created(event) {
            Ok(sc) => Ok(Some(sc)),
            Err(e) => Err(e),
        },
        EventKind::ChannelOpened => channel_opened(
            event,
            our_address,
            chain_identifier,
            token_network_registry_address,
            fee_config,
        ),
        EventKind::ChannelNewDeposit => match channel_deposit(event, chain_identifier, fee_config) {
            Ok(sc) => Ok(Some(sc)),
            Err(e) => Err(e),
        },
        EventKind::ChannelWithdraw => match channel_withdraw(event, chain_identifier, fee_config) {
            Ok(sc) => Ok(Some(sc)),
            Err(e) => Err(e),
        },
        EventKind::ChannelClosed => match channel_closed(event, chain_identifier) {
            Ok(sc) => Ok(Some(sc)),
            Err(e) => Err(e),
        },
        EventKind::ChannelSettled => match settled_locksroots {
            None => Err(DecodeError::UnknownChannel),
            Some((ours, partners)) => match channel_settled(
                event,
                chain_identifier,
                ours,
                partners,
            ) {
                Ok(sc) => Ok(Some(sc)),
                Err(e) => Err(e),
            },
        },
        EventKind::NonClosingBalanceProofUpdated => match channel_non_closing_balance_proof_updated(
            event,
            chain_identifier,
        ) {
            Ok(sc) => Ok(Some(sc)),
            Err(e) => Err(e),
        },
    }
}

} // verus!
