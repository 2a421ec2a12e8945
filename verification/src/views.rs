//! Read-only lookups over the state tree, and the first-match index
//! functions the reducer's specification is stated with.

use vstd::prelude::*;

use crate::packing::CanonicalIdentifier;
use crate::state::{
    ChainState, ChainStateV, ChannelEndState, ChannelState, ChannelStateV, HashTimeLockState,
    PendingWithdrawState, QueueEntry, QueueEntryV, QueueIdentifier, TokenNetworkRegistryState,
    TokenNetworkRegistryStateV, TokenNetworkState, TokenNetworkStateV, TransferTask,
    UnlockPartialProofState,
};
use crate::types::{Address, SecretHash, TokenAmount, U256};

verus! {

broadcast use vstd::std_specs::vec::axiom_spec_len;

/// First index of the registry with this address, `None` when there is none.
pub open spec fn spec_find_registry(s: Seq<TokenNetworkRegistryStateV>, address: Address) -> Option<int>
    decreases s.len(),
{
    if s.len() == 0 {
        None
    } else if s[0].address == address {
        Some(0int)
    } else {
        match spec_find_registry(s.drop_first(), address) {
            None => None,
            Some(r) => Some(r + 1),
        }
    }
}

/// First index of the token network with this address, `None` when there is none.
pub open spec fn spec_find_network(s: Seq<TokenNetworkStateV>, address: Address) -> Option<int>
    decreases s.len(),
{
    if s.len() == 0 {
        None
    } else if s[0].address == address {
        Some(0int)
    } else {
        match spec_find_network(s.drop_first(), address) {
            None => None,
            Some(r) => Some(r + 1),
        }
    }
}

/// First index of the channel with this identifier, `None` when there is none.
pub open spec fn spec_find_channel(s: Seq<ChannelStateV>, channel_identifier: U256) -> Option<int>
    decreases s.len(),
{
    if s.len() == 0 {
        None
    } else if s[0].canonical_identifier.channel_identifier == channel_identifier {
        Some(0int)
    } else {
        match spec_find_channel(s.drop_first(), channel_identifier) {
            None => None,
            Some(r) => Some(r + 1),
        }
    }
}

/// First index of the queue with this identifier, `None` when there is none.
pub open spec fn spec_find_queue(s: Seq<QueueEntryV>, queue_identifier: QueueIdentifier) -> Option<int>
    decreases s.len(),
{
    if s.len() == 0 {
        None
    } else if s[0].queue_identifier == queue_identifier {
        Some(0int)
    } else {
        match spec_find_queue(s.drop_first(), queue_identifier) {
            None => None,
            Some(r) => Some(r + 1),
        }
    }
}

/// First index of the tracked transfer with this secret hash, `None` when there is none.
pub open spec fn spec_find_task(s: Seq<(SecretHash, TransferTask)>, secrethash: SecretHash) -> Option<int>
    decreases s.len(),
{
    if s.len() == 0 {
        None
    } else if s[0].0 == secrethash {
        Some(0int)
    } else {
        match spec_find_task(s.drop_first(), secrethash) {
            None => None,
            Some(r) => Some(r + 1),
        }
    }
}

/// First index of the lock with this secret hash, `None` when there is none.
pub open spec fn spec_find_lock(s: Seq<HashTimeLockState>, secrethash: SecretHash) -> Option<int>
    decreases s.len(),
{
    if s.len() == 0 {
        None
    } else if s[0].secrethash == secrethash {
        Some(0int)
    } else {
        match spec_find_lock(s.drop_first(), secrethash) {
            None => None,
            Some(r) => Some(r + 1),
        }
    }
}

/// First index of the unlocked lock with this secret hash, `None` when there is none.
pub open spec fn spec_find_unlocked(s: Seq<UnlockPartialProofState>, secrethash: SecretHash) -> Option<int>
    decreases s.len(),
{
    if s.len() == 0 {
        None
    } else if s[0].secrethash == secrethash {
        Some(0int)
    } else {
        match spec_find_unlocked(s.drop_first(), secrethash) {
            None => None,
            Some(r) => Some(r + 1),
        }
    }
}

/// First index of the pending withdraw with this total, `None` when there is none.
pub open spec fn spec_find_withdraw(s: Seq<PendingWithdrawState>, total_withdraw: TokenAmount) -> Option<int>
    decreases s.len(),
{
    if s.len() == 0 {
        None
    } else if s[0].total_withdraw == total_withdraw {
        Some(0int)
    } else {
        match spec_find_withdraw(s.drop_first(), total_withdraw) {
            None => None,
            Some(r) => Some(r + 1),
        }
    }
}

/// First index of the pair with this first component, `None` when there is none.
pub open spec fn spec_find_pair(s: Seq<(Address, Address)>, key: Address) -> Option<int>
    decreases s.len(),
{
    if s.len() == 0 {
        None
    } else if s[0].0 == key {
        Some(0int)
    } else {
        match spec_find_pair(s.drop_first(), key) {
            None => None,
            Some(r) => Some(r + 1),
        }
    }
}

/// Finds the registry with this address.
pub fn find_registry(items: &Vec<TokenNetworkRegistryState>, address: Address) -> (r: Option<usize>)
    ensures
        ({
            let v = items@.map_values(|x: TokenNetworkRegistryState| x@);
            match r {
                Some(i) => 0 <= i < v.len() && spec_find_registry(v, address) == Some(i as int),
                None => spec_find_registry(v, address) is None,
            }
        }),
{
    let ghost v = items@.map_values(|x: TokenNetworkRegistryState| x@);
    proof {
        assert(v.skip(0) =~= v);
    }
    let mut i: usize = 0;
    while i < items.len()
        invariant
            v == items@.map_values(|x: TokenNetworkRegistryState| x@),
            0 <= i <= v.len(),
            spec_find_registry(v, address) == match spec_find_registry(v.skip(i as int), address) {
                None => None,
                Some(r) => Some(i + r),
            },
        decreases v.len() - i,
    {
        proof {
            assert(v.skip(i as int)[0] == v[i as int]);
        }
        if items[i].address == address {
            return Some(i);
        }
        proof {
            assert(v.skip(i as int).drop_first() =~= v.skip(i + 1));
            assert(spec_find_registry(v.skip(i as int), address) == match spec_find_registry(v.skip(i + 1), address) {
                None => None,
                Some(r) => Some(1 + r),
            });
        }
        i = i + 1;
    }
    proof {
        assert(v.skip(i as int).len() == 0);
    }
    None
}

/// Finds the token network with this address inside one registry.
pub fn find_network(items: &Vec<TokenNetworkState>, address: Address) -> (r: Option<usize>)
    ensures
        ({
            let v = items@.map_values(|x: TokenNetworkState| x@);
            match r {
                Some(i) => 0 <= i < v.len() && spec_find_network(v, address) == Some(i as int),
                None => spec_find_network(v, address) is None,
            }
        }),
{
    let ghost v = items@.map_values(|x: TokenNetworkState| x@);
    proof {
        assert(v.skip(0) =~= v);
    }
    let mut i: usize = 0;
    while i < items.len()
        invariant
            v == items@.map_values(|x: TokenNetworkState| x@),
            0 <= i <= v.len(),
            spec_find_network(v, address) == match spec_find_network(v.skip(i as int), address) {
                None => None,
                Some(r) => Some(i + r),
            },
        decreases v.len() - i,
    {
        proof {
            assert(v.skip(i as int)[0] == v[i as int]);
        }
        if items[i].address == address {
            return Some(i);
        }
        proof {
            assert(v.skip(i as int).drop_first() =~= v.skip(i + 1));
            assert(spec_find_network(v.skip(i as int), address) == match spec_find_network(v.skip(i + 1), address) {
                None => None,
                Some(r) => Some(1 + r),
            });
        }
        i = i + 1;
    }
    proof {
        assert(v.skip(i as int).len() == 0);
    }
    None
}

/// Finds the channel with this identifier inside one token network.
pub fn find_channel(items: &Vec<ChannelState>, channel_identifier: U256) -> (r: Option<usize>)
    ensures
        ({
            let v = items@.map_values(|x: ChannelState| x@);
            match r {
                Some(i) => 0 <= i < v.len() && spec_find_channel(v, channel_identifier) == Some(i as int),
                None => spec_find_channel(v, channel_identifier) is None,
            }
        }),
{
    let ghost v = items@.map_values(|x: ChannelState| x@);
    proof {
        assert(v.skip(0) =~= v);
    }
    let mut i: usize = 0;
    while i < items.len()
        invariant
            v == items@.map_values(|x: ChannelState| x@),
            0 <= i <= v.len(),
            spec_find_channel(v, channel_identifier) == match spec_find_channel(v.skip(i as int), channel_identifier) {
                None => None,
                Some(r) => Some(i + r),
            },
        decreases v.len() - i,
    {
        proof {
            assert(v.skip(i as int)[0] == v[i as int]);
        }
        if items[i].canonical_identifier.channel_identifier == channel_identifier {
            return Some(i);
        }
        proof {
            assert(v.skip(i as int).drop_first() =~= v.skip(i + 1));
            assert(spec_find_channel(v.skip(i as int), channel_identifier) == match spec_find_channel(v.skip(i + 1), channel_identifier) {
                None => None,
                Some(r) => Some(1 + r),
            });
        }
        i = i + 1;
    }
    proof {
        assert(v.skip(i as int).len() == 0);
    }
    None
}

/// Finds the queue with this identifier.
pub fn find_queue(items: &Vec<QueueEntry>, queue_identifier: QueueIdentifier) -> (r: Option<usize>)
    ensures
        ({
            let v = items@.map_values(|x: QueueEntry| x@);
            match r {
                Some(i) => 0 <= i < v.len() && spec_find_queue(v, queue_identifier) == Some(i as int),
                None => spec_find_queue(v, queue_identifier) is None,
            }
        }),
{
    let ghost v = items@.map_values(|x: QueueEntry| x@);
    proof {
        assert(v.skip(0) =~= v);
    }
    let mut i: usize = 0;
    while i < items.len()
        invariant
            v == items@.map_values(|x: QueueEntry| x@),
            0 <= i <= v.len(),
            spec_find_queue(v, queue_identifier) == match spec_find_queue(v.skip(i as int), queue_identifier) {
                None => None,
                Some(r) => Some(i + r),
            },
        decreases v.len() - i,
    {
        proof {
            assert(v.skip(i as int)[0] == v[i as int]);
        }
        if items[i].queue_identifier == queue_identifier {
            return Some(i);
        }
        proof {
            assert(v.skip(i as int).drop_first() =~= v.skip(i + 1));
            assert(spec_find_queue(v.skip(i as int), queue_identifier) == match spec_find_queue(v.skip(i + 1), queue_identifier) {
                None => None,
                Some(r) => Some(1 + r),
            });
        }
        i = i + 1;
    }
    proof {
        assert(v.skip(i as int).len() == 0);
    }
    None
}

/// Finds the tracked transfer with this secret hash.
pub fn find_task(items: &Vec<(SecretHash, TransferTask)>, secrethash: SecretHash) -> (r: Option<usize>)
    ensures
        match r {
            Some(i) => 0 <= i < items@.len() && spec_find_task(items@, secrethash) == Some(i as int),
            None => spec_find_task(items@, secrethash) is None,
        },
{
    proof {
        assert(items@.skip(0) =~= items@);
    }
    let mut i: usize = 0;
    while i < items.len()
        invariant
            0 <= i <= items@.len(),
            spec_find_task(items@, secrethash) == match spec_find_task(items@.skip(i as int), secrethash) {
                None => None,
                Some(r) => Some(i + r),
            },
        decreases items@.len() - i,
    {
        proof {
            assert(items@.skip(i as int)[0] == items@[i as int]);
        }
        if items[i].0 == secrethash {
            return Some(i);
        }
        proof {
            assert(items@.skip(i as int).drop_first() =~= items@.skip(i + 1));
            assert(spec_find_task(items@.skip(i as int), secrethash) == match spec_find_task(
                items@.skip(i + 1),
                secrethash,
            ) {
                None => None,
                Some(r) => Some(1 + r),
            });
        }
        i = i + 1;
    }
    proof {
        assert(items@.skip(i as int).len() == 0);
    }
    None
}

/// Finds the lock with this secret hash.
pub fn find_lock(items: &Vec<HashTimeLockState>, secrethash: SecretHash) -> (r: Option<usize>)
    ensures
        match r {
            Some(i) => 0 <= i < items@.len() && spec_find_lock(items@, secrethash) == Some(i as int),
            None => spec_find_lock(items@, secrethash) is None,
        },
{
    proof {
        assert(items@.skip(0) =~= items@);
    }
    let mut i: usize = 0;
    while i < items.len()
        invariant
            0 <= i <= items@.len(),
            spec_find_lock(items@, secrethash) == match spec_find_lock(items@.skip(i as int), secrethash) {
                None => None,
                Some(r) => Some(i + r),
            },
        decreases items@.len() - i,
    {
        proof {
            assert(items@.skip(i as int)[0] == items@[i as int]);
        }
        if items[i].secrethash == secrethash {
            return Some(i);
        }
        proof {
            assert(items@.skip(i as int).drop_first() =~= items@.skip(i + 1));
            assert(spec_find_lock(items@.skip(i as int), secrethash) == match spec_find_lock(
                items@.skip(i + 1),
                secrethash,
            ) {
                None => None,
                Some(r) => Some(1 + r),
            });
        }
        i = i + 1;
    }
    proof {
        assert(items@.skip(i as int).len() == 0);
    }
    None
}

/// Finds the unlocked lock with this secret hash.
pub fn find_unlocked(items: &Vec<UnlockPartialProofState>, secrethash: SecretHash) -> (r: Option<usize>)
    ensures
        match r {
            Some(i) => 0 <= i < items@.len() && spec_find_unlocked(items@, secrethash) == Some(i as int),
            None => spec_find_unlocked(items@, secrethash) is None,
        },
{
    proof {
        assert(items@.skip(0) =~= items@);
    }
    let mut i: usize = 0;
    while i < items.len()
        invariant
            0 <= i <= items@.len(),
            spec_find_unlocked(items@, secrethash) == match spec_find_unlocked(items@.skip(i as int), secrethash) {
                None => None,
                Some(r) => Some(i + r),
            },
        decreases items@.len() - i,
    {
        proof {
            assert(items@.skip(i as int)[0] == items@[i as int]);
        }
        if items[i].secrethash == secrethash {
            return Some(i);
        }
        proof {
            assert(items@.skip(i as int).drop_first() =~= items@.skip(i + 1));
            assert(spec_find_unlocked(items@.skip(i as int), secrethash) == match spec_find_unlocked(
                items@.skip(i + 1),
                secrethash,
            ) {
                None => None,
                Some(r) => Some(1 + r),
            });
        }
        i = i + 1;
    }
    proof {
        assert(items@.skip(i as int).len() == 0);
    }
    None
}

/// Finds the pending withdraw with this total.
pub fn find_withdraw(items: &Vec<PendingWithdrawState>, total_withdraw: TokenAmount) -> (r: Option<usize>)
    ensures
        match r {
            Some(i) => 0 <= i < items@.len() && spec_find_withdraw(items@, total_withdraw) == Some(i as int),
            None => spec_find_withdraw(items@, total_withdraw) is None,
        },
{
    proof {
        assert(items@.skip(0) =~= items@);
    }
    let mut i: usize = 0;
    while i < items.len()
        invariant
            0 <= i <= items@.len(),
            spec_find_withdraw(items@, total_withdraw) == match spec_find_withdraw(items@.skip(i as int), total_withdraw) {
                None => None,
                Some(r) => Some(i + r),
            },
        decreases items@.len() - i,
    {
        proof {
            assert(items@.skip(i as int)[0] == items@[i as int]);
        }
        if items[i].total_withdraw == total_withdraw {
            return Some(i);
        }
        proof {
            assert(items@.skip(i as int).drop_first() =~= items@.skip(i + 1));
            assert(spec_find_withdraw(items@.skip(i as int), total_withdraw) == match spec_find_withdraw(
                items@.skip(i + 1),
                total_withdraw,
            ) {
                None => None,
                Some(r) => Some(1 + r),
            });
        }
        i = i + 1;
    }
    proof {
        assert(items@.skip(i as int).len() == 0);
    }
    None
}

/// Finds the pair with this first component.
pub fn find_pair(items: &Vec<(Address, Address)>, key: Address) -> (r: Option<usize>)
    ensures
        match r {
            Some(i) => 0 <= i < items@.len() && spec_find_pair(items@, key) == Some(i as int),
            None => spec_find_pair(items@, key) is None,
        },
{
    proof {
        assert(items@.skip(0) =~= items@);
    }
    let mut i: usize = 0;
    while i < items.len()
        invariant
            0 <= i <= items@.len(),
            spec_find_pair(items@, key) == match spec_find_pair(items@.skip(i as int), key) {
                None => None,
                Some(r) => Some(i + r),
            },
        decreases items@.len() - i,
    {
        proof {
            assert(items@.skip(i as int)[0] == items@[i as int]);
        }
        if items[i].0 == key {
            return Some(i);
        }
        proof {
            assert(items@.skip(i as int).drop_first() =~= items@.skip(i + 1));
            assert(spec_find_pair(items@.skip(i as int), key) == match spec_find_pair(
                items@.skip(i + 1),
                key,
            ) {
                None => None,
                Some(r) => Some(1 + r),
            });
        }
        i = i + 1;
    }
    proof {
        assert(items@.skip(i as int).len() == 0);
    }
    None
}

/// Whether the partner index holds this exact pair.
pub open spec fn spec_has_partner_entry(
    s: Seq<(Address, U256)>,
    partner: Address,
    channel_identifier: U256,
) -> bool {
    exists|i: int| 0 <= i < s.len() && s[i] == (partner, channel_identifier)
}

/// First index of the registry holding a token network with this address,
/// `None` when no registry does.
pub open spec fn spec_find_registry_of_network(
    s: Seq<TokenNetworkRegistryStateV>,
    token_network_address: Address,
) -> Option<int>
    decreases s.len(),
{
    if s.len() == 0 {
        None
    } else if spec_find_network(s[0].tokennetworkaddresses_to_tokennetworks, token_network_address)
        is Some {
        Some(0int)
    } else {
        match spec_find_registry_of_network(s.drop_first(), token_network_address) {
            None => None,
            Some(r) => Some(r + 1),
        }
    }
}

/// Finds the registry that holds a token network with this address, and the
/// network's index inside it.
pub fn find_network_path(chain_state: &ChainState, token_network_address: Address) -> (r: Option<
    (usize, usize),
>)
    ensures
        ({
            let regs = chain_state@.identifiers_to_tokennetworkregistries;
            match r {
                Some((a, b)) => {
                    &&& 0 <= a < regs.len()
                    &&& spec_find_registry_of_network(regs, token_network_address) == Some(a as int)
                    &&& 0 <= b < regs[a as int].tokennetworkaddresses_to_tokennetworks.len()
                    &&& spec_find_network(
                        regs[a as int].tokennetworkaddresses_to_tokennetworks,
                        token_network_address,
                    ) == Some(b as int)
                },
                None => spec_find_registry_of_network(regs, token_network_address) is None,
            }
        }),
{
    let ghost regs = chain_state@.identifiers_to_tokennetworkregistries;
    proof {
        assert(regs.skip(0) =~= regs);
    }
    let mut i: usize = 0;
    while i < chain_state.identifiers_to_tokennetworkregistries.len()
        invariant
            regs == chain_state@.identifiers_to_tokennetworkregistries,
            0 <= i <= regs.len(),
            spec_find_registry_of_network(regs, token_network_address)
                == match spec_find_registry_of_network(regs.skip(i as int), token_network_address) {
                None => None::<int>,
                Some(r) => Some(i + r),
            },
        decreases regs.len() - i,
    {
        proof {
            assert(regs.skip(i as int)[0] == regs[i as int]);
        }
        let found = find_network(
            &chain_state.identifiers_to_tokennetworkregistries[i]
                .tokennetworkaddresses_to_tokennetworks,
            token_network_address,
        );
        match found {
            Some(b) => {
                return Some((i, b));
            },
            None => {
                proof {
                    assert(regs.skip(i as int).drop_first() =~= regs.skip(i + 1));
                    assert(spec_find_registry_of_network(regs.skip(i as int), token_network_address)
                        == match spec_find_registry_of_network(
                        regs.skip(i + 1),
                        token_network_address,
                    ) {
                        None => None::<int>,
                        Some(r) => Some(1 + r),
                    });
                }
                i = i + 1;
            },
        }
    }
    proof {
        assert(regs.skip(i as int).len() == 0);
    }
    None
}

/// The channel named by a canonical identifier, at the view level.
pub open spec fn spec_get_channel(
    cs: ChainStateV,
    canonical_identifier: CanonicalIdentifier,
) -> Option<ChannelStateV> {
    let regs = cs.identifiers_to_tokennetworkregistries;
    match spec_find_registry_of_network(regs, canonical_identifier.token_network_address) {
        None => None,
        Some(a) => {
            let nets = regs[a].tokennetworkaddresses_to_tokennetworks;
            let b = spec_find_network(nets, canonical_identifier.token_network_address)->Some_0;
            let chs = nets[b].channelidentifiers_to_channels;
            match spec_find_channel(chs, canonical_identifier.channel_identifier) {
                None => None,
                Some(c) => Some(chs[c]),
            }
        },
    }
}

/// Finds the indices of the channel named by a canonical identifier:
/// registry, token network, and channel position.
pub fn find_channel_path(
    chain_state: &ChainState,
    canonical_identifier: CanonicalIdentifier,
) -> (r: Option<(usize, usize, usize)>)
    ensures
        ({
            let regs = chain_state@.identifiers_to_tokennetworkregistries;
            match r {
                Some((a, b, c)) => {
                    &&& 0 <= a < regs.len()
                    &&& spec_find_registry_of_network(
                        regs,
                        canonical_identifier.token_network_address,
                    ) == Some(a as int)
                    &&& 0 <= b < regs[a as int].tokennetworkaddresses_to_tokennetworks.len()
                    &&& spec_find_network(
                        regs[a as int].tokennetworkaddresses_to_tokennetworks,
                        canonical_identifier.token_network_address,
                    ) == Some(b as int)
                    &&& 0 <= c
                        < regs[a as int].tokennetworkaddresses_to_tokennetworks[b as int].channelidentifiers_to_channels.len()
                    &&& spec_find_channel(
                        regs[a as int].tokennetworkaddresses_to_tokennetworks[b as int].channelidentifiers_to_channels,
                        canonical_identifier.channel_identifier,
                    ) == Some(c as int)
                    &&& spec_get_channel(chain_state@, canonical_identifier) == Some(
                        regs[a as int].tokennetworkaddresses_to_tokennetworks[b as int].channelidentifiers_to_channels[c as int],
                    )
                },
                None => spec_get_channel(chain_state@, canonical_identifier) is None,
            }
        }),
{
    match find_network_path(chain_state, canonical_identifier.token_network_address) {
        Some((a, b)) => {
            let net = &chain_state.identifiers_to_tokennetworkregistries[a]
                .tokennetworkaddresses_to_tokennetworks[b];
            match find_channel(
                &net.channelidentifiers_to_channels,
                canonical_identifier.channel_identifier,
            ) {
                Some(c) => Some((a, b, c)),
                None => None,
            }
        },
        None => None,
    }
}

/// The token network with this address, if the state knows it.
pub fn get_token_network_by_address<'a>(
    chain_state: &'a ChainState,
    token_network_address: Address,
) -> (r: Option<&'a TokenNetworkState>)
    ensures
        ({
            let regs = chain_state@.identifiers_to_tokennetworkregistries;
            match r {
                Some(t) => spec_find_registry_of_network(regs, token_network_address) is Some
                    && t@ == {
                    let a = spec_find_registry_of_network(regs, token_network_address)->Some_0;
                    let nets = regs[a].tokennetworkaddresses_to_tokennetworks;
                    nets[spec_find_network(nets, token_network_address)->Some_0]
                },
                None => spec_find_registry_of_network(regs, token_network_address) is None,
            }
        }),
{
    match find_network_path(chain_state, token_network_address) {
        Some((a, b)) => Some(
            &chain_state.identifiers_to_tokennetworkregistries[a]
                .tokennetworkaddresses_to_tokennetworks[b],
        ),
        None => None,
    }
}

/// The channel named by a canonical identifier, if the state knows it.
pub fn get_channel_by_canonical_identifier<'a>(
    chain_state: &'a ChainState,
    canonical_identifier: CanonicalIdentifier,
) -> (r: Option<&'a ChannelState>)
    ensures
        match r {
            Some(c) => spec_get_channel(chain_state@, canonical_identifier) == Some(c@),
            None => spec_get_channel(chain_state@, canonical_identifier) is None,
        },
{
    match find_channel_path(chain_state, canonical_identifier) {
        Some((a, b, c)) => Some(
            &chain_state.identifiers_to_tokennetworkregistries[a]
                .tokennetworkaddresses_to_tokennetworks[b].channelidentifiers_to_channels[c],
        ),
        None => None,
    }
}

/// What one side can still spend on the channel: its deposit plus what the
/// partner has transferred to it, less its own withdraws and transfers,
/// floored at zero.
pub open spec fn spec_channel_balance(
    sender: crate::state::ChannelEndStateV,
    receiver: crate::state::ChannelEndStateV,
) -> nat {
    let transferred_by_us: nat = match sender.balance_proof {
        Some(bp) => bp.transferred_amount.as_nat(),
        None => 0,
    };
    let transferred_to_us: nat = match receiver.balance_proof {
        Some(bp) => bp.transferred_amount.as_nat(),
        None => 0,
    };
    let max: nat = (
    0x1_0000_0000_0000_0000_0000_0000_0000_0000_0000_0000_0000_0000_0000_0000_0000_0000 - 1) as nat;
    let gains: nat = if sender.contract_balance.as_nat() + transferred_to_us > max {
        max
    } else {
        sender.contract_balance.as_nat() + transferred_to_us
    };
    let costs: nat = if sender.spec_total_withdraw() + transferred_by_us > max {
        max
    } else {
        sender.spec_total_withdraw() + transferred_by_us
    };
    if gains >= costs {
        (gains - costs) as nat
    } else {
        0
    }
}

/// Computes what one side can still spend on the channel.
pub fn channel_balance(sender: &ChannelEndState, receiver: &ChannelEndState) -> (r: TokenAmount)
    ensures
        r.as_nat() == spec_channel_balance(sender@, receiver@),
{
    let transferred_by_us = match &sender.balance_proof {
        Some(bp) => bp.transferred_amount,
        None => U256::zero(),
    };
    let transferred_to_us = match &receiver.balance_proof {
        Some(bp) => bp.transferred_amount,
        None => U256::zero(),
    };
    let gains = sender.contract_balance.saturating_add(transferred_to_us);
    let costs = sender.total_withdraw().saturating_add(transferred_by_us);
    gains.saturating_sub(costs)
}


/// First index of the channel whose partner is this address, `None` when there is none.
pub open spec fn spec_find_channel_by_partner(s: Seq<ChannelStateV>, partner: Address) -> Option<int>
    decreases s.len(),
{
    if s.len() == 0 {
        None
    } else if s[0].partner_state.address == partner {
        Some(0int)
    } else {
        match spec_find_channel_by_partner(s.drop_first(), partner) {
            None => None,
            Some(r) => Some(r + 1),
        }
    }
}

/// Finds the channel whose partner is this address inside one token network.
pub fn find_channel_by_partner(items: &Vec<ChannelState>, partner: Address) -> (r: Option<usize>)
    ensures
        ({
            let v = items@.map_values(|x: ChannelState| x@);
            match r {
                Some(i) => 0 <= i < v.len() && spec_find_channel_by_partner(v, partner) == Some(i as int),
                None => spec_find_channel_by_partner(v, partner) is None,
            }
        }),
{
    let ghost v = items@.map_values(|x: ChannelState| x@);
    proof {
        assert(v.skip(0) =~= v);
    }
    let mut i: usize = 0;
    while i < items.len()
        invariant
            v == items@.map_values(|x: ChannelState| x@),
            0 <= i <= v.len(),
            spec_find_channel_by_partner(v, partner) == match spec_find_channel_by_partner(v.skip(i as int), partner) {
                None => None,
                Some(r) => Some(i + r),
            },
        decreases v.len() - i,
    {
        proof {
            assert(v.skip(i as int)[0] == v[i as int]);
        }
        if items[i].partner_state.address == partner {
            return Some(i);
        }
        proof {
            assert(v.skip(i as int).drop_first() =~= v.skip(i + 1));
            assert(spec_find_channel_by_partner(v.skip(i as int), partner) == match spec_find_channel_by_partner(v.skip(i + 1), partner) {
                None => None,
                Some(r) => Some(1 + r),
            });
        }
        i = i + 1;
    }
    proof {
        assert(v.skip(i as int).len() == 0);
    }
    None
}

/// First index of the tracked transfer with this payment identifier, `None` when there is none.
pub open spec fn spec_find_task_by_payment(s: Seq<(SecretHash, TransferTask)>, payment_identifier: u64) -> Option<int>
    decreases s.len(),
{
    if s.len() == 0 {
        None
    } else if s[0].1.payment_identifier == payment_identifier {
        Some(0int)
    } else {
        match spec_find_task_by_payment(s.drop_first(), payment_identifier) {
            None => None,
            Some(r) => Some(r + 1),
        }
    }
}

/// Finds the tracked transfer with this payment identifier.
pub fn find_task_by_payment(items: &Vec<(SecretHash, TransferTask)>, payment_identifier: u64) -> (r: Option<usize>)
    ensures
        match r {
            Some(i) => 0 <= i < items@.len() && spec_find_task_by_payment(items@, payment_identifier) == Some(i as int),
            None => spec_find_task_by_payment(items@, payment_identifier) is None,
        },
{
    proof {
        assert(items@.skip(0) =~= items@);
    }
    let mut i: usize = 0;
    while i < items.len()
        invariant
            0 <= i <= items@.len(),
            spec_find_task_by_payment(items@, payment_identifier) == match spec_find_task_by_payment(items@.skip(i as int), payment_identifier) {
                None => None,
                Some(r) => Some(i + r),
            },
        decreases items@.len() - i,
    {
        proof {
            assert(items@.skip(i as int)[0] == items@[i as int]);
        }
        if items[i].1.payment_identifier == payment_identifier {
            return Some(i);
        }
        proof {
            assert(items@.skip(i as int).drop_first() =~= items@.skip(i + 1));
            assert(spec_find_task_by_payment(items@.skip(i as int), payment_identifier) == match spec_find_task_by_payment(
                items@.skip(i + 1),
                payment_identifier,
            ) {
                None => None,
                Some(r) => Some(1 + r),
            });
        }
        i = i + 1;
    }
    proof {
        assert(items@.skip(i as int).len() == 0);
    }
    None
}

/// First index of the exact partner-to-channel pair, `None` when there is none.
pub open spec fn spec_find_partner_entry(s: Seq<(Address, U256)>, partner: Address, channel_identifier: U256) -> Option<int>
    decreases s.len(),
{
    if s.len() == 0 {
        None
    } else if (s[0].0 == partner && s[0].1 == channel_identifier) {
        Some(0int)
    } else {
        match spec_find_partner_entry(s.drop_first(), partner, channel_identifier) {
            None => None,
            Some(r) => Some(r + 1),
        }
    }
}

/// Finds the exact partner-to-channel pair.
pub fn find_partner_entry(items: &Vec<(Address, U256)>, partner: Address, channel_identifier: U256) -> (r: Option<usize>)
    ensures
        match r {
            Some(i) => 0 <= i < items@.len() && spec_find_partner_entry(items@, partner, channel_identifier) == Some(i as int),
            None => spec_find_partner_entry(items@, partner, channel_identifier) is None,
        },
{
    proof {
        assert(items@.skip(0) =~= items@);
    }
    let mut i: usize = 0;
    while i < items.len()
        invariant
            0 <= i <= items@.len(),
            spec_find_partner_entry(items@, partner, channel_identifier) == match spec_find_partner_entry(items@.skip(i as int), partner, channel_identifier) {
                None => None,
                Some(r) => Some(i + r),
            },
        decreases items@.len() - i,
    {
        proof {
            assert(items@.skip(i as int)[0] == items@[i as int]);
        }
        if (items[i].0 == partner && items[i].1 == channel_identifier) {
            return Some(i);
        }
        proof {
            assert(items@.skip(i as int).drop_first() =~= items@.skip(i + 1));
            assert(spec_find_partner_entry(items@.skip(i as int), partner, channel_identifier) == match spec_find_partner_entry(
                items@.skip(i + 1),
                partner, channel_identifier,
            ) {
                None => None,
                Some(r) => Some(1 + r),
            });
        }
        i = i + 1;
    }
    proof {
        assert(items@.skip(i as int).len() == 0);
    }
    None
}

/// First index of the delivery metadata recorded for this address, `None` when there is none.
pub open spec fn spec_find_metadata(s: Seq<(Address, crate::event::AddressMetadata)>, key: Address) -> Option<int>
    decreases s.len(),
{
    if s.len() == 0 {
        None
    } else if s[0].0 == key {
        Some(0int)
    } else {
        match spec_find_metadata(s.drop_first(), key) {
            None => None,
            Some(r) => Some(r + 1),
        }
    }
}

/// Finds the delivery metadata recorded for this address.
pub fn find_metadata(items: &Vec<(Address, crate::event::AddressMetadata)>, key: Address) -> (r: Option<usize>)
    ensures
        match r {
            Some(i) => 0 <= i < items@.len() && spec_find_metadata(items@, key) == Some(i as int),
            None => spec_find_metadata(items@, key) is None,
        },
{
    proof {
        assert(items@.skip(0) =~= items@);
    }
    let mut i: usize = 0;
    while i < items.len()
        invariant
            0 <= i <= items@.len(),
            spec_find_metadata(items@, key) == match spec_find_metadata(items@.skip(i as int), key) {
                None => None,
                Some(r) => Some(i + r),
            },
        decreases items@.len() - i,
    {
        proof {
            assert(items@.skip(i as int)[0] == items@[i as int]);
        }
        if items[i].0 == key {
            return Some(i);
        }
        proof {
            assert(items@.skip(i as int).drop_first() =~= items@.skip(i + 1));
            assert(spec_find_metadata(items@.skip(i as int), key) == match spec_find_metadata(
                items@.skip(i + 1),
                key,
            ) {
                None => None,
                Some(r) => Some(1 + r),
            });
        }
        i = i + 1;
    }
    proof {
        assert(items@.skip(i as int).len() == 0);
    }
    None
}

} // verus!
