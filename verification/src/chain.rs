//! The top-level reducer: dispatches every state change to the entity that
//! owns it, rebuilds the state tree, maintains the outbound queues, and
//! returns the emitted events. `transition` is the single operation the
//! coordinator drives; its contract pins the result to [`spec_transition`].

use vstd::prelude::*;

use crate::channel::{spec_events, spec_channel_block};
use crate::event::{Event, EventV, SendMessageEvent, SendMessageEventV};
use crate::packing::CanonicalIdentifier;
use crate::state::{
    ChainState, ChainStateV, ChannelState, ChannelStateV, QueueEntry, QueueEntryV,
    QueueIdentifier, Random, TokenNetworkRegistryState, TokenNetworkRegistryStateV,
    TokenNetworkState, TokenNetworkStateV, TransferTask,
};
use crate::types::{Address, BlockNumber, SecretHash, U256};
use crate::views::{
    spec_find_channel, spec_find_network, spec_find_queue, spec_find_registry,
    spec_find_registry_of_network, spec_find_task,
};

verus! {

broadcast use vstd::std_specs::vec::axiom_spec_len;

/// The state tree with the channel at `(a, b, c)` replaced.
pub open spec fn spec_set_channel(cs: ChainStateV, a: int, b: int, c: int, ch: ChannelStateV) -> ChainStateV {
    let reg = cs.identifiers_to_tokennetworkregistries[a];
    let net = reg.tokennetworkaddresses_to_tokennetworks[b];
    let net2 = TokenNetworkStateV {
        channelidentifiers_to_channels: net.channelidentifiers_to_channels.update(c, ch),
        ..net
    };
    let reg2 = TokenNetworkRegistryStateV {
        tokennetworkaddresses_to_tokennetworks:
            reg.tokennetworkaddresses_to_tokennetworks.update(b, net2),
        ..reg
    };
    ChainStateV {
        identifiers_to_tokennetworkregistries: cs.identifiers_to_tokennetworkregistries.update(
            a,
            reg2,
        ),
        ..cs
    }
}

/// Replaces the channel at `(a, b, c)`.
pub fn set_channel(state: ChainState, a: usize, b: usize, c: usize, ch: ChannelState) -> (r:
    ChainState)
    requires
        a < state@.identifiers_to_tokennetworkregistries.len(),
        b
            < state@.identifiers_to_tokennetworkregistries[a as int].tokennetworkaddresses_to_tokennetworks.len(),
        c
            < state@.identifiers_to_tokennetworkregistries[a as int].tokennetworkaddresses_to_tokennetworks[b as int].channelidentifiers_to_channels.len(),
    ensures
        r@ == spec_set_channel(state@, a as int, b as int, c as int, ch@),
{
    let ghost cs0 = state@;
    let mut state = state;
    let mut reg = state.identifiers_to_tokennetworkregistries.remove(a);
    let mut net = reg.tokennetworkaddresses_to_tokennetworks.remove(b);
    let mut chs = net.channelidentifiers_to_channels;
    let _old = chs.remove(c);
    chs.insert(c, ch);
    net.channelidentifiers_to_channels = chs;
    reg.tokennetworkaddresses_to_tokennetworks.insert(b, net);
    state.identifiers_to_tokennetworkregistries.insert(a, reg);
    proof {
        assert(state@.identifiers_to_tokennetworkregistries =~~= spec_set_channel(
            cs0,
            a as int,
            b as int,
            c as int,
            ch@,
        ).identifiers_to_tokennetworkregistries);
        assert(state@ =~~= spec_set_channel(cs0, a as int, b as int, c as int, ch@));
    }
    state
}

/// The state tree with the token network at `(a, b)` replaced.
pub open spec fn spec_set_network(cs: ChainStateV, a: int, b: int, net: TokenNetworkStateV) -> ChainStateV {
    let reg = cs.identifiers_to_tokennetworkregistries[a];
    let reg2 = TokenNetworkRegistryStateV {
        tokennetworkaddresses_to_tokennetworks:
            reg.tokennetworkaddresses_to_tokennetworks.update(b, net),
        ..reg
    };
    ChainStateV {
        identifiers_to_tokennetworkregistries: cs.identifiers_to_tokennetworkregistries.update(
            a,
            reg2,
        ),
        ..cs
    }
}

/// Replaces the token network at `(a, b)`.
pub fn set_network(state: ChainState, a: usize, b: usize, net: TokenNetworkState) -> (r:
    ChainState)
    requires
        a < state@.identifiers_to_tokennetworkregistries.len(),
        b
            < state@.identifiers_to_tokennetworkregistries[a as int].tokennetworkaddresses_to_tokennetworks.len(),
    ensures
        r@ == spec_set_network(state@, a as int, b as int, net@),
{
    let ghost cs0 = state@;
    let mut state = state;
    let mut reg = state.identifiers_to_tokennetworkregistries.remove(a);
    let mut nets = reg.tokennetworkaddresses_to_tokennetworks;
    let _old = nets.remove(b);
    nets.insert(b, net);
    reg.tokennetworkaddresses_to_tokennetworks = nets;
    state.identifiers_to_tokennetworkregistries.insert(a, reg);
    proof {
        assert(state@.identifiers_to_tokennetworkregistries =~~= spec_set_network(
            cs0,
            a as int,
            b as int,
            net@,
        ).identifiers_to_tokennetworkregistries);
        assert(state@ =~~= spec_set_network(cs0, a as int, b as int, net@));
    }
    state
}

/// Appends a message event to its queue, creating the queue when it does not
/// exist yet.
pub open spec fn spec_enqueue_one(qs: Seq<QueueEntryV>, ev: EventV) -> Seq<QueueEntryV> {
    match crate::event::spec_send_message_event(ev) {
        None => qs,
        Some(m) => {
            let qid = m.spec_queue_identifier();
            match spec_find_queue(qs, qid) {
                Some(i) => qs.update(
                    i,
                    QueueEntryV { events: qs[i].events.push(m), ..qs[i] },
                ),
                None => qs.push(QueueEntryV { queue_identifier: qid, events: seq![m] }),
            }
        },
    }
}

/// Appends every message event of the batch to its queue, in batch order.
pub open spec fn spec_enqueue_events(qs: Seq<QueueEntryV>, evs: Seq<EventV>) -> Seq<QueueEntryV>
    decreases evs.len(),
{
    if evs.len() == 0 {
        qs
    } else {
        spec_enqueue_events(spec_enqueue_one(qs, evs[0]), evs.drop_first())
    }
}

fn enqueue_one(qs: Vec<QueueEntry>, ev: &Event) -> (r: Vec<QueueEntry>)
    ensures
        r@.map_values(|q: QueueEntry| q@) == spec_enqueue_one(
            qs@.map_values(|q: QueueEntry| q@),
            ev@,
        ),
{
    let ghost q0 = qs@.map_values(|q: QueueEntry| q@);
    match crate::event::message_of(ev) {
        None => qs,
        Some(m) => {
            let qid = m.queue_identifier();
            let mut qs = qs;
            match crate::views::find_queue(&qs, qid) {
                Some(i) => {
                    let mut entry = qs.remove(i);
                    entry.events.push(m);
                    qs.insert(i, entry);
                    proof {
                        assert(qs@.map_values(|q: QueueEntry| q@) =~~= spec_enqueue_one(q0, ev@));
                    }
                    qs
                },
                None => {
                    let mut events: Vec<SendMessageEvent> = Vec::new();
                    events.push(m);
                    qs.push(QueueEntry { queue_identifier: qid, events });
                    proof {
                        assert(qs@.map_values(|q: QueueEntry| q@) =~~= spec_enqueue_one(q0, ev@));
                    }
                    qs
                },
            }
        },
    }
}

/// Appends every message event of the batch to its queue.
pub fn enqueue_events(qs: Vec<QueueEntry>, events: &Vec<Event>) -> (r: Vec<QueueEntry>)
    ensures
        r@.map_values(|q: QueueEntry| q@) == spec_enqueue_events(
            qs@.map_values(|q: QueueEntry| q@),
            spec_events(events@),
        ),
{
    let ghost q0 = qs@.map_values(|q: QueueEntry| q@);
    let ghost evs = spec_events(events@);
    let mut qs = qs;
    proof {
        assert(evs.skip(0) =~= evs);
    }
    let mut i: usize = 0;
    while i < events.len()
        invariant
            0 <= i <= events@.len(),
            evs == spec_events(events@),
            spec_enqueue_events(q0, evs) == spec_enqueue_events(
                qs@.map_values(|q: QueueEntry| q@),
                evs.skip(i as int),
            ),
        decreases events@.len() - i,
    {
        proof {
            assert(evs.skip(i as int)[0] == evs[i as int]);
            assert(evs.skip(i as int).drop_first() =~= evs.skip(i + 1));
        }
        qs = enqueue_one(qs, &events[i]);
        i = i + 1;
    }
    proof {
        assert(evs.skip(i as int).len() == 0);
    }
    qs
}

/// The queue without the acknowledged message.
pub open spec fn spec_without_message(
    evs: Seq<SendMessageEventV>,
    message_identifier: u64,
) -> Seq<SendMessageEventV>
    decreases evs.len(),
{
    if evs.len() == 0 {
        Seq::empty()
    } else if evs.last().spec_message_identifier() == message_identifier {
        spec_without_message(evs.drop_last(), message_identifier)
    } else {
        spec_without_message(evs.drop_last(), message_identifier).push(evs.last())
    }
}

fn without_message(evs: Vec<SendMessageEvent>, message_identifier: u64) -> (r: Vec<
    SendMessageEvent,
>)
    ensures
        r@.map_values(|e: SendMessageEvent| e@) == spec_without_message(
            evs@.map_values(|e: SendMessageEvent| e@),
            message_identifier,
        ),
{
    let ghost e0 = evs@.map_values(|e: SendMessageEvent| e@);
    let mut out: Vec<SendMessageEvent> = Vec::new();
    let mut rem = evs;
    let n: usize = rem.len();
    let mut i: usize = 0;
    proof {
        assert(e0.subrange(0, 0) =~= Seq::<SendMessageEventV>::empty());
        assert(out@.map_values(|e: SendMessageEvent| e@) =~= spec_without_message(
            e0.subrange(0, 0),
            message_identifier,
        ));
    }
    while rem.len() > 0
        invariant
            i + rem@.len() == e0.len(),
            i <= e0.len() <= usize::MAX,
            rem@.map_values(|e: SendMessageEvent| e@) == e0.subrange(i as int, e0.len() as int),
            out@.map_values(|e: SendMessageEvent| e@) == spec_without_message(
                e0.subrange(0, i as int),
                message_identifier,
            ),
        decreases rem@.len(),
    {
        let ghost remv = rem@.map_values(|e: SendMessageEvent| e@);
        let e = rem.remove(0);
        proof {
            assert(e@ == remv[0]);
            assert(e@ == e0[i as int]);
            assert(rem@.map_values(|e: SendMessageEvent| e@) =~= remv.drop_first());
            assert(rem@.map_values(|e: SendMessageEvent| e@) =~= e0.subrange(
                i + 1,
                e0.len() as int,
            ));
            assert(e0.subrange(0, i + 1).drop_last() =~= e0.subrange(0, i as int));
            assert(e0.subrange(0, i + 1).last() == e0[i as int]);
        }
        if e.message_identifier() != message_identifier {
            out.push(e);
        }
        i = i + 1;
        proof {
            assert(out@.map_values(|e: SendMessageEvent| e@) =~= spec_without_message(
                e0.subrange(0, i as int),
                message_identifier,
            ));
        }
    }
    proof {
        assert(e0.subrange(0, i as int) =~= e0);
    }
    out
}

/// The queues after an acknowledgement from `sender`: in every queue to that
/// sender, exactly the entries with the acknowledged identifier are removed;
/// the others keep their order.
pub open spec fn spec_dequeue_entry(
    q: QueueEntryV,
    sender: Address,
    message_identifier: u64,
) -> QueueEntryV {
    if q.queue_identifier.recipient == sender {
        QueueEntryV { events: spec_without_message(q.events, message_identifier), ..q }
    } else {
        q
    }
}

pub open spec fn spec_dequeue(
    qs: Seq<QueueEntryV>,
    sender: Address,
    message_identifier: u64,
) -> Seq<QueueEntryV>
    decreases qs.len(),
{
    if qs.len() == 0 {
        Seq::empty()
    } else {
        spec_dequeue(qs.drop_last(), sender, message_identifier).push(
            spec_dequeue_entry(qs.last(), sender, message_identifier),
        )
    }
}

/// Removes the acknowledged message from the sender's queues.
pub fn dequeue(qs: Vec<QueueEntry>, sender: Address, message_identifier: u64) -> (r: Vec<
    QueueEntry,
>)
    ensures
        r@.map_values(|q: QueueEntry| q@) == spec_dequeue(
            qs@.map_values(|q: QueueEntry| q@),
            sender,
            message_identifier,
        ),
{
    let ghost q0 = qs@.map_values(|q: QueueEntry| q@);
    let mut out: Vec<QueueEntry> = Vec::new();
    let mut rem = qs;
    let n: usize = rem.len();
    let mut i: usize = 0;
    proof {
        assert(out@.map_values(|q: QueueEntry| q@) =~~= spec_dequeue(
            q0.subrange(0, 0),
            sender,
            message_identifier,
        ));
    }
    while rem.len() > 0
        invariant
            i + rem@.len() == q0.len(),
            i <= q0.len() <= usize::MAX,
            rem@.map_values(|q: QueueEntry| q@) == q0.subrange(i as int, q0.len() as int),
            out@.map_values(|q: QueueEntry| q@) == spec_dequeue(
                q0.subrange(0, i as int),
                sender,
                message_identifier,
            ),
        decreases rem@.len(),
    {
        let ghost remv = rem@.map_values(|q: QueueEntry| q@);
        let q = rem.remove(0);
        proof {
            assert(q@ == remv[0]);
            assert(q@ == q0[i as int]);
            assert(rem@.map_values(|q: QueueEntry| q@) =~= remv.drop_first());
            assert(rem@.map_values(|q: QueueEntry| q@) =~= q0.subrange(i + 1, q0.len() as int));
        }
        if q.queue_identifier.recipient == sender {
            let entry = QueueEntry {
                queue_identifier: q.queue_identifier,
                events: without_message(q.events, message_identifier),
            };
            proof {
                assert(entry@ =~~= spec_dequeue_entry(q0[i as int], sender, message_identifier));
            }
            out.push(entry);
        } else {
            out.push(q);
        }
        i = i + 1;
        proof {
            assert(q0.subrange(0, i as int).drop_last() =~= q0.subrange(0, i - 1));
            assert(q0.subrange(0, i as int).last() == q0[i - 1]);
        }
        proof {
            assert(out@.map_values(|q: QueueEntry| q@) =~~= spec_dequeue(
                q0.subrange(0, i as int),
                sender,
                message_identifier,
            ));
        }
    }
    proof {
        assert(q0.subrange(0, i as int) =~= q0);
        assert(out@.map_values(|q: QueueEntry| q@) =~~= spec_dequeue(
            q0,
            sender,
            message_identifier,
        ));
    }
    out
}

/// The queues without those of one settled channel.
pub open spec fn spec_drop_queues(
    qs: Seq<QueueEntryV>,
    canonical_identifier: CanonicalIdentifier,
) -> Seq<QueueEntryV>
    decreases qs.len(),
{
    if qs.len() == 0 {
        Seq::empty()
    } else if qs.last().queue_identifier.canonical_identifier == canonical_identifier {
        spec_drop_queues(qs.drop_last(), canonical_identifier)
    } else {
        spec_drop_queues(qs.drop_last(), canonical_identifier).push(qs.last())
    }
}

/// Removes the queues of one settled channel.
pub fn drop_queues(qs: Vec<QueueEntry>, canonical_identifier: CanonicalIdentifier) -> (r: Vec<
    QueueEntry,
>)
    ensures
        r@.map_values(|q: QueueEntry| q@) == spec_drop_queues(
            qs@.map_values(|q: QueueEntry| q@),
            canonical_identifier,
        ),
{
    let ghost q0 = qs@.map_values(|q: QueueEntry| q@);
    let mut out: Vec<QueueEntry> = Vec::new();
    let mut rem = qs;
    let n: usize = rem.len();
    let mut i: usize = 0;
    proof {
        assert(out@.map_values(|q: QueueEntry| q@) =~= spec_drop_queues(
            q0.subrange(0, 0),
            canonical_identifier,
        ));
    }
    while rem.len() > 0
        invariant
            i + rem@.len() == q0.len(),
            i <= q0.len() <= usize::MAX,
            rem@.map_values(|q: QueueEntry| q@) == q0.subrange(i as int, q0.len() as int),
            out@.map_values(|q: QueueEntry| q@) == spec_drop_queues(
                q0.subrange(0, i as int),
                canonical_identifier,
            ),
        decreases rem@.len(),
    {
        let ghost remv = rem@.map_values(|q: QueueEntry| q@);
        let q = rem.remove(0);
        proof {
            assert(q@ == remv[0]);
            assert(q@ == q0[i as int]);
            assert(rem@.map_values(|q: QueueEntry| q@) =~= remv.drop_first());
            assert(rem@.map_values(|q: QueueEntry| q@) =~= q0.subrange(i + 1, q0.len() as int));
            assert(q0.subrange(0, i + 1).drop_last() =~= q0.subrange(0, i as int));
            assert(q0.subrange(0, i + 1).last() == q0[i as int]);
        }
        if !(q.queue_identifier.canonical_identifier == canonical_identifier) {
            out.push(q);
        }
        i = i + 1;
        proof {
            assert(out@.map_values(|q: QueueEntry| q@) =~= spec_drop_queues(
                q0.subrange(0, i as int),
                canonical_identifier,
            ));
        }
    }
    proof {
        assert(q0.subrange(0, i as int) =~= q0);
    }
    out
}

/// What a new block does to every channel of one token network, in order.
pub open spec fn spec_block_channels(
    chs: Seq<ChannelStateV>,
    block_number: BlockNumber,
    rng: Random,
) -> (Seq<ChannelStateV>, Random, Seq<EventV>)
    decreases chs.len(),
{
    if chs.len() == 0 {
        (Seq::empty(), rng, Seq::empty())
    } else {
        let step = spec_channel_block(chs[0], block_number, rng);
        let rec = spec_block_channels(chs.drop_first(), block_number, step.1);
        (seq![step.0] + rec.0, rec.1, step.2 + rec.2)
    }
}

#[verifier::rlimit(100)]
fn block_channels(chs: Vec<ChannelState>, block_number: BlockNumber, rng: Random) -> (r: (
    Vec<ChannelState>,
    Random,
    Vec<Event>,
))
    ensures
        ({
            let s = spec_block_channels(
                chs@.map_values(|c: ChannelState| c@),
                block_number,
                rng,
            );
            r.0@.map_values(|c: ChannelState| c@) == s.0 && r.1 == s.1 && spec_events(r.2@) == s.2
        }),
{
    let ghost c0 = chs@.map_values(|c: ChannelState| c@);
    let ghost rng00 = rng;
    let mut out: Vec<ChannelState> = Vec::new();
    let mut events: Vec<Event> = Vec::new();
    let mut rem = chs;
    let mut rng = rng;
    while rem.len() > 0
        invariant
            ({
                let full = spec_block_channels(c0, block_number, rng00);
                let rest = spec_block_channels(
                    rem@.map_values(|c: ChannelState| c@),
                    block_number,
                    rng,
                );
                full.0 == out@.map_values(|c: ChannelState| c@) + rest.0 && full.1 == rest.1
                    && full.2 == spec_events(events@) + rest.2
            }),
        decreases rem@.len(),
    {
        let ghost remv = rem@.map_values(|c: ChannelState| c@);
        let ch = rem.remove(0);
        proof {
            assert(ch@ == remv[0]);
            assert(rem@.map_values(|c: ChannelState| c@) =~= remv.drop_first());
        }
        let step = crate::channel::channel_block(ch, block_number, rng);
        rng = step.1;
        out.push(step.0);
        events = crate::channel::append_events(events, step.2);
        proof {
            let full = spec_block_channels(c0, block_number, rng00);
            let rest = spec_block_channels(
                rem@.map_values(|c: ChannelState| c@),
                block_number,
                rng,
            );
            assert(full.0 =~= out@.map_values(|c: ChannelState| c@) + rest.0);
            assert(full.2 =~= spec_events(events@) + rest.2);
        }
    }
    proof {
        assert(rem@.map_values(|c: ChannelState| c@).len() == 0);
        let full = spec_block_channels(c0, block_number, rng00);
        assert(out@.map_values(|c: ChannelState| c@) =~= full.0);
        assert(spec_events(events@) =~= full.2);
    }
    (out, rng, events)
}

/// What a new block does to every token network of one registry, in order.
pub open spec fn spec_block_networks(
    nets: Seq<TokenNetworkStateV>,
    block_number: BlockNumber,
    rng: Random,
) -> (Seq<TokenNetworkStateV>, Random, Seq<EventV>)
    decreases nets.len(),
{
    if nets.len() == 0 {
        (Seq::empty(), rng, Seq::empty())
    } else {
        let step = spec_block_channels(nets[0].channelidentifiers_to_channels, block_number, rng);
        let net2 = TokenNetworkStateV { channelidentifiers_to_channels: step.0, ..nets[0] };
        let rec = spec_block_networks(nets.drop_first(), block_number, step.1);
        (seq![net2] + rec.0, rec.1, step.2 + rec.2)
    }
}

#[verifier::rlimit(100)]
fn block_networks(nets: Vec<TokenNetworkState>, block_number: BlockNumber, rng: Random) -> (r: (
    Vec<TokenNetworkState>,
    Random,
    Vec<Event>,
))
    ensures
        ({
            let s = spec_block_networks(
                nets@.map_values(|n: TokenNetworkState| n@),
                block_number,
                rng,
            );
            r.0@.map_values(|n: TokenNetworkState| n@) == s.0 && r.1 == s.1 && spec_events(r.2@)
                == s.2
        }),
{
    let ghost n0 = nets@.map_values(|n: TokenNetworkState| n@);
    let ghost rng00 = rng;
    let mut out: Vec<TokenNetworkState> = Vec::new();
    let mut events: Vec<Event> = Vec::new();
    let mut rem = nets;
    let mut rng = rng;
    while rem.len() > 0
        invariant
            ({
                let full = spec_block_networks(n0, block_number, rng00);
                let rest = spec_block_networks(
                    rem@.map_values(|n: TokenNetworkState| n@),
                    block_number,
                    rng,
                );
                full.0 == out@.map_values(|n: TokenNetworkState| n@) + rest.0 && full.1 == rest.1
                    && full.2 == spec_events(events@) + rest.2
            }),
        decreases rem@.len(),
    {
        let ghost remv = rem@.map_values(|n: TokenNetworkState| n@);
        let mut net = rem.remove(0);
        proof {
            assert(net@ == remv[0]);
            assert(rem@.map_values(|n: TokenNetworkState| n@) =~= remv.drop_first());
        }
        let chs = net.channelidentifiers_to_channels;
        let step = block_channels(chs, block_number, rng);
        net.channelidentifiers_to_channels = step.0;
        rng = step.1;
        out.push(net);
        events = crate::channel::append_events(events, step.2);
        proof {
            let full = spec_block_networks(n0, block_number, rng00);
            let rest = spec_block_networks(
                rem@.map_values(|n: TokenNetworkState| n@),
                block_number,
                rng,
            );
            assert(full.0 =~~= out@.map_values(|n: TokenNetworkState| n@) + rest.0);
            assert(full.2 =~= spec_events(events@) + rest.2);
        }
    }
    proof {
        let full = spec_block_networks(n0, block_number, rng00);
        assert(out@.map_values(|n: TokenNetworkState| n@) =~= full.0);
        assert(spec_events(events@) =~= full.2);
    }
    (out, rng, events)
}

/// What a new block does to every registry, in order.
pub open spec fn spec_block_registries(
    regs: Seq<TokenNetworkRegistryStateV>,
    block_number: BlockNumber,
    rng: Random,
) -> (Seq<TokenNetworkRegistryStateV>, Random, Seq<EventV>)
    decreases regs.len(),
{
    if regs.len() == 0 {
        (Seq::empty(), rng, Seq::empty())
    } else {
        let step = spec_block_networks(
            regs[0].tokennetworkaddresses_to_tokennetworks,
            block_number,
            rng,
        );
        let reg2 = TokenNetworkRegistryStateV {
            tokennetworkaddresses_to_tokennetworks: step.0,
            ..regs[0]
        };
        let rec = spec_block_registries(regs.drop_first(), block_number, step.1);
        (seq![reg2] + rec.0, rec.1, step.2 + rec.2)
    }
}

#[verifier::rlimit(100)]
fn block_registries(
    regs: Vec<TokenNetworkRegistryState>,
    block_number: BlockNumber,
    rng: Random,
) -> (r: (Vec<TokenNetworkRegistryState>, Random, Vec<Event>))
    ensures
        ({
            let s = spec_block_registries(
                regs@.map_values(|g: TokenNetworkRegistryState| g@),
                block_number,
                rng,
            );
            r.0@.map_values(|g: TokenNetworkRegistryState| g@) == s.0 && r.1 == s.1 && spec_events(
                r.2@,
            ) == s.2
        }),
{
    let ghost g0 = regs@.map_values(|g: TokenNetworkRegistryState| g@);
    let ghost rng00 = rng;
    let mut out: Vec<TokenNetworkRegistryState> = Vec::new();
    let mut events: Vec<Event> = Vec::new();
    let mut rem = regs;
    let mut rng = rng;
    while rem.len() > 0
        invariant
            ({
                let full = spec_block_registries(g0, block_number, rng00);
                let rest = spec_block_registries(
                    rem@.map_values(|g: TokenNetworkRegistryState| g@),
                    block_number,
                    rng,
                );
                full.0 == out@.map_values(|g: TokenNetworkRegistryState| g@) + rest.0 && full.1
                    == rest.1 && full.2 == spec_events(events@) + rest.2
            }),
        decreases rem@.len(),
    {
        let ghost remv = rem@.map_values(|g: TokenNetworkRegistryState| g@);
        let mut reg = rem.remove(0);
        proof {
            assert(reg@ == remv[0]);
            assert(rem@.map_values(|g: TokenNetworkRegistryState| g@) =~= remv.drop_first());
        }
        let nets = reg.tokennetworkaddresses_to_tokennetworks;
        let step = block_networks(nets, block_number, rng);
        reg.tokennetworkaddresses_to_tokennetworks = step.0;
        rng = step.1;
        out.push(reg);
        events = crate::channel::append_events(events, step.2);
        proof {
            let full = spec_block_registries(g0, block_number, rng00);
            let rest = spec_block_registries(
                rem@.map_values(|g: TokenNetworkRegistryState| g@),
                block_number,
                rng,
            );
            assert(full.0 =~~= out@.map_values(|g: TokenNetworkRegistryState| g@) + rest.0);
            assert(full.2 =~= spec_events(events@) + rest.2);
        }
    }
    proof {
        let full = spec_block_registries(g0, block_number, rng00);
        assert(out@.map_values(|g: TokenNetworkRegistryState| g@) =~= full.0);
        assert(spec_events(events@) =~= full.2);
    }
    (out, rng, events)
}

/// The state tree with the channel at `(a, b, c)` taken out.
pub open spec fn spec_remove_channel(cs: ChainStateV, a: int, b: int, c: int) -> ChainStateV {
    let reg = cs.identifiers_to_tokennetworkregistries[a];
    let net = reg.tokennetworkaddresses_to_tokennetworks[b];
    let net2 = TokenNetworkStateV {
        channelidentifiers_to_channels: net.channelidentifiers_to_channels.remove(c),
        ..net
    };
    let reg2 = TokenNetworkRegistryStateV {
        tokennetworkaddresses_to_tokennetworks:
            reg.tokennetworkaddresses_to_tokennetworks.update(b, net2),
        ..reg
    };
    ChainStateV {
        identifiers_to_tokennetworkregistries: cs.identifiers_to_tokennetworkregistries.update(
            a,
            reg2,
        ),
        ..cs
    }
}

/// Takes the channel at `(a, b, c)` out of the tree.
pub fn take_channel(state: ChainState, a: usize, b: usize, c: usize) -> (r: (
    ChainState,
    ChannelState,
))
    requires
        a < state@.identifiers_to_tokennetworkregistries.len(),
        b
            < state@.identifiers_to_tokennetworkregistries[a as int].tokennetworkaddresses_to_tokennetworks.len(),
        c
            < state@.identifiers_to_tokennetworkregistries[a as int].tokennetworkaddresses_to_tokennetworks[b as int].channelidentifiers_to_channels.len(),
    ensures
        r.0@ == spec_remove_channel(state@, a as int, b as int, c as int),
        r.1@
            == state@.identifiers_to_tokennetworkregistries[a as int].tokennetworkaddresses_to_tokennetworks[b as int].channelidentifiers_to_channels[c as int],
{
    let ghost cs0 = state@;
    let mut state = state;
    let mut reg = state.identifiers_to_tokennetworkregistries.remove(a);
    let mut net = reg.tokennetworkaddresses_to_tokennetworks.remove(b);
    let ch = net.channelidentifiers_to_channels.remove(c);
    reg.tokennetworkaddresses_to_tokennetworks.insert(b, net);
    state.identifiers_to_tokennetworkregistries.insert(a, reg);
    proof {
        assert(state@.identifiers_to_tokennetworkregistries =~~= spec_remove_channel(
            cs0,
            a as int,
            b as int,
            c as int,
        ).identifiers_to_tokennetworkregistries);
        assert(state@ =~~= spec_remove_channel(cs0, a as int, b as int, c as int));
    }
    (state, ch)
}

/// The state tree with a channel put back at `(a, b, c)`.
pub open spec fn spec_insert_channel(cs: ChainStateV, a: int, b: int, c: int, ch: ChannelStateV) -> ChainStateV {
    let reg = cs.identifiers_to_tokennetworkregistries[a];
    let net = reg.tokennetworkaddresses_to_tokennetworks[b];
    let net2 = TokenNetworkStateV {
        channelidentifiers_to_channels: net.channelidentifiers_to_channels.insert(c, ch),
        ..net
    };
    let reg2 = TokenNetworkRegistryStateV {
        tokennetworkaddresses_to_tokennetworks:
            reg.tokennetworkaddresses_to_tokennetworks.update(b, net2),
        ..reg
    };
    ChainStateV {
        identifiers_to_tokennetworkregistries: cs.identifiers_to_tokennetworkregistries.update(
            a,
            reg2,
        ),
        ..cs
    }
}

/// Puts a channel back at `(a, b, c)`.
pub fn put_channel(state: ChainState, a: usize, b: usize, c: usize, ch: ChannelState) -> (r:
    ChainState)
    requires
        a < state@.identifiers_to_tokennetworkregistries.len(),
        b
            < state@.identifiers_to_tokennetworkregistries[a as int].tokennetworkaddresses_to_tokennetworks.len(),
        c
            <= state@.identifiers_to_tokennetworkregistries[a as int].tokennetworkaddresses_to_tokennetworks[b as int].channelidentifiers_to_channels.len(),
    ensures
        r@ == spec_insert_channel(state@, a as int, b as int, c as int, ch@),
{
    let ghost cs0 = state@;
    let mut state = state;
    let mut reg = state.identifiers_to_tokennetworkregistries.remove(a);
    let mut net = reg.tokennetworkaddresses_to_tokennetworks.remove(b);
    net.channelidentifiers_to_channels.insert(c, ch);
    reg.tokennetworkaddresses_to_tokennetworks.insert(b, net);
    state.identifiers_to_tokennetworkregistries.insert(a, reg);
    proof {
        assert(state@.identifiers_to_tokennetworkregistries =~~= spec_insert_channel(
            cs0,
            a as int,
            b as int,
            c as int,
            ch@,
        ).identifiers_to_tokennetworkregistries);
        assert(state@ =~~= spec_insert_channel(cs0, a as int, b as int, c as int, ch@));
    }
    state
}

/// The channel named by the canonical identifier, replaced in the tree;
/// meaningful only when [`crate::views::spec_get_channel`] finds it.
pub open spec fn spec_update_channel(
    cs: ChainStateV,
    canonical_identifier: CanonicalIdentifier,
    ch2: ChannelStateV,
) -> ChainStateV {
    let regs = cs.identifiers_to_tokennetworkregistries;
    let a = spec_find_registry_of_network(regs, canonical_identifier.token_network_address)->Some_0;
    let b = spec_find_network(
        regs[a].tokennetworkaddresses_to_tokennetworks,
        canonical_identifier.token_network_address,
    )->Some_0;
    let c = spec_find_channel(
        regs[a].tokennetworkaddresses_to_tokennetworks[b].channelidentifiers_to_channels,
        canonical_identifier.channel_identifier,
    )->Some_0;
    spec_insert_channel(spec_remove_channel(cs, a, b, c), a, b, c, ch2)
}

/// What `ContractReceiveTokenNetworkRegistry` does: an unknown registry is
/// recorded; a known address is left as it is.
pub open spec fn spec_handle_registry(
    cs: ChainStateV,
    reg: TokenNetworkRegistryStateV,
) -> ChainStateV {
    match spec_find_registry(cs.identifiers_to_tokennetworkregistries, reg.address) {
        Some(_) => cs,
        None => ChainStateV {
            identifiers_to_tokennetworkregistries:
                cs.identifiers_to_tokennetworkregistries.push(reg),
            ..cs
        },
    }
}

fn handle_registry(state: ChainState, reg: TokenNetworkRegistryState) -> (r: ChainState)
    ensures
        r@ == spec_handle_registry(state@, reg@),
{
    let ghost cs0 = state@;
    let mut state = state;
    match crate::views::find_registry(&state.identifiers_to_tokennetworkregistries, reg.address) {
        Some(_) => state,
        None => {
            state.identifiers_to_tokennetworkregistries.push(reg);
            proof {
                assert(state@ =~~= spec_handle_registry(cs0, reg@));
            }
            state
        },
    }
}

/// What `ContractReceiveTokenNetworkCreated` does: the new token network is
/// recorded in its registry, with the token index; an unknown registry or an
/// already-known network changes nothing.
pub open spec fn spec_handle_network_created(
    cs: ChainStateV,
    registry_address: Address,
    net: TokenNetworkStateV,
) -> ChainStateV {
    match spec_find_registry(cs.identifiers_to_tokennetworkregistries, registry_address) {
        None => cs,
        Some(a) => {
            let reg = cs.identifiers_to_tokennetworkregistries[a];
            if spec_find_network(reg.tokennetworkaddresses_to_tokennetworks, net.address)
                is Some {
                cs
            } else {
                let reg2 = TokenNetworkRegistryStateV {
                    tokennetworkaddresses_to_tokennetworks:
                        reg.tokennetworkaddresses_to_tokennetworks.push(net),
                    tokenaddresses_to_tokennetworkaddresses:
                        reg.tokenaddresses_to_tokennetworkaddresses.push(
                        (net.token_address, net.address),
                    ),
                    ..reg
                };
                ChainStateV {
                    identifiers_to_tokennetworkregistries:
                        cs.identifiers_to_tokennetworkregistries.update(a, reg2),
                    ..cs
                }
            }
        },
    }
}

fn handle_network_created(
    state: ChainState,
    registry_address: Address,
    net: TokenNetworkState,
) -> (r: ChainState)
    ensures
        r@ == spec_handle_network_created(state@, registry_address, net@),
{
    let ghost cs0 = state@;
    let mut state = state;
    match crate::views::find_registry(
        &state.identifiers_to_tokennetworkregistries,
        registry_address,
    ) {
        None => state,
        Some(a) => {
            let mut reg = state.identifiers_to_tokennetworkregistries.remove(a);
            match crate::views::find_network(
                &reg.tokennetworkaddresses_to_tokennetworks,
                net.address,
            ) {
                Some(_) => {
                    state.identifiers_to_tokennetworkregistries.insert(a, reg);
                    proof {
                        assert(state@.identifiers_to_tokennetworkregistries
                            =~= cs0.identifiers_to_tokennetworkregistries);
                        assert(state@ =~~= spec_handle_network_created(cs0, registry_address,
                            net@));
                    }
                    state
                },
                None => {
                    let token_address = net.token_address;
                    let net_address = net.address;
                    reg.tokennetworkaddresses_to_tokennetworks.push(net);
                    reg.tokenaddresses_to_tokennetworkaddresses.push(
                        (token_address, net_address),
                    );
                    state.identifiers_to_tokennetworkregistries.insert(a, reg);
                    proof {
                        assert(state@ =~~= spec_handle_network_created(cs0, registry_address,
                            net@));
                    }
                    state
                },
            }
        },
    }
}

/// What `ContractReceiveChannelOpened` does: an unseen channel is recorded
/// in its token network together with its partner-index entry; a channel
/// already known by its identifier, or one on an unknown token network,
/// changes nothing.
pub open spec fn spec_handle_channel_opened(cs: ChainStateV, ch: ChannelStateV) -> ChainStateV {
    let cid = ch.canonical_identifier;
    let regs = cs.identifiers_to_tokennetworkregistries;
    match spec_find_registry_of_network(regs, cid.token_network_address) {
        None => cs,
        Some(a) => {
            let reg = regs[a];
            let b = spec_find_network(
                reg.tokennetworkaddresses_to_tokennetworks,
                cid.token_network_address,
            )->Some_0;
            let net = reg.tokennetworkaddresses_to_tokennetworks[b];
            if spec_find_channel(net.channelidentifiers_to_channels, cid.channel_identifier)
                is Some {
                cs
            } else {
                let net2 = TokenNetworkStateV {
                    channelidentifiers_to_channels: net.channelidentifiers_to_channels.push(ch),
                    partneraddresses_to_channelidentifiers:
                        net.partneraddresses_to_channelidentifiers.push(
                        (ch.partner_state.address, cid.channel_identifier),
                    ),
                    ..net
                };
                spec_set_network(cs, a, b, net2)
            }
        },
    }
}

fn handle_channel_opened(state: ChainState, ch: ChannelState) -> (r: ChainState)
    ensures
        r@ == spec_handle_channel_opened(state@, ch@),
{
    let ghost cs0 = state@;
    let cid = ch.canonical_identifier;
    match crate::views::find_network_path(&state, cid.token_network_address) {
        None => state,
        Some((a, b)) => {
            let mut state = state;
            let mut reg = state.identifiers_to_tokennetworkregistries.remove(a);
            let mut net = reg.tokennetworkaddresses_to_tokennetworks.remove(b);
            match crate::views::find_channel(
                &net.channelidentifiers_to_channels,
                cid.channel_identifier,
            ) {
                Some(_) => {
                    reg.tokennetworkaddresses_to_tokennetworks.insert(b, net);
                    state.identifiers_to_tokennetworkregistries.insert(a, reg);
                    proof {
                        assert(state@.identifiers_to_tokennetworkregistries
                            =~~= cs0.identifiers_to_tokennetworkregistries);
                        assert(state@ =~~= spec_handle_channel_opened(cs0, ch@));
                    }
                    state
                },
                None => {
                    let partner = ch.partner_state.address;
                    net.channelidentifiers_to_channels.push(ch);
                    net.partneraddresses_to_channelidentifiers.push(
                        (partner, cid.channel_identifier),
                    );
                    reg.tokennetworkaddresses_to_tokennetworks.insert(b, net);
                    state.identifiers_to_tokennetworkregistries.insert(a, reg);
                    proof {
                        assert(state@.identifiers_to_tokennetworkregistries
                            =~~= spec_handle_channel_opened(
                            cs0,
                            ch@,
                        ).identifiers_to_tokennetworkregistries);
                        assert(state@ =~~= spec_handle_channel_opened(cs0, ch@));
                    }
                    state
                },
            }
        },
    }
}


/// What `ContractReceiveChannelClosed` does at the chain scope; an unknown channel is silently ignored.
pub open spec fn spec_handle_channel_closed(cs: ChainStateV, sc: crate::state_change::ContractReceiveChannelClosed) -> (ChainStateV, Seq<EventV>) {
    match crate::views::spec_get_channel(cs, sc.canonical_identifier) {
        None => (cs, Seq::empty()),
        Some(ch) => {
            let base = cs;
            let h = crate::channel::spec_apply_channel_closed(ch, sc, cs.our_address);
            (spec_update_channel(base, sc.canonical_identifier, h.0), h.1)
        },
    }
}

fn handle_channel_closed(state: ChainState, sc: &crate::state_change::ContractReceiveChannelClosed) -> (r: (ChainState, Vec<Event>))
    ensures
        r.0@ == spec_handle_channel_closed(state@, *sc).0,
        spec_events(r.1@) == spec_handle_channel_closed(state@, *sc).1,
{
    let ghost cs0 = state@;
    match crate::views::find_channel_path(&state, sc.canonical_identifier) {
        None => {
            let mut events: Vec<Event> = Vec::new();
            
            proof {
                assert(spec_events(events@) =~= spec_handle_channel_closed(cs0, *sc).1);
            }
            (state, events)
        },
        Some((a, b, c)) => {
            let mut state = state;
            let our = state.our_address;
            let taken = take_channel(state, a, b, c);
            let state1 = taken.0;
            let ch = taken.1;
            let h = crate::channel::apply_channel_closed(ch, sc, our);
            let state2 = put_channel(state1, a, b, c, h.0);
            let events: Vec<Event> = h.1;
            proof {
                assert(state2@ =~~= spec_handle_channel_closed(cs0, *sc).0);
                assert(spec_events(events@) =~= spec_handle_channel_closed(cs0, *sc).1);
            }
            (state2, events)
        },
    }
}

/// What `ContractReceiveChannelDeposit` does at the chain scope; an unknown channel is silently ignored.
pub open spec fn spec_handle_channel_deposit(cs: ChainStateV, sc: crate::state_change::ContractReceiveChannelDeposit) -> (ChainStateV, Seq<EventV>) {
    match crate::views::spec_get_channel(cs, sc.canonical_identifier) {
        None => (cs, Seq::empty()),
        Some(ch) => {
            let base = cs;
            let h = crate::channel::spec_apply_channel_deposit(ch, sc.deposit_transaction);
            (spec_update_channel(base, sc.canonical_identifier, h), Seq::empty())
        },
    }
}

fn handle_channel_deposit(state: ChainState, sc: &crate::state_change::ContractReceiveChannelDeposit) -> (r: (ChainState, Vec<Event>))
    ensures
        r.0@ == spec_handle_channel_deposit(state@, *sc).0,
        spec_events(r.1@) == spec_handle_channel_deposit(state@, *sc).1,
{
    let ghost cs0 = state@;
    match crate::views::find_channel_path(&state, sc.canonical_identifier) {
        None => {
            let mut events: Vec<Event> = Vec::new();
            
            proof {
                assert(spec_events(events@) =~= spec_handle_channel_deposit(cs0, *sc).1);
            }
            (state, events)
        },
        Some((a, b, c)) => {
            let mut state = state;
            let taken = take_channel(state, a, b, c);
            let state1 = taken.0;
            let ch = taken.1;
            let ch2 = crate::channel::apply_channel_deposit(ch, &sc.deposit_transaction);
            let state2 = put_channel(state1, a, b, c, ch2);
            let events: Vec<Event> = Vec::new();
            proof {
                assert(state2@ =~~= spec_handle_channel_deposit(cs0, *sc).0);
                assert(spec_events(events@) =~= spec_handle_channel_deposit(cs0, *sc).1);
            }
            (state2, events)
        },
    }
}

/// What `ContractReceiveChannelWithdraw` does at the chain scope; an unknown channel is silently ignored.
pub open spec fn spec_handle_channel_withdraw(cs: ChainStateV, sc: crate::state_change::ContractReceiveChannelWithdraw) -> (ChainStateV, Seq<EventV>) {
    match crate::views::spec_get_channel(cs, sc.canonical_identifier) {
        None => (cs, Seq::empty()),
        Some(ch) => {
            let base = cs;
            let h = crate::channel::spec_apply_channel_withdraw(ch, sc.participant, sc.total_withdraw);
            (spec_update_channel(base, sc.canonical_identifier, h), Seq::empty())
        },
    }
}

fn handle_channel_withdraw(state: ChainState, sc: &crate::state_change::ContractReceiveChannelWithdraw) -> (r: (ChainState, Vec<Event>))
    ensures
        r.0@ == spec_handle_channel_withdraw(state@, *sc).0,
        spec_events(r.1@) == spec_handle_channel_withdraw(state@, *sc).1,
{
    let ghost cs0 = state@;
    match crate::views::find_channel_path(&state, sc.canonical_identifier) {
        None => {
            let mut events: Vec<Event> = Vec::new();
            
            proof {
                assert(spec_events(events@) =~= spec_handle_channel_withdraw(cs0, *sc).1);
            }
            (state, events)
        },
        Some((a, b, c)) => {
            let mut state = state;
            let taken = take_channel(state, a, b, c);
            let state1 = taken.0;
            let ch = taken.1;
            let ch2 = crate::channel::apply_channel_withdraw(ch, sc.participant, sc.total_withdraw);
            let state2 = put_channel(state1, a, b, c, ch2);
            let events: Vec<Event> = Vec::new();
            proof {
                assert(state2@ =~~= spec_handle_channel_withdraw(cs0, *sc).0);
                assert(spec_events(events@) =~= spec_handle_channel_withdraw(cs0, *sc).1);
            }
            (state2, events)
        },
    }
}

/// What `ContractReceiveUpdateTransfer` does at the chain scope; an unknown channel is silently ignored.
pub open spec fn spec_handle_update_transfer(cs: ChainStateV, sc: crate::state_change::ContractReceiveUpdateTransfer) -> (ChainStateV, Seq<EventV>) {
    match crate::views::spec_get_channel(cs, sc.canonical_identifier) {
        None => (cs, Seq::empty()),
        Some(ch) => {
            let base = cs;
            let h = crate::channel::spec_apply_update_transfer(ch, sc);
            (spec_update_channel(base, sc.canonical_identifier, h), Seq::empty())
        },
    }
}

fn handle_update_transfer(state: ChainState, sc: &crate::state_change::ContractReceiveUpdateTransfer) -> (r: (ChainState, Vec<Event>))
    ensures
        r.0@ == spec_handle_update_transfer(state@, *sc).0,
        spec_events(r.1@) == spec_handle_update_transfer(state@, *sc).1,
{
    let ghost cs0 = state@;
    match crate::views::find_channel_path(&state, sc.canonical_identifier) {
        None => {
            let mut events: Vec<Event> = Vec::new();
            
            proof {
                assert(spec_events(events@) =~= spec_handle_update_transfer(cs0, *sc).1);
            }
            (state, events)
        },
        Some((a, b, c)) => {
            let mut state = state;
            let taken = take_channel(state, a, b, c);
            let state1 = taken.0;
            let ch = taken.1;
            let ch2 = crate::channel::apply_update_transfer(ch, sc);
            let state2 = put_channel(state1, a, b, c, ch2);
            let events: Vec<Event> = Vec::new();
            proof {
                assert(state2@ =~~= spec_handle_update_transfer(cs0, *sc).0);
                assert(spec_events(events@) =~= spec_handle_update_transfer(cs0, *sc).1);
            }
            (state2, events)
        },
    }
}

/// What `ActionChannelSetRevealTimeout` does at the chain scope; an unknown channel draws an error event.
pub open spec fn spec_handle_set_reveal_timeout(cs: ChainStateV, sc: crate::state_change::ActionChannelSetRevealTimeout) -> (ChainStateV, Seq<EventV>) {
    match crate::views::spec_get_channel(cs, sc.canonical_identifier) {
        None => (cs, seq![
            EventV::ErrorInvalidActionSetRevealTimeout(
                crate::event::ErrorInvalidActionSetRevealTimeout {
                    reveal_timeout: sc.reveal_timeout,
                    reason: crate::event::ErrorReason::ChannelNotFound,
                },
            ),
        ]),
        Some(ch) => {
            let base = cs;
            let h = crate::channel::spec_set_reveal_timeout(ch, sc.reveal_timeout);
            (spec_update_channel(base, sc.canonical_identifier, h.0), h.1)
        },
    }
}

fn handle_set_reveal_timeout(state: ChainState, sc: &crate::state_change::ActionChannelSetRevealTimeout) -> (r: (ChainState, Vec<Event>))
    ensures
        r.0@ == spec_handle_set_reveal_timeout(state@, *sc).0,
        spec_events(r.1@) == spec_handle_set_reveal_timeout(state@, *sc).1,
{
    let ghost cs0 = state@;
    match crate::views::find_channel_path(&state, sc.canonical_identifier) {
        None => {
            let mut events: Vec<Event> = Vec::new();
            events.push(
                Event::ErrorInvalidActionSetRevealTimeout(
                    crate::event::ErrorInvalidActionSetRevealTimeout {
                        reveal_timeout: sc.reveal_timeout,
                        reason: crate::event::ErrorReason::ChannelNotFound,
                    },
                ),
            );
            proof {
                assert(spec_events(events@) =~= spec_handle_set_reveal_timeout(cs0, *sc).1);
            }
            (state, events)
        },
        Some((a, b, c)) => {
            let mut state = state;
            let taken = take_channel(state, a, b, c);
            let state1 = taken.0;
            let ch = taken.1;
            let h = crate::channel::set_reveal_timeout(ch, sc.reveal_timeout);
            let state2 = put_channel(state1, a, b, c, h.0);
            let events: Vec<Event> = h.1;
            proof {
                assert(state2@ =~~= spec_handle_set_reveal_timeout(cs0, *sc).0);
                assert(spec_events(events@) =~= spec_handle_set_reveal_timeout(cs0, *sc).1);
            }
            (state2, events)
        },
    }
}

/// What `ReceiveWithdrawConfirmation` does at the chain scope; an unknown channel draws an error event.
pub open spec fn spec_handle_receive_withdraw_confirmation(cs: ChainStateV, sc: crate::state_change::ReceiveWithdrawConfirmation) -> (ChainStateV, Seq<EventV>) {
    match crate::views::spec_get_channel(cs, sc.canonical_identifier) {
        None => (cs, seq![
            crate::channel::spec_withdraw_confirmation_error(
                sc.total_withdraw,
                crate::event::ErrorReason::ChannelNotFound,
            ),
        ]),
        Some(ch) => {
            let base = cs;
            let h = crate::channel::spec_receive_withdraw_confirmation(ch, sc, cs.block_hash);
            (spec_update_channel(base, sc.canonical_identifier, h.0), h.1)
        },
    }
}

fn handle_receive_withdraw_confirmation(state: ChainState, sc: &crate::state_change::ReceiveWithdrawConfirmation) -> (r: (ChainState, Vec<Event>))
    ensures
        r.0@ == spec_handle_receive_withdraw_confirmation(state@, *sc).0,
        spec_events(r.1@) == spec_handle_receive_withdraw_confirmation(state@, *sc).1,
{
    let ghost cs0 = state@;
    match crate::views::find_channel_path(&state, sc.canonical_identifier) {
        None => {
            let mut events: Vec<Event> = Vec::new();
            events.push(
                Event::ErrorInvalidReceivedWithdrawConfirmation(
                    crate::event::ErrorInvalidReceivedWithdrawConfirmation {
                        attemped_withdraw: sc.total_withdraw,
                        reason: crate::event::ErrorReason::ChannelNotFound,
                    },
                ),
            );
            proof {
                assert(spec_events(events@) =~= spec_handle_receive_withdraw_confirmation(cs0, *sc).1);
            }
            (state, events)
        },
        Some((a, b, c)) => {
            let mut state = state;
            let bh = state.block_hash;
            let taken = take_channel(state, a, b, c);
            let state1 = taken.0;
            let ch = taken.1;
            let h = crate::channel::receive_withdraw_confirmation(ch, sc, bh);
            let state2 = put_channel(state1, a, b, c, h.0);
            let events: Vec<Event> = h.1;
            proof {
                assert(state2@ =~~= spec_handle_receive_withdraw_confirmation(cs0, *sc).0);
                assert(spec_events(events@) =~= spec_handle_receive_withdraw_confirmation(cs0, *sc).1);
            }
            (state2, events)
        },
    }
}

/// What `ReceiveWithdrawRequest` does at the chain scope; an unknown channel draws an error event.
pub open spec fn spec_handle_receive_withdraw_request(cs: ChainStateV, sc: crate::state_change::ReceiveWithdrawRequest) -> (ChainStateV, Seq<EventV>) {
    match crate::views::spec_get_channel(cs, sc.canonical_identifier) {
        None => (cs, seq![
            crate::channel::spec_withdraw_request_error(
                sc.total_withdraw,
                crate::event::ErrorReason::ChannelNotFound,
            ),
        ]),
        Some(ch) => {
            let mid1 = crate::state::spec_rng_next(cs.pseudo_random_number_generator.seed);
            let base = ChainStateV { pseudo_random_number_generator: Random { seed: mid1 }, ..cs };
            let h = crate::channel::spec_receive_withdraw_request(ch, sc, mid1);
            (spec_update_channel(base, sc.canonical_identifier, h.0), h.1)
        },
    }
}

fn handle_receive_withdraw_request(state: ChainState, sc: &crate::state_change::ReceiveWithdrawRequest) -> (r: (ChainState, Vec<Event>))
    ensures
        r.0@ == spec_handle_receive_withdraw_request(state@, *sc).0,
        spec_events(r.1@) == spec_handle_receive_withdraw_request(state@, *sc).1,
{
    let ghost cs0 = state@;
    match crate::views::find_channel_path(&state, sc.canonical_identifier) {
        None => {
            let mut events: Vec<Event> = Vec::new();
            events.push(
                Event::ErrorInvalidReceivedWithdrawRequest(
                    crate::event::ErrorInvalidReceivedWithdrawRequest {
                        attemped_withdraw: sc.total_withdraw,
                        reason: crate::event::ErrorReason::ChannelNotFound,
                    },
                ),
            );
            proof {
                assert(spec_events(events@) =~= spec_handle_receive_withdraw_request(cs0, *sc).1);
            }
            (state, events)
        },
        Some((a, b, c)) => {
            let mut state = state;
            let mut rng = state.pseudo_random_number_generator;
            let mid1 = rng.next();
            state.pseudo_random_number_generator = rng;
            let taken = take_channel(state, a, b, c);
            let state1 = taken.0;
            let ch = taken.1;
            let h = crate::channel::receive_withdraw_request(ch, sc, mid1);
            let state2 = put_channel(state1, a, b, c, h.0);
            let events: Vec<Event> = h.1;
            proof {
                assert(state2@ =~~= spec_handle_receive_withdraw_request(cs0, *sc).0);
                assert(spec_events(events@) =~= spec_handle_receive_withdraw_request(cs0, *sc).1);
            }
            (state2, events)
        },
    }
}

/// What `ReceiveWithdrawExpired` does at the chain scope; an unknown channel draws an error event.
pub open spec fn spec_handle_receive_withdraw_expired(cs: ChainStateV, sc: crate::state_change::ReceiveWithdrawExpired) -> (ChainStateV, Seq<EventV>) {
    match crate::views::spec_get_channel(cs, sc.canonical_identifier) {
        None => (cs, seq![
            crate::channel::spec_withdraw_expired_error(
                sc.total_withdraw,
                crate::event::ErrorReason::ChannelNotFound,
            ),
        ]),
        Some(ch) => {
            let mid1 = crate::state::spec_rng_next(cs.pseudo_random_number_generator.seed);
            let base = ChainStateV { pseudo_random_number_generator: Random { seed: mid1 }, ..cs };
            let h = crate::channel::spec_receive_withdraw_expired(ch, sc, cs.block_number, mid1);
            (spec_update_channel(base, sc.canonical_identifier, h.0), h.1)
        },
    }
}

fn handle_receive_withdraw_expired(state: ChainState, sc: &crate::state_change::ReceiveWithdrawExpired) -> (r: (ChainState, Vec<Event>))
    ensures
        r.0@ == spec_handle_receive_withdraw_expired(state@, *sc).0,
        spec_events(r.1@) == spec_handle_receive_withdraw_expired(state@, *sc).1,
{
    let ghost cs0 = state@;
    match crate::views::find_channel_path(&state, sc.canonical_identifier) {
        None => {
            let mut events: Vec<Event> = Vec::new();
            events.push(
                Event::ErrorInvalidReceivedWithdrawExpired(
                    crate::event::ErrorInvalidReceivedWithdrawExpired {
                        attemped_withdraw: sc.total_withdraw,
                        reason: crate::event::ErrorReason::ChannelNotFound,
                    },
                ),
            );
            proof {
                assert(spec_events(events@) =~= spec_handle_receive_withdraw_expired(cs0, *sc).1);
            }
            (state, events)
        },
        Some((a, b, c)) => {
            let mut state = state;
            let mut rng = state.pseudo_random_number_generator;
            let mid1 = rng.next();
            state.pseudo_random_number_generator = rng;
            let bn = state.block_number;
            let taken = take_channel(state, a, b, c);
            let state1 = taken.0;
            let ch = taken.1;
            let h = crate::channel::receive_withdraw_expired(ch, sc, bn, mid1);
            let state2 = put_channel(state1, a, b, c, h.0);
            let events: Vec<Event> = h.1;
            proof {
                assert(state2@ =~~= spec_handle_receive_withdraw_expired(cs0, *sc).0);
                assert(spec_events(events@) =~= spec_handle_receive_withdraw_expired(cs0, *sc).1);
            }
            (state2, events)
        },
    }
}

/// What `ReceiveLockExpired` does at the chain scope; an unknown channel draws an error event.
pub open spec fn spec_handle_receive_lock_expired(cs: ChainStateV, sc: crate::state_change::ReceiveLockExpired) -> (ChainStateV, Seq<EventV>) {
    match crate::views::spec_get_channel(cs, sc.balance_proof.canonical_identifier) {
        None => (cs, seq![
            crate::channel::spec_lock_expired_error(
                sc.secrethash,
                crate::event::ErrorReason::ChannelNotFound,
            ),
        ]),
        Some(ch) => {
            let mid1 = crate::state::spec_rng_next(cs.pseudo_random_number_generator.seed);
            let base = ChainStateV { pseudo_random_number_generator: Random { seed: mid1 }, ..cs };
            let h = crate::channel::spec_receive_lock_expired(ch, sc, cs.block_number, mid1);
            (spec_update_channel(base, sc.balance_proof.canonical_identifier, h.0), h.1)
        },
    }
}

fn handle_receive_lock_expired(state: ChainState, sc: &crate::state_change::ReceiveLockExpired) -> (r: (ChainState, Vec<Event>))
    ensures
        r.0@ == spec_handle_receive_lock_expired(state@, *sc).0,
        spec_events(r.1@) == spec_handle_receive_lock_expired(state@, *sc).1,
{
    let ghost cs0 = state@;
    match crate::views::find_channel_path(&state, sc.balance_proof.canonical_identifier) {
        None => {
            let mut events: Vec<Event> = Vec::new();
            events.push(
                Event::ErrorInvalidReceivedLockExpired(
                    crate::event::ErrorInvalidReceivedLockExpired {
                        secrethash: sc.secrethash,
                        reason: crate::event::ErrorReason::ChannelNotFound,
                    },
                ),
            );
            proof {
                assert(spec_events(events@) =~= spec_handle_receive_lock_expired(cs0, *sc).1);
            }
            (state, events)
        },
        Some((a, b, c)) => {
            let mut state = state;
            let mut rng = state.pseudo_random_number_generator;
            let mid1 = rng.next();
            state.pseudo_random_number_generator = rng;
            let bn = state.block_number;
            let taken = take_channel(state, a, b, c);
            let state1 = taken.0;
            let ch = taken.1;
            let h = crate::channel::receive_lock_expired(ch, sc, bn, mid1);
            let state2 = put_channel(state1, a, b, c, h.0);
            let events: Vec<Event> = h.1;
            proof {
                assert(state2@ =~~= spec_handle_receive_lock_expired(cs0, *sc).0);
                assert(spec_events(events@) =~= spec_handle_receive_lock_expired(cs0, *sc).1);
            }
            (state2, events)
        },
    }
}

/// The state tree with the channel at `(a, b, c)` deleted: the channel, its
/// partner-index entry, and its outbound queues all leave.
pub open spec fn spec_delete_channel(cs: ChainStateV, a: int, b: int, c: int) -> ChainStateV {
    let reg = cs.identifiers_to_tokennetworkregistries[a];
    let net = reg.tokennetworkaddresses_to_tokennetworks[b];
    let ch = net.channelidentifiers_to_channels[c];
    let cid = ch.canonical_identifier;
    let idx = match crate::views::spec_find_partner_entry(
        net.partneraddresses_to_channelidentifiers,
        ch.partner_state.address,
        cid.channel_identifier,
    ) {
        Some(i) => net.partneraddresses_to_channelidentifiers.remove(i),
        None => net.partneraddresses_to_channelidentifiers,
    };
    let net2 = TokenNetworkStateV {
        channelidentifiers_to_channels: net.channelidentifiers_to_channels.remove(c),
        partneraddresses_to_channelidentifiers: idx,
        ..net
    };
    let cs2 = spec_set_network(cs, a, b, net2);
    ChainStateV { queueids_to_queues: spec_drop_queues(cs2.queueids_to_queues, cid), ..cs2 }
}

/// Deletes the channel at `(a, b, c)` together with its partner-index entry
/// and its queues.
fn delete_channel(state: ChainState, a: usize, b: usize, c: usize) -> (r: ChainState)
    requires
        a < state@.identifiers_to_tokennetworkregistries.len(),
        b
            < state@.identifiers_to_tokennetworkregistries[a as int].tokennetworkaddresses_to_tokennetworks.len(),
        c
            < state@.identifiers_to_tokennetworkregistries[a as int].tokennetworkaddresses_to_tokennetworks[b as int].channelidentifiers_to_channels.len(),
    ensures
        r@ == spec_delete_channel(state@, a as int, b as int, c as int),
{
    let ghost cs0 = state@;
    let mut state = state;
    let mut reg = state.identifiers_to_tokennetworkregistries.remove(a);
    let mut net = reg.tokennetworkaddresses_to_tokennetworks.remove(b);
    let ch = net.channelidentifiers_to_channels.remove(c);
    let cid = ch.canonical_identifier;
    match crate::views::find_partner_entry(
        &net.partneraddresses_to_channelidentifiers,
        ch.partner_state.address,
        cid.channel_identifier,
    ) {
        Some(i) => {
            net.partneraddresses_to_channelidentifiers.remove(i);
        },
        None => {},
    }
    reg.tokennetworkaddresses_to_tokennetworks.insert(b, net);
    state.identifiers_to_tokennetworkregistries.insert(a, reg);
    let queues = state.queueids_to_queues;
    state.queueids_to_queues = drop_queues(queues, cid);
    proof {
        assert(state@.identifiers_to_tokennetworkregistries =~~= spec_delete_channel(
            cs0,
            a as int,
            b as int,
            c as int,
        ).identifiers_to_tokennetworkregistries);
        assert(state@ =~~= spec_delete_channel(cs0, a as int, b as int, c as int));
    }
    state
}

/// What `ContractReceiveChannelSettled` does at the chain scope: the
/// settlement is recorded; a channel whose both on-chain locksroots commit
/// no locks is deleted outright. An unknown channel is silently ignored.
pub open spec fn spec_handle_channel_settled(
    cs: ChainStateV,
    sc: crate::state_change::ContractReceiveChannelSettled,
) -> (ChainStateV, Seq<EventV>) {
    let el = crate::state::spec_locksroot(Seq::empty());
    match crate::views::spec_get_channel(cs, sc.canonical_identifier) {
        None => (cs, Seq::empty()),
        Some(ch) => {
            let h = crate::channel::spec_apply_channel_settled(ch, sc, el);
            if sc.our_onchain_locksroot == el && sc.partner_onchain_locksroot == el {
                let regs = cs.identifiers_to_tokennetworkregistries;
                let a = spec_find_registry_of_network(
                    regs,
                    sc.canonical_identifier.token_network_address,
                )->Some_0;
                let b = spec_find_network(
                    regs[a].tokennetworkaddresses_to_tokennetworks,
                    sc.canonical_identifier.token_network_address,
                )->Some_0;
                let c = spec_find_channel(
                    regs[a].tokennetworkaddresses_to_tokennetworks[b].channelidentifiers_to_channels,
                    sc.canonical_identifier.channel_identifier,
                )->Some_0;
                (spec_delete_channel(cs, a, b, c), h.1)
            } else {
                (spec_update_channel(cs, sc.canonical_identifier, h.0), h.1)
            }
        },
    }
}

fn handle_channel_settled(
    state: ChainState,
    sc: &crate::state_change::ContractReceiveChannelSettled,
) -> (r: (ChainState, Vec<Event>))
    ensures
        r.0@ == spec_handle_channel_settled(state@, *sc).0,
        spec_events(r.1@) == spec_handle_channel_settled(state@, *sc).1,
{
    let ghost cs0 = state@;
    let empty_locks = crate::state::PendingLocksState { locks: Vec::new() };
    let el = crate::state::compute_locksroot(&empty_locks);
    proof {
        assert(empty_locks@ =~= Seq::<crate::state::HashTimeLockState>::empty());
    }
    match crate::views::find_channel_path(&state, sc.canonical_identifier) {
        None => {
            let events: Vec<Event> = Vec::new();
            proof {
                assert(spec_events(events@) =~= spec_handle_channel_settled(cs0, *sc).1);
            }
            (state, events)
        },
        Some((a, b, c)) => {
            if sc.our_onchain_locksroot == el && sc.partner_onchain_locksroot == el {
                let ghost ch = crate::views::spec_get_channel(cs0, sc.canonical_identifier)->Some_0;
                let state2 = delete_channel(state, a, b, c);
                let events: Vec<Event> = Vec::new();
                proof {
                    let h = crate::channel::spec_apply_channel_settled(ch, *sc,
                        crate::state::spec_locksroot(Seq::empty()));
                    assert(spec_events(events@) =~= h.1);
                }
                (state2, events)
            } else {
                let taken = take_channel(state, a, b, c);
                let h = crate::channel::apply_channel_settled(taken.1, sc, el);
                let state2 = put_channel(taken.0, a, b, c, h.0);
                proof {
                    assert(state2@ =~~= spec_handle_channel_settled(cs0, *sc).0);
                    assert(spec_events(h.1@) =~= spec_handle_channel_settled(cs0, *sc).1);
                }
                (state2, h.1)
            }
        },
    }
}

/// What `ContractReceiveChannelBatchUnlock` does at the chain scope: a
/// settled channel is deleted once its locks have been unlocked on-chain.
pub open spec fn spec_handle_batch_unlock(
    cs: ChainStateV,
    sc: crate::state_change::ContractReceiveChannelBatchUnlock,
) -> (ChainStateV, Seq<EventV>) {
    match crate::views::spec_get_channel(cs, sc.canonical_identifier) {
        None => (cs, Seq::empty()),
        Some(ch) => {
            if ch.spec_status() == crate::state::ChannelStatus::Settled {
                let regs = cs.identifiers_to_tokennetworkregistries;
                let a = spec_find_registry_of_network(
                    regs,
                    sc.canonical_identifier.token_network_address,
                )->Some_0;
                let b = spec_find_network(
                    regs[a].tokennetworkaddresses_to_tokennetworks,
                    sc.canonical_identifier.token_network_address,
                )->Some_0;
                let c = spec_find_channel(
                    regs[a].tokennetworkaddresses_to_tokennetworks[b].channelidentifiers_to_channels,
                    sc.canonical_identifier.channel_identifier,
                )->Some_0;
                (spec_delete_channel(cs, a, b, c), Seq::empty())
            } else {
                (cs, Seq::empty())
            }
        },
    }
}

fn handle_batch_unlock(
    state: ChainState,
    sc: &crate::state_change::ContractReceiveChannelBatchUnlock,
) -> (r: (ChainState, Vec<Event>))
    ensures
        r.0@ == spec_handle_batch_unlock(state@, *sc).0,
        spec_events(r.1@) == spec_handle_batch_unlock(state@, *sc).1,
{
    let ghost cs0 = state@;
    let events: Vec<Event> = Vec::new();
    proof {
        assert(spec_events(events@) =~= Seq::<EventV>::empty());
    }
    match crate::views::find_channel_path(&state, sc.canonical_identifier) {
        None => (state, events),
        Some((a, b, c)) => {
            let settled = state.identifiers_to_tokennetworkregistries[a]
                .tokennetworkaddresses_to_tokennetworks[b].channelidentifiers_to_channels[c]
                .status() == crate::state::ChannelStatus::Settled;
            if settled {
                let state2 = delete_channel(state, a, b, c);
                (state2, events)
            } else {
                (state, events)
            }
        },
    }
}

/// What `ContractReceiveSecretReveal` does: when the secret hash names a
/// tracked transfer, the secret is recorded on the task and the transfer's
/// channel moves the matching live lock to the on-chain unlocked set; an
/// unknown secret hash changes nothing.
pub open spec fn spec_handle_contract_secret_reveal(
    cs: ChainStateV,
    sc: crate::state_change::ContractReceiveSecretReveal,
) -> (ChainStateV, Seq<EventV>) {
    match spec_find_task(cs.payment_mapping, sc.secrethash) {
        None => (cs, Seq::empty()),
        Some(t) => {
            let task = cs.payment_mapping[t].1;
            let cs1 = ChainStateV {
                payment_mapping: cs.payment_mapping.update(
                    t,
                    (sc.secrethash, TransferTask { secret: Some(sc.secret), ..task }),
                ),
                ..cs
            };
            match crate::views::spec_get_channel(cs1, task.canonical_identifier) {
                None => (cs1, Seq::empty()),
                Some(ch) => {
                    let ch2 = crate::channel::spec_register_secret(
                        ch,
                        sc.secrethash,
                        sc.secret,
                        sc.block_number,
                    );
                    (spec_update_channel(cs1, task.canonical_identifier, ch2), Seq::empty())
                },
            }
        },
    }
}

fn handle_contract_secret_reveal(
    state: ChainState,
    sc: &crate::state_change::ContractReceiveSecretReveal,
) -> (r: (ChainState, Vec<Event>))
    ensures
        r.0@ == spec_handle_contract_secret_reveal(state@, *sc).0,
        spec_events(r.1@) == spec_handle_contract_secret_reveal(state@, *sc).1,
{
    let ghost cs0 = state@;
    let events: Vec<Event> = Vec::new();
    proof {
        assert(spec_events(events@) =~= Seq::<EventV>::empty());
    }
    match crate::views::find_task(&state.payment_mapping.secrethashes_to_task, sc.secrethash) {
        None => (state, events),
        Some(t) => {
            let mut state = state;
            let task = state.payment_mapping.secrethashes_to_task[t].1;
            let mut tasks = state.payment_mapping.secrethashes_to_task;
            let _old = tasks.remove(t);
            tasks.insert(
                t,
                (sc.secrethash, TransferTask { secret: Some(sc.secret), ..task }),
            );
            state.payment_mapping.secrethashes_to_task = tasks;
            proof {
                assert(state@ =~~= (ChainStateV {
                    payment_mapping: cs0.payment_mapping.update(
                        t as int,
                        (sc.secrethash, TransferTask { secret: Some(sc.secret), ..task }),
                    ),
                    ..cs0
                }));
            }
            let ghost cs1 = state@;
            match crate::views::find_channel_path(&state, task.canonical_identifier) {
                None => (state, events),
                Some((a, b, c)) => {
                    let taken = take_channel(state, a, b, c);
                    let ch2 = crate::channel::register_secret(
                        taken.1,
                        sc.secrethash,
                        sc.secret,
                        sc.block_number,
                    );
                    let state2 = put_channel(taken.0, a, b, c, ch2);
                    proof {
                        assert(state2@ =~~= spec_handle_contract_secret_reveal(cs0, *sc).0);
                    }
                    (state2, events)
                },
            }
        },
    }
}

/// What `ReceiveLockedTransfer` does at the chain scope: the channel takes
/// the transfer over, and when this node is the target a transfer task is
/// registered under the lock's secret hash.
pub open spec fn spec_handle_receive_locked_transfer(
    cs: ChainStateV,
    sender: Address,
    transfer: crate::state::LockedTransferStateV,
) -> (ChainStateV, Seq<EventV>) {
    let cid = transfer.balance_proof.canonical_identifier;
    match crate::views::spec_get_channel(cs, cid) {
        None => (
            cs,
            seq![
                crate::channel::spec_locked_transfer_error(
                    transfer.payment_identifier,
                    crate::event::ErrorReason::ChannelNotFound,
                ),
            ],
        ),
        Some(ch) => {
            let mid1 = crate::state::spec_rng_next(cs.pseudo_random_number_generator.seed);
            let mid2 = crate::state::spec_rng_next(mid1);
            let base = ChainStateV {
                pseudo_random_number_generator: Random { seed: mid2 },
                ..cs
            };
            let h = crate::channel::spec_receive_locked_transfer(
                ch,
                sender,
                cs.our_address,
                transfer,
                mid1,
                mid2,
            );
            let cs2 = spec_update_channel(base, cid, h.0);
            if h.2 && transfer.target == cs.our_address && spec_find_task(
                cs.payment_mapping,
                transfer.lock.secrethash,
            ) is None {
                let regs = cs.identifiers_to_tokennetworkregistries;
                let a = spec_find_registry_of_network(regs, cid.token_network_address)->Some_0;
                let task = TransferTask {
                    role: crate::state::TransferRole::Target,
                    token_network_registry_address: regs[a].address,
                    token_network_address: cid.token_network_address,
                    canonical_identifier: cid,
                    payment_identifier: transfer.payment_identifier,
                    target: transfer.target,
                    initiator: transfer.initiator,
                    amount: transfer.lock.amount,
                    secret: None,
                };
                (
                    ChainStateV {
                        payment_mapping: cs2.payment_mapping.push(
                            (transfer.lock.secrethash, task),
                        ),
                        ..cs2
                    },
                    h.1,
                )
            } else {
                (cs2, h.1)
            }
        },
    }
}

fn handle_receive_locked_transfer(
    state: ChainState,
    sc: &crate::state_change::ReceiveLockedTransfer,
) -> (r: (ChainState, Vec<Event>))
    ensures
        r.0@ == spec_handle_receive_locked_transfer(state@, sc.sender, sc.transfer@).0,
        spec_events(r.1@) == spec_handle_receive_locked_transfer(state@, sc.sender, sc.transfer@).1,
{
    let ghost cs0 = state@;
    let cid = sc.transfer.balance_proof.canonical_identifier;
    match crate::views::find_channel_path(&state, cid) {
        None => {
            let mut events: Vec<Event> = Vec::new();
            events.push(
                Event::ErrorInvalidReceivedLockedTransfer(
                    crate::event::ErrorInvalidReceivedLockedTransfer {
                        payment_identifier: sc.transfer.payment_identifier,
                        reason: crate::event::ErrorReason::ChannelNotFound,
                    },
                ),
            );
            proof {
                assert(spec_events(events@) =~= spec_handle_receive_locked_transfer(cs0,
                    sc.sender, sc.transfer@).1);
            }
            (state, events)
        },
        Some((a, b, c)) => {
            let mut state = state;
            let our = state.our_address;
            let mut rng = state.pseudo_random_number_generator;
            let mid1 = rng.next();
            let mid2 = rng.next();
            state.pseudo_random_number_generator = rng;
            let reg_address = state.identifiers_to_tokennetworkregistries[a].address;
            let taken = take_channel(state, a, b, c);
            let h = crate::channel::receive_locked_transfer(
                taken.1,
                sc.sender,
                our,
                &sc.transfer,
                mid1,
                mid2,
            );
            let mut state2 = put_channel(taken.0, a, b, c, h.0);
            if h.2 && sc.transfer.target == our && crate::views::find_task(
                &state2.payment_mapping.secrethashes_to_task,
                sc.transfer.lock.secrethash,
            ).is_none() {
                let task = TransferTask {
                    role: crate::state::TransferRole::Target,
                    token_network_registry_address: reg_address,
                    token_network_address: cid.token_network_address,
                    canonical_identifier: cid,
                    payment_identifier: sc.transfer.payment_identifier,
                    target: sc.transfer.target,
                    initiator: sc.transfer.initiator,
                    amount: sc.transfer.lock.amount,
                    secret: None,
                };
                state2.payment_mapping.secrethashes_to_task.push(
                    (sc.transfer.lock.secrethash, task),
                );
                proof {
                    assert(cs0.payment_mapping == spec_update_channel(
                        ChainStateV {
                            pseudo_random_number_generator: Random { seed: mid2 },
                            ..cs0
                        },
                        cid,
                        h.0@,
                    ).payment_mapping);
                    assert(state2@ =~~= spec_handle_receive_locked_transfer(cs0, sc.sender,
                        sc.transfer@).0);
                }
            } else {
                proof {
                    assert(state2@ =~~= spec_handle_receive_locked_transfer(cs0, sc.sender,
                        sc.transfer@).0);
                }
            }
            proof {
                assert(spec_events(h.1@) =~= spec_handle_receive_locked_transfer(cs0, sc.sender,
                    sc.transfer@).1);
            }
            (state2, h.1)
        },
    }
}

/// What `ReceiveUnlock` does at the chain scope: the channel settles the
/// lock, and when the secret hash names a tracked transfer the payment is
/// reported received and the task retired.
pub open spec fn spec_handle_receive_unlock(
    cs: ChainStateV,
    sc: crate::state_change::ReceiveUnlock,
) -> (ChainStateV, Seq<EventV>) {
    let cid = sc.balance_proof.canonical_identifier;
    match crate::views::spec_get_channel(cs, cid) {
        None => (
            cs,
            seq![
                crate::channel::spec_unlock_error(
                    sc.secrethash,
                    crate::event::ErrorReason::ChannelNotFound,
                ),
            ],
        ),
        Some(ch) => {
            let mid1 = crate::state::spec_rng_next(cs.pseudo_random_number_generator.seed);
            let base = ChainStateV {
                pseudo_random_number_generator: Random { seed: mid1 },
                ..cs
            };
            let h = crate::channel::spec_receive_unlock(ch, sc, mid1);
            let cs2 = spec_update_channel(base, cid, h.0);
            if h.2 {
                let evs2 = h.1.push(
                    EventV::UnlockClaimSuccess(
                        crate::event::UnlockClaimSuccess {
                            identifier: sc.payment_identifier,
                            secrethash: sc.secrethash,
                        },
                    ),
                );
                match spec_find_task(cs.payment_mapping, sc.secrethash) {
                    None => (cs2, evs2),
                    Some(t) => {
                        let task = cs.payment_mapping[t].1;
                        (
                            ChainStateV {
                                payment_mapping: cs2.payment_mapping.remove(t),
                                ..cs2
                            },
                            evs2.push(
                                EventV::PaymentReceivedSuccess(
                                    crate::event::PaymentReceivedSuccess {
                                        token_network_registry_address:
                                            task.token_network_registry_address,
                                        token_network_address: task.token_network_address,
                                        identifier: task.payment_identifier,
                                        amount: task.amount,
                                        initiator: task.initiator,
                                    },
                                ),
                            ),
                        )
                    },
                }
            } else {
                (cs2, h.1)
            }
        },
    }
}

#[verifier::rlimit(80)]
fn handle_receive_unlock(
    state: ChainState,
    sc: &crate::state_change::ReceiveUnlock,
) -> (r: (ChainState, Vec<Event>))
    ensures
        r.0@ == spec_handle_receive_unlock(state@, *sc).0,
        spec_events(r.1@) == spec_handle_receive_unlock(state@, *sc).1,
{
    let ghost cs0 = state@;
    let cid = sc.balance_proof.canonical_identifier;
    match crate::views::find_channel_path(&state, cid) {
        None => {
            let mut events: Vec<Event> = Vec::new();
            events.push(
                Event::ErrorInvalidReceivedUnlock(
                    crate::event::ErrorInvalidReceivedUnlock {
                        secrethash: sc.secrethash,
                        reason: crate::event::ErrorReason::ChannelNotFound,
                    },
                ),
            );
            proof {
                assert(spec_events(events@) =~= spec_handle_receive_unlock(cs0, *sc).1);
            }
            (state, events)
        },
        Some((a, b, c)) => {
            let mut state = state;
            let mut rng = state.pseudo_random_number_generator;
            let mid1 = rng.next();
            state.pseudo_random_number_generator = rng;
            let taken = take_channel(state, a, b, c);
            let h = crate::channel::receive_unlock(taken.1, sc, mid1);
            let mut state2 = put_channel(taken.0, a, b, c, h.0);
            let mut events = h.1;
            if h.2 {
                events.push(
                    Event::UnlockClaimSuccess(
                        crate::event::UnlockClaimSuccess {
                            identifier: sc.payment_identifier,
                            secrethash: sc.secrethash,
                        },
                    ),
                );
                match crate::views::find_task(
                    &state2.payment_mapping.secrethashes_to_task,
                    sc.secrethash,
                ) {
                    None => {
                        proof {
                            assert(state2@ =~~= spec_handle_receive_unlock(cs0, *sc).0);
                            assert(spec_events(events@) =~= spec_handle_receive_unlock(cs0,
                                *sc).1);
                        }
                        (state2, events)
                    },
                    Some(t) => {
                        let task = state2.payment_mapping.secrethashes_to_task[t].1;
                        state2.payment_mapping.secrethashes_to_task.remove(t);
                        events.push(
                            Event::PaymentReceivedSuccess(
                                crate::event::PaymentReceivedSuccess {
                                    token_network_registry_address:
                                        task.token_network_registry_address,
                                    token_network_address: task.token_network_address,
                                    identifier: task.payment_identifier,
                                    amount: task.amount,
                                    initiator: task.initiator,
                                },
                            ),
                        );
                        proof {
                            assert(state2@ =~~= spec_handle_receive_unlock(cs0, *sc).0);
                            assert(spec_events(events@) =~= spec_handle_receive_unlock(cs0,
                                *sc).1);
                        }
                        (state2, events)
                    },
                }
            } else {
                proof {
                    assert(state2@ =~~= spec_handle_receive_unlock(cs0, *sc).0);
                    assert(spec_events(events@) =~= spec_handle_receive_unlock(cs0, *sc).1);
                }
                (state2, events)
            }
        },
    }
}

/// What `ReceiveSecretReveal` does. As the initiator of the tracked
/// transfer, a correct secret from the peer triggers the unlock and reports
/// the payment sent; as target or mediator it records the secret, moves the
/// lock off-chain unlocked, and reveals the secret back. A wrong secret or
/// an unknown secret hash draws an `ErrorUnexpectedReveal`.
pub open spec fn spec_handle_secret_reveal(
    cs: ChainStateV,
    sc: crate::state_change::ReceiveSecretReveal,
) -> (ChainStateV, Seq<EventV>) {
    if crate::hashing::spec_secret_hash(sc.secret) != sc.secrethash {
        (cs, seq![spec_unexpected_reveal(sc.secrethash, crate::event::ErrorReason::SecretMismatch)])
    } else {
        match spec_find_task(cs.payment_mapping, sc.secrethash) {
            None => (
                cs,
                seq![
                    spec_unexpected_reveal(sc.secrethash, crate::event::ErrorReason::UnknownSecret),
                ],
            ),
            Some(t) => {
                let task = cs.payment_mapping[t].1;
                match crate::views::spec_get_channel(cs, task.canonical_identifier) {
                    None => (
                        cs,
                        seq![
                            spec_unexpected_reveal(
                                sc.secrethash,
                                crate::event::ErrorReason::ChannelNotFound,
                            ),
                        ],
                    ),
                    Some(ch) => {
                        let mid1 = crate::state::spec_rng_next(
                            cs.pseudo_random_number_generator.seed,
                        );
                        let base = ChainStateV {
                            pseudo_random_number_generator: Random { seed: mid1 },
                            ..cs
                        };
                        if task.role == crate::state::TransferRole::Initiator {
                            let h = crate::channel::spec_send_unlock(
                                ch,
                                task.payment_identifier,
                                sc.secret,
                                sc.secrethash,
                                mid1,
                            );
                            let cs2 = spec_update_channel(base, task.canonical_identifier, h.0);
                            if h.2 {
                                (
                                    ChainStateV {
                                        payment_mapping: cs2.payment_mapping.remove(t),
                                        ..cs2
                                    },
                                    h.1.push(
                                        EventV::PaymentSentSuccess(
                                            crate::event::PaymentSentSuccessV {
                                                token_network_registry_address:
                                                    task.token_network_registry_address,
                                                token_network_address:
                                                    task.token_network_address,
                                                identifier: task.payment_identifier,
                                                amount: task.amount,
                                                target: task.target,
                                                secret: sc.secret,
                                                route: Seq::empty(),
                                            },
                                        ),
                                    ),
                                )
                            } else {
                                (cs2, h.1)
                            }
                        } else {
                            let ch2 = crate::channel::spec_register_offchain_secret(
                                ch,
                                sc.secret,
                                sc.secrethash,
                            );
                            let cs2 = spec_update_channel(base, task.canonical_identifier, ch2);
                            let cs3 = ChainStateV {
                                payment_mapping: cs2.payment_mapping.update(
                                    t,
                                    (
                                        sc.secrethash,
                                        TransferTask { secret: Some(sc.secret), ..task },
                                    ),
                                ),
                                ..cs2
                            };
                            (
                                cs3,
                                seq![
                                    EventV::SendSecretReveal(
                                        crate::event::SendSecretReveal {
                                            inner: (crate::event::SendMessageEventInner {
                                                recipient: sc.sender,
                                                recipient_metadata: None,
                                                canonical_identifier: task.canonical_identifier,
                                                message_identifier: mid1,
                                            }),
                                            secret: sc.secret,
                                            secrethash: sc.secrethash,
                                        },
                                    ),
                                ],
                            )
                        }
                    },
                }
            },
        }
    }
}

/// An unexpected-reveal error event.
pub open spec fn spec_unexpected_reveal(
    secrethash: SecretHash,
    reason: crate::event::ErrorReason,
) -> EventV {
    EventV::ErrorUnexpectedReveal(
        crate::event::ErrorUnexpectedReveal { secrethash, reason },
    )
}

#[verifier::rlimit(100)]
#[verifier::spinoff_prover]
fn handle_secret_reveal(
    state: ChainState,
    sc: &crate::state_change::ReceiveSecretReveal,
) -> (r: (ChainState, Vec<Event>))
    ensures
        r.0@ == spec_handle_secret_reveal(state@, *sc).0,
        spec_events(r.1@) == spec_handle_secret_reveal(state@, *sc).1,
{
    let ghost cs0 = state@;
    let mut events: Vec<Event> = Vec::new();
    let reason: Option<crate::event::ErrorReason> = if crate::hashing::secret_hash(sc.secret)
        != sc.secrethash {
        Some(crate::event::ErrorReason::SecretMismatch)
    } else {
        match crate::views::find_task(&state.payment_mapping.secrethashes_to_task, sc.secrethash) {
            None => Some(crate::event::ErrorReason::UnknownSecret),
            Some(t) => {
                let task = state.payment_mapping.secrethashes_to_task[t].1;
                match crate::views::find_channel_path(&state, task.canonical_identifier) {
                    None => Some(crate::event::ErrorReason::ChannelNotFound),
                    Some(_) => None,
                }
            },
        }
    };
    match reason {
        Some(reason) => {
            events.push(
                Event::ErrorUnexpectedReveal(
                    crate::event::ErrorUnexpectedReveal { secrethash: sc.secrethash, reason },
                ),
            );
            proof {
                assert(spec_events(events@) =~= spec_handle_secret_reveal(cs0, *sc).1);
            }
            (state, events)
        },
        None => {
            let t = crate::views::find_task(
                &state.payment_mapping.secrethashes_to_task,
                sc.secrethash,
            ).unwrap();
            let task = state.payment_mapping.secrethashes_to_task[t].1;
            let path = crate::views::find_channel_path(&state, task.canonical_identifier).unwrap();
            let (a, b, c) = path;
            let mut state = state;
            let mut rng = state.pseudo_random_number_generator;
            let mid1 = rng.next();
            state.pseudo_random_number_generator = rng;
            if task.role == crate::state::TransferRole::Initiator {
                let taken = take_channel(state, a, b, c);
                let h = crate::channel::send_unlock(
                    taken.1,
                    task.payment_identifier,
                    sc.secret,
                    sc.secrethash,
                    mid1,
                );
                let mut state2 = put_channel(taken.0, a, b, c, h.0);
                let mut events = h.1;
                if h.2 {
                    state2.payment_mapping.secrethashes_to_task.remove(t);
                    let route: Vec<Address> = Vec::new();
                    events.push(
                        Event::PaymentSentSuccess(
                            crate::event::PaymentSentSuccess {
                                token_network_registry_address:
                                    task.token_network_registry_address,
                                token_network_address: task.token_network_address,
                                identifier: task.payment_identifier,
                                amount: task.amount,
                                target: task.target,
                                secret: sc.secret,
                                route,
                            },
                        ),
                    );
                }
                proof {
                    assert(state2@ =~~= spec_handle_secret_reveal(cs0, *sc).0);
                    assert(spec_events(events@) =~= spec_handle_secret_reveal(cs0, *sc).1);
                }
                (state2, events)
            } else {
                let taken = take_channel(state, a, b, c);
                let ch2 = crate::channel::register_offchain_secret(
                    taken.1,
                    sc.secret,
                    sc.secrethash,
                );
                let mut state2 = put_channel(taken.0, a, b, c, ch2);
                let mut tasks = state2.payment_mapping.secrethashes_to_task;
                let _old = tasks.remove(t);
                tasks.insert(
                    t,
                    (sc.secrethash, TransferTask { secret: Some(sc.secret), ..task }),
                );
                state2.payment_mapping.secrethashes_to_task = tasks;
                events.push(
                    Event::SendSecretReveal(
                        crate::event::SendSecretReveal {
                            inner: crate::event::SendMessageEventInner {
                                recipient: sc.sender,
                                recipient_metadata: None,
                                canonical_identifier: task.canonical_identifier,
                                message_identifier: mid1,
                            },
                            secret: sc.secret,
                            secrethash: sc.secrethash,
                        },
                    ),
                );
                proof {
                    assert(state2@.payment_mapping =~= spec_handle_secret_reveal(cs0,
                        *sc).0.payment_mapping);
                    assert(state2@ =~~= spec_handle_secret_reveal(cs0, *sc).0);
                    assert(spec_events(events@) =~= spec_handle_secret_reveal(cs0, *sc).1);
                }
                (state2, events)
            }
        },
    }
}

/// What `ReceiveSecretRequest` does: as the initiator of the tracked
/// transfer, a request from the target for the right amount is answered by
/// revealing the secret; anything else draws an `ErrorInvalidSecretRequest`
/// carrying the intended and the requested amount.
pub open spec fn spec_handle_secret_request(
    cs: ChainStateV,
    sc: crate::state_change::ReceiveSecretRequest,
) -> (ChainStateV, Seq<EventV>) {
    match spec_find_task(cs.payment_mapping, sc.secrethash) {
        None => (
            cs,
            seq![
                EventV::ErrorInvalidSecretRequest(
                    crate::event::ErrorInvalidSecretRequest {
                        payment_identifier: sc.payment_identifier,
                        intended_amount: U256 { n3: 0, n2: 0, n1: 0, n0: 0 },
                        actual_amount: sc.amount,
                    },
                ),
            ],
        ),
        Some(t) => {
            let task = cs.payment_mapping[t].1;
            if task.role == crate::state::TransferRole::Initiator && task.secret is Some
                && task.amount == sc.amount && task.target == sc.sender
                && task.payment_identifier == sc.payment_identifier {
                let mid1 = crate::state::spec_rng_next(cs.pseudo_random_number_generator.seed);
                let base = ChainStateV {
                    pseudo_random_number_generator: Random { seed: mid1 },
                    ..cs
                };
                (
                    base,
                    seq![
                        EventV::SendSecretReveal(
                            crate::event::SendSecretReveal {
                                inner: (crate::event::SendMessageEventInner {
                                    recipient: sc.sender,
                                    recipient_metadata: None,
                                    canonical_identifier: task.canonical_identifier,
                                    message_identifier: mid1,
                                }),
                                secret: task.secret->Some_0,
                                secrethash: sc.secrethash,
                            },
                        ),
                    ],
                )
            } else {
                (
                    cs,
                    seq![
                        EventV::ErrorInvalidSecretRequest(
                            crate::event::ErrorInvalidSecretRequest {
                                payment_identifier: sc.payment_identifier,
                                intended_amount: task.amount,
                                actual_amount: sc.amount,
                            },
                        ),
                    ],
                )
            }
        },
    }
}

fn handle_secret_request(
    state: ChainState,
    sc: &crate::state_change::ReceiveSecretRequest,
) -> (r: (ChainState, Vec<Event>))
    ensures
        r.0@ == spec_handle_secret_request(state@, *sc).0,
        spec_events(r.1@) == spec_handle_secret_request(state@, *sc).1,
{
    let ghost cs0 = state@;
    let mut events: Vec<Event> = Vec::new();
    match crate::views::find_task(&state.payment_mapping.secrethashes_to_task, sc.secrethash) {
        None => {
            events.push(
                Event::ErrorInvalidSecretRequest(
                    crate::event::ErrorInvalidSecretRequest {
                        payment_identifier: sc.payment_identifier,
                        intended_amount: U256::zero(),
                        actual_amount: sc.amount,
                    },
                ),
            );
            proof {
                assert(spec_events(events@) =~= spec_handle_secret_request(cs0, *sc).1);
            }
            (state, events)
        },
        Some(t) => {
            let task = state.payment_mapping.secrethashes_to_task[t].1;
            let ok = task.role == crate::state::TransferRole::Initiator && task.secret.is_some()
                && task.amount == sc.amount && task.target == sc.sender && task.payment_identifier
                == sc.payment_identifier;
            if ok {
                let mut state = state;
                let mut rng = state.pseudo_random_number_generator;
                let mid1 = rng.next();
                state.pseudo_random_number_generator = rng;
                events.push(
                    Event::SendSecretReveal(
                        crate::event::SendSecretReveal {
                            inner: crate::event::SendMessageEventInner {
                                recipient: sc.sender,
                                recipient_metadata: None,
                                canonical_identifier: task.canonical_identifier,
                                message_identifier: mid1,
                            },
                            secret: task.secret.unwrap(),
                            secrethash: sc.secrethash,
                        },
                    ),
                );
                proof {
                    assert(state@ =~~= spec_handle_secret_request(cs0, *sc).0);
                    assert(spec_events(events@) =~= spec_handle_secret_request(cs0, *sc).1);
                }
                (state, events)
            } else {
                events.push(
                    Event::ErrorInvalidSecretRequest(
                        crate::event::ErrorInvalidSecretRequest {
                            payment_identifier: sc.payment_identifier,
                            intended_amount: task.amount,
                            actual_amount: sc.amount,
                        },
                    ),
                );
                proof {
                    assert(spec_events(events@) =~= spec_handle_secret_request(cs0, *sc).1);
                }
                (state, events)
            }
        },
    }
}

/// What `ActionCancelPayment` does: an initiator-role task with this payment
/// identifier is retired and the payment reported failed as cancelled; any
/// other state changes nothing.
pub open spec fn spec_handle_cancel_payment(
    cs: ChainStateV,
    payment_identifier: u64,
) -> (ChainStateV, Seq<EventV>) {
    match crate::views::spec_find_task_by_payment(cs.payment_mapping, payment_identifier) {
        None => (cs, Seq::empty()),
        Some(t) => {
            let task = cs.payment_mapping[t].1;
            if task.role == crate::state::TransferRole::Initiator {
                (
                    ChainStateV { payment_mapping: cs.payment_mapping.remove(t), ..cs },
                    seq![
                        EventV::ErrorPaymentSentFailed(
                            crate::event::ErrorPaymentSentFailed {
                                token_network_registry_address:
                                    task.token_network_registry_address,
                                token_network_address: task.token_network_address,
                                identifier: task.payment_identifier,
                                target: task.target,
                                reason: crate::event::ErrorReason::PaymentCancelled,
                            },
                        ),
                    ],
                )
            } else {
                (cs, Seq::empty())
            }
        },
    }
}

fn handle_cancel_payment(state: ChainState, payment_identifier: u64) -> (r: (
    ChainState,
    Vec<Event>,
))
    ensures
        r.0@ == spec_handle_cancel_payment(state@, payment_identifier).0,
        spec_events(r.1@) == spec_handle_cancel_payment(state@, payment_identifier).1,
{
    let ghost cs0 = state@;
    let mut events: Vec<Event> = Vec::new();
    proof {
        assert(spec_events(events@) =~= Seq::<EventV>::empty());
    }
    match crate::views::find_task_by_payment(
        &state.payment_mapping.secrethashes_to_task,
        payment_identifier,
    ) {
        None => (state, events),
        Some(t) => {
            let task = state.payment_mapping.secrethashes_to_task[t].1;
            if task.role == crate::state::TransferRole::Initiator {
                let mut state = state;
                state.payment_mapping.secrethashes_to_task.remove(t);
                events.push(
                    Event::ErrorPaymentSentFailed(
                        crate::event::ErrorPaymentSentFailed {
                            token_network_registry_address: task.token_network_registry_address,
                            token_network_address: task.token_network_address,
                            identifier: task.payment_identifier,
                            target: task.target,
                            reason: crate::event::ErrorReason::PaymentCancelled,
                        },
                    ),
                );
                proof {
                    assert(state@ =~~= spec_handle_cancel_payment(cs0, payment_identifier).0);
                    assert(spec_events(events@) =~= spec_handle_cancel_payment(cs0,
                        payment_identifier).1);
                }
                (state, events)
            } else {
                (state, events)
            }
        },
    }
}

/// Whether a route can carry the transfer: it has a first hop, the token
/// network knows a channel to that hop, and that channel is open with enough
/// spendable balance on this side.
pub open spec fn spec_route_viable(
    cs: ChainStateV,
    token_network_address: Address,
    route: crate::state::RouteStateV,
    amount: U256,
) -> bool {
    let regs = cs.identifiers_to_tokennetworkregistries;
    route.route.len() > 0 && match spec_find_registry_of_network(regs, token_network_address) {
        None => false,
        Some(a) => {
            let b = spec_find_network(
                regs[a].tokennetworkaddresses_to_tokennetworks,
                token_network_address,
            )->Some_0;
            let chs =
                regs[a].tokennetworkaddresses_to_tokennetworks[b].channelidentifiers_to_channels;
            match crate::views::spec_find_channel_by_partner(chs, route.route[0]) {
                None => false,
                Some(c) => {
                    let ch = chs[c];
                    ch.spec_status() == crate::state::ChannelStatus::Opened && amount.as_nat()
                        <= crate::views::spec_channel_balance(ch.our_state, ch.partner_state)
                },
            }
        },
    }
}

fn route_viable(
    state: &ChainState,
    token_network_address: Address,
    route: &crate::state::RouteState,
    amount: U256,
) -> (r: bool)
    ensures
        r == spec_route_viable(state@, token_network_address, route@, amount),
{
    if route.route.len() == 0 {
        return false;
    }
    match crate::views::find_network_path(state, token_network_address) {
        None => false,
        Some((a, b)) => {
            let net = &state.identifiers_to_tokennetworkregistries[a]
                .tokennetworkaddresses_to_tokennetworks[b];
            match crate::views::find_channel_by_partner(
                &net.channelidentifiers_to_channels,
                route.route[0],
            ) {
                None => false,
                Some(c) => {
                    let ch = &net.channelidentifiers_to_channels[c];
                    ch.status() == crate::state::ChannelStatus::Opened && amount.le(
                        crate::views::channel_balance(&ch.our_state, &ch.partner_state),
                    )
                },
            }
        },
    }
}

/// First index of a viable route, `None` when no route can carry the
/// transfer.
pub open spec fn spec_select_route(
    cs: ChainStateV,
    token_network_address: Address,
    routes: Seq<crate::state::RouteStateV>,
    amount: U256,
) -> Option<int>
    decreases routes.len(),
{
    if routes.len() == 0 {
        None
    } else if spec_route_viable(cs, token_network_address, routes[0], amount) {
        Some(0int)
    } else {
        match spec_select_route(cs, token_network_address, routes.drop_first(), amount) {
            None => None,
            Some(r) => Some(r + 1),
        }
    }
}

fn select_route(
    state: &ChainState,
    token_network_address: Address,
    routes: &Vec<crate::state::RouteState>,
    amount: U256,
) -> (r: Option<usize>)
    ensures
        ({
            let v = routes@.map_values(|x: crate::state::RouteState| x@);
            match r {
                Some(i) => 0 <= i < v.len() && spec_select_route(
                    state@,
                    token_network_address,
                    v,
                    amount,
                ) == Some(i as int),
                None => spec_select_route(state@, token_network_address, v, amount) is None,
            }
        }),
{
    let ghost v = routes@.map_values(|x: crate::state::RouteState| x@);
    proof {
        assert(v.skip(0) =~= v);
    }
    let mut i: usize = 0;
    while i < routes.len()
        invariant
            v == routes@.map_values(|x: crate::state::RouteState| x@),
            0 <= i <= v.len(),
            spec_select_route(state@, token_network_address, v, amount) == match spec_select_route(
                state@,
                token_network_address,
                v.skip(i as int),
                amount,
            ) {
                None => None::<int>,
                Some(r) => Some(i + r),
            },
        decreases v.len() - i,
    {
        proof {
            assert(v.skip(i as int)[0] == v[i as int]);
        }
        if route_viable(state, token_network_address, &routes[i], amount) {
            return Some(i);
        }
        proof {
            assert(v.skip(i as int).drop_first() =~= v.skip(i + 1));
            assert(spec_select_route(state@, token_network_address, v.skip(i as int), amount)
                == match spec_select_route(
                state@,
                token_network_address,
                v.skip(i + 1),
                amount,
            ) {
                None => None::<int>,
                Some(r) => Some(1 + r),
            });
        }
        i = i + 1;
    }
    proof {
        assert(v.skip(i as int).len() == 0);
    }
    None
}

/// A selected route is viable.
pub proof fn lemma_select_route_viable(
    cs: ChainStateV,
    token_network_address: Address,
    routes: Seq<crate::state::RouteStateV>,
    amount: U256,
    i: int,
)
    requires
        spec_select_route(cs, token_network_address, routes, amount) == Some(i),
    ensures
        0 <= i < routes.len(),
        spec_route_viable(cs, token_network_address, routes[i], amount),
    decreases routes.len(),
{
    if routes.len() == 0 {
    } else if spec_route_viable(cs, token_network_address, routes[0], amount) {
    } else {
        lemma_select_route_viable(cs, token_network_address, routes.drop_first(), amount, i - 1);
        assert(routes.drop_first()[i - 1] == routes[i]);
    }
}

/// What `ActionInitInitiator` does: the first viable route's channel sends
/// the locked transfer, and the payment is tracked under its secret hash
/// with the initiator role; with no viable route the payment is reported
/// failed and nothing changes.
pub open spec fn spec_handle_init_initiator(
    cs: ChainStateV,
    transfer: crate::state::TransferDescriptionWithSecretState,
    routes: Seq<crate::state::RouteStateV>,
) -> (ChainStateV, Seq<EventV>) {
    match spec_select_route(cs, transfer.token_network_address, routes, transfer.amount) {
        None => (
            cs,
            seq![
                crate::channel::spec_payment_failed(
                    transfer,
                    crate::event::ErrorReason::NoRouteAvailable,
                ),
            ],
        ),
        Some(ri) => {
            let regs = cs.identifiers_to_tokennetworkregistries;
            let a = spec_find_registry_of_network(regs, transfer.token_network_address)->Some_0;
            let b = spec_find_network(
                regs[a].tokennetworkaddresses_to_tokennetworks,
                transfer.token_network_address,
            )->Some_0;
            let chs =
                regs[a].tokennetworkaddresses_to_tokennetworks[b].channelidentifiers_to_channels;
            let c = crate::views::spec_find_channel_by_partner(chs, routes[ri].route[0])->Some_0;
            let ch = chs[c];
            let mid1 = crate::state::spec_rng_next(cs.pseudo_random_number_generator.seed);
            let base = ChainStateV {
                pseudo_random_number_generator: Random { seed: mid1 },
                ..cs
            };
            let metadata = match crate::views::spec_find_metadata(
                routes[ri].address_to_metadata,
                routes[ri].route[0],
            ) {
                Some(m) => Some(routes[ri].address_to_metadata[m].1),
                None => None,
            };
            let h = crate::channel::spec_send_locked_transfer(
                ch,
                transfer,
                routes,
                metadata,
                cs.block_number,
                mid1,
            );
            let cs2 = spec_set_channel(base, a, b, c, h.0);
            if h.2 && spec_find_task(cs.payment_mapping, transfer.secrethash) is None {
                let task = TransferTask {
                    role: crate::state::TransferRole::Initiator,
                    token_network_registry_address: regs[a].address,
                    token_network_address: transfer.token_network_address,
                    canonical_identifier: ch.canonical_identifier,
                    payment_identifier: transfer.payment_identifier,
                    target: transfer.target,
                    initiator: transfer.initiator,
                    amount: transfer.amount,
                    secret: Some(transfer.secret),
                };
                (
                    ChainStateV {
                        payment_mapping: cs2.payment_mapping.push((transfer.secrethash, task)),
                        ..cs2
                    },
                    h.1,
                )
            } else {
                (cs2, h.1)
            }
        },
    }
}

#[verifier::rlimit(100)]
#[verifier::spinoff_prover]
fn handle_init_initiator(
    state: ChainState,
    sc: crate::state_change::ActionInitInitiator,
) -> (r: (ChainState, Vec<Event>))
    ensures
        ({
            let s = spec_handle_init_initiator(
                state@,
                sc.transfer,
                sc.routes@.map_values(|x: crate::state::RouteState| x@),
            );
            r.0@ == s.0 && spec_events(r.1@) == s.1
        }),
{
    let ghost cs0 = state@;
    let ghost routesv = sc.routes@.map_values(|x: crate::state::RouteState| x@);
    let transfer = sc.transfer;
    match select_route(&state, transfer.token_network_address, &sc.routes, transfer.amount) {
        None => {
            let mut events: Vec<Event> = Vec::new();
            events.push(
                Event::ErrorPaymentSentFailed(
                    crate::event::ErrorPaymentSentFailed {
                        token_network_registry_address: transfer.token_network_registry_address,
                        token_network_address: transfer.token_network_address,
                        identifier: transfer.payment_identifier,
                        target: transfer.target,
                        reason: crate::event::ErrorReason::NoRouteAvailable,
                    },
                ),
            );
            proof {
                assert(spec_events(events@) =~= spec_handle_init_initiator(cs0, transfer,
                    routesv).1);
            }
            (state, events)
        },
        Some(ri) => {
            proof {
                reveal(crate::channel::spec_send_locked_transfer);
                lemma_select_route_viable(cs0, transfer.token_network_address, routesv,
                    transfer.amount, ri as int);
                assert(routesv[ri as int] == sc.routes@[ri as int]@);
            }
            let path = crate::views::find_network_path(&state, transfer.token_network_address)
                .unwrap();
            let (a, b) = path;
            let hop = sc.routes[ri].route[0];
            let c = crate::views::find_channel_by_partner(
                &state.identifiers_to_tokennetworkregistries[a]
                    .tokennetworkaddresses_to_tokennetworks[b].channelidentifiers_to_channels,
                hop,
            ).unwrap();
            let reg_address = state.identifiers_to_tokennetworkregistries[a].address;
            let metadata = match crate::views::find_metadata(
                &sc.routes[ri].address_to_metadata,
                hop,
            ) {
                Some(m) => Some(sc.routes[ri].address_to_metadata[m].1.clone()),
                None => None,
            };
            let mut state = state;
            let mut rng = state.pseudo_random_number_generator;
            let mid1 = rng.next();
            state.pseudo_random_number_generator = rng;
            let block_number = state.block_number;
            let taken = take_channel(state, a, b, c);
            let ghost chv = taken.1@;
            let cid = taken.1.canonical_identifier;
            let h = crate::channel::send_locked_transfer(
                taken.1,
                &transfer,
                sc.routes,
                metadata,
                block_number,
                mid1,
            );
            let mut state2 = put_channel(taken.0, a, b, c, h.0);
            if h.2 && crate::views::find_task(
                &state2.payment_mapping.secrethashes_to_task,
                transfer.secrethash,
            ).is_none() {
                let task = TransferTask {
                    role: crate::state::TransferRole::Initiator,
                    token_network_registry_address: reg_address,
                    token_network_address: transfer.token_network_address,
                    canonical_identifier: cid,
                    payment_identifier: transfer.payment_identifier,
                    target: transfer.target,
                    initiator: transfer.initiator,
                    amount: transfer.amount,
                    secret: Some(transfer.secret),
                };
                state2.payment_mapping.secrethashes_to_task.push((transfer.secrethash, task));
                proof {
                    assert(state2@ =~~= spec_handle_init_initiator(cs0, transfer, routesv).0);
                    assert(spec_events(h.1@) =~= spec_handle_init_initiator(cs0, transfer,
                        routesv).1);
                }
                (state2, h.1)
            } else {
                proof {
                    assert(state2@ =~~= spec_handle_init_initiator(cs0, transfer, routesv).0);
                    assert(spec_events(h.1@) =~= spec_handle_init_initiator(cs0, transfer,
                        routesv).1);
                }
                (state2, h.1)
            }
        },
    }
}

/// What `Block` does: a block not older than the current one advances the
/// chain view and sweeps every channel for expired withdraws and locks; an
/// older block changes nothing.
pub open spec fn spec_handle_block(
    cs: ChainStateV,
    sc: crate::state_change::Block,
) -> (ChainStateV, Seq<EventV>) {
    if sc.block_number < cs.block_number {
        (cs, Seq::empty())
    } else {
        let f = spec_block_registries(
            cs.identifiers_to_tokennetworkregistries,
            sc.block_number,
            cs.pseudo_random_number_generator,
        );
        (
            ChainStateV {
                block_number: sc.block_number,
                block_hash: sc.block_hash,
                identifiers_to_tokennetworkregistries: f.0,
                pseudo_random_number_generator: f.1,
                ..cs
            },
            f.2,
        )
    }
}

fn handle_block(state: ChainState, sc: &crate::state_change::Block) -> (r: (
    ChainState,
    Vec<Event>,
))
    ensures
        r.0@ == spec_handle_block(state@, *sc).0,
        spec_events(r.1@) == spec_handle_block(state@, *sc).1,
{
    let ghost cs0 = state@;
    if sc.block_number < state.block_number {
        let events: Vec<Event> = Vec::new();
        proof {
            assert(spec_events(events@) =~= spec_handle_block(cs0, *sc).1);
        }
        (state, events)
    } else {
        let mut state = state;
        let regs = state.identifiers_to_tokennetworkregistries;
        let rng = state.pseudo_random_number_generator;
        let f = block_registries(regs, sc.block_number, rng);
        state.identifiers_to_tokennetworkregistries = f.0;
        state.pseudo_random_number_generator = f.1;
        state.block_number = sc.block_number;
        state.block_hash = sc.block_hash;
        proof {
            assert(state@ =~~= spec_handle_block(cs0, *sc).0);
            assert(spec_events(f.2@) =~= spec_handle_block(cs0, *sc).1);
        }
        (state, f.2)
    }
}

/// What `ActionChannelWithdraw` does at the chain scope; an unknown channel
/// draws an error event.
pub open spec fn spec_handle_action_withdraw(
    cs: ChainStateV,
    canonical_identifier: CanonicalIdentifier,
    total_withdraw: U256,
    recipient_metadata: Option<crate::event::AddressMetadata>,
) -> (ChainStateV, Seq<EventV>) {
    match crate::views::spec_get_channel(cs, canonical_identifier) {
        None => (
            cs,
            seq![
                crate::channel::spec_withdraw_error(
                    total_withdraw,
                    crate::event::ErrorReason::ChannelNotFound,
                ),
            ],
        ),
        Some(ch) => {
            let mid1 = crate::state::spec_rng_next(cs.pseudo_random_number_generator.seed);
            let base = ChainStateV {
                pseudo_random_number_generator: Random { seed: mid1 },
                ..cs
            };
            let h = crate::channel::spec_action_withdraw(
                ch,
                total_withdraw,
                cs.block_number,
                mid1,
                recipient_metadata,
            );
            (spec_update_channel(base, canonical_identifier, h.0), h.1)
        },
    }
}

fn handle_action_withdraw(
    state: ChainState,
    sc: crate::state_change::ActionChannelWithdraw,
) -> (r: (ChainState, Vec<Event>))
    ensures
        r.0@ == spec_handle_action_withdraw(
            state@,
            sc.canonical_identifier,
            sc.total_withdraw,
            sc.recipient_metadata,
        ).0,
        spec_events(r.1@) == spec_handle_action_withdraw(
            state@,
            sc.canonical_identifier,
            sc.total_withdraw,
            sc.recipient_metadata,
        ).1,
{
    let ghost cs0 = state@;
    match crate::views::find_channel_path(&state, sc.canonical_identifier) {
        None => {
            let mut events: Vec<Event> = Vec::new();
            events.push(
                Event::ErrorInvalidActionWithdraw(
                    crate::event::ErrorInvalidActionWithdraw {
                        attemped_withdraw: sc.total_withdraw,
                        reason: crate::event::ErrorReason::ChannelNotFound,
                    },
                ),
            );
            proof {
                assert(spec_events(events@) =~= spec_handle_action_withdraw(cs0,
                    sc.canonical_identifier, sc.total_withdraw, sc.recipient_metadata).1);
            }
            (state, events)
        },
        Some((a, b, c)) => {
            let mut state = state;
            let mut rng = state.pseudo_random_number_generator;
            let mid1 = rng.next();
            state.pseudo_random_number_generator = rng;
            let block_number = state.block_number;
            let taken = take_channel(state, a, b, c);
            let ghost metav = sc.recipient_metadata;
            let h = crate::channel::action_withdraw(
                taken.1,
                sc.total_withdraw,
                block_number,
                mid1,
                sc.recipient_metadata,
            );
            let state2 = put_channel(taken.0, a, b, c, h.0);
            proof {
                assert(state2@ =~~= spec_handle_action_withdraw(cs0, sc.canonical_identifier,
                    sc.total_withdraw, metav).0);
                assert(spec_events(h.1@) =~= spec_handle_action_withdraw(cs0,
                    sc.canonical_identifier, sc.total_withdraw, metav).1);
            }
            (state2, h.1)
        },
    }
}

/// A reducer call's result: the new state and the ordered emitted events.
pub struct TransitionResult {
    pub new_state: ChainState,
    pub events: Vec<Event>,
}

/// What one reducer call does, before the queue pass: dispatch by state
/// change, then to the owning entity.
pub open spec fn spec_dispatch(
    cs: ChainStateV,
    state_change: crate::state_change::StateChange,
) -> (ChainStateV, Seq<EventV>) {
    match state_change {
        crate::state_change::StateChange::Block(sc) => spec_handle_block(cs, sc),
        crate::state_change::StateChange::ActionInitChain(sc) => (
            ChainStateV::spec_new(sc.chain_id, sc.block_number, sc.block_hash, sc.our_address),
            Seq::empty(),
        ),
        crate::state_change::StateChange::ActionInitInitiator(sc) => spec_handle_init_initiator(
            cs,
            sc.transfer,
            sc.routes@.map_values(|x: crate::state::RouteState| x@),
        ),
        crate::state_change::StateChange::ActionChannelSetRevealTimeout(sc) => spec_handle_set_reveal_timeout(
            cs,
            sc,
        ),
        crate::state_change::StateChange::ActionChannelWithdraw(sc) => spec_handle_action_withdraw(
            cs,
            sc.canonical_identifier,
            sc.total_withdraw,
            sc.recipient_metadata,
        ),
        crate::state_change::StateChange::ActionTransferReroute(_) => (cs, Seq::empty()),
        crate::state_change::StateChange::ActionCancelPayment(sc) => spec_handle_cancel_payment(
            cs,
            sc.payment_identifier,
        ),
        crate::state_change::StateChange::ReceiveTransferCancelRoute(_) => (cs, Seq::empty()),
        crate::state_change::StateChange::ReceiveSecretReveal(sc) => spec_handle_secret_reveal(
            cs,
            sc,
        ),
        crate::state_change::StateChange::ReceiveSecretRequest(sc) => spec_handle_secret_request(
            cs,
            sc,
        ),
        crate::state_change::StateChange::ReceiveLockExpired(sc) => spec_handle_receive_lock_expired(
            cs,
            sc,
        ),
        crate::state_change::StateChange::ReceiveLockedTransfer(sc) => spec_handle_receive_locked_transfer(
            cs,
            sc.sender,
            sc.transfer@,
        ),
        crate::state_change::StateChange::ReceiveUnlock(sc) => spec_handle_receive_unlock(cs, sc),
        crate::state_change::StateChange::ReceiveWithdrawRequest(sc) => spec_handle_receive_withdraw_request(
            cs,
            sc,
        ),
        crate::state_change::StateChange::ReceiveWithdrawConfirmation(sc) => spec_handle_receive_withdraw_confirmation(
            cs,
            sc,
        ),
        crate::state_change::StateChange::ReceiveWithdrawExpired(sc) => spec_handle_receive_withdraw_expired(
            cs,
            sc,
        ),
        crate::state_change::StateChange::ReceiveProcessed(sc) => (
            ChainStateV {
                queueids_to_queues: spec_dequeue(
                    cs.queueids_to_queues,
                    sc.sender,
                    sc.message_identifier,
                ),
                ..cs
            },
            Seq::empty(),
        ),
        crate::state_change::StateChange::ReceiveDelivered(sc) => (
            ChainStateV {
                queueids_to_queues: spec_dequeue(
                    cs.queueids_to_queues,
                    sc.sender,
                    sc.delivered_message_identifier,
                ),
                ..cs
            },
            Seq::empty(),
        ),
        crate::state_change::StateChange::ContractReceiveTokenNetworkRegistry(sc) => (
            spec_handle_registry(cs, sc.token_network_registry@),
            Seq::empty(),
        ),
        crate::state_change::StateChange::ContractReceiveTokenNetworkCreated(sc) => (
            spec_handle_network_created(cs, sc.token_network_registry_address, sc.token_network@),
            Seq::empty(),
        ),
        crate::state_change::StateChange::ContractReceiveChannelOpened(sc) => (
            spec_handle_channel_opened(cs, sc.channel_state@),
            Seq::empty(),
        ),
        crate::state_change::StateChange::ContractReceiveChannelClosed(sc) => spec_handle_channel_closed(
            cs,
            sc,
        ),
        crate::state_change::StateChange::ContractReceiveChannelSettled(sc) => spec_handle_channel_settled(
            cs,
            sc,
        ),
        crate::state_change::StateChange::ContractReceiveChannelDeposit(sc) => spec_handle_channel_deposit(
            cs,
            sc,
        ),
        crate::state_change::StateChange::ContractReceiveChannelWithdraw(sc) => spec_handle_channel_withdraw(
            cs,
            sc,
        ),
        crate::state_change::StateChange::ContractReceiveChannelBatchUnlock(sc) => spec_handle_batch_unlock(
            cs,
            sc,
        ),
        crate::state_change::StateChange::ContractReceiveSecretReveal(sc) => spec_handle_contract_secret_reveal(
            cs,
            sc,
        ),
        crate::state_change::StateChange::ContractReceiveRouteNew(_) => (cs, Seq::empty()),
        crate::state_change::StateChange::ContractReceiveUpdateTransfer(sc) => spec_handle_update_transfer(
            cs,
            sc,
        ),
    }
}

/// What one reducer call does: dispatch, then append every emitted message
/// event to its outbound queue.
#[verifier::opaque]
pub open spec fn spec_transition(
    cs: ChainStateV,
    state_change: crate::state_change::StateChange,
) -> (ChainStateV, Seq<EventV>) {
    let d = spec_dispatch(cs, state_change);
    (
        ChainStateV {
            queueids_to_queues: spec_enqueue_events(d.0.queueids_to_queues, d.1),
            ..d.0
        },
        d.1,
    )
}

/// Applies one state change: the single operation that changes the state.
/// Pure, total and deterministic; the result is exactly
/// [`spec_transition`] of the old state and the input.
pub fn transition(state: ChainState, state_change: crate::state_change::StateChange) -> (r:
    TransitionResult)
    ensures
        r.new_state@ == spec_transition(state@, state_change).0,
        spec_events(r.events@) == spec_transition(state@, state_change).1,
{
    let ghost cs0 = state@;
    let ghost scg = state_change;
    let d: (ChainState, Vec<Event>) = match state_change {
        crate::state_change::StateChange::Block(sc) => handle_block(state, &sc),
        crate::state_change::StateChange::ActionInitChain(sc) => {
            let fresh = ChainState::new(sc.chain_id, sc.block_number, sc.block_hash,
                sc.our_address);
            (fresh, Vec::new())
        },
        crate::state_change::StateChange::ActionInitInitiator(sc) => {
            handle_init_initiator(state, sc)
        },
        crate::state_change::StateChange::ActionChannelSetRevealTimeout(sc) => {
            handle_set_reveal_timeout(state, &sc)
        },
        crate::state_change::StateChange::ActionChannelWithdraw(sc) => {
            handle_action_withdraw(state, sc)
        },
        crate::state_change::StateChange::ActionTransferReroute(_) => (state, Vec::new()),
        crate::state_change::StateChange::ActionCancelPayment(sc) => {
            handle_cancel_payment(state, sc.payment_identifier)
        },
        crate::state_change::StateChange::ReceiveTransferCancelRoute(_) => (state, Vec::new()),
        crate::state_change::StateChange::ReceiveSecretReveal(sc) => {
            handle_secret_reveal(state, &sc)
        },
        crate::state_change::StateChange::ReceiveSecretRequest(sc) => {
            handle_secret_request(state, &sc)
        },
        crate::state_change::StateChange::ReceiveLockExpired(sc) => {
            handle_receive_lock_expired(state, &sc)
        },
        crate::state_change::StateChange::ReceiveLockedTransfer(sc) => {
            handle_receive_locked_transfer(state, &sc)
        },
        crate::state_change::StateChange::ReceiveUnlock(sc) => handle_receive_unlock(state, &sc),
        crate::state_change::StateChange::ReceiveWithdrawRequest(sc) => {
            handle_receive_withdraw_request(state, &sc)
        },
        crate::state_change::StateChange::ReceiveWithdrawConfirmation(sc) => {
            handle_receive_withdraw_confirmation(state, &sc)
        },
        crate::state_change::StateChange::ReceiveWithdrawExpired(sc) => {
            handle_receive_withdraw_expired(state, &sc)
        },
        crate::state_change::StateChange::ReceiveProcessed(sc) => {
            let mut state = state;
            let qs = state.queueids_to_queues;
            state.queueids_to_queues = dequeue(qs, sc.sender, sc.message_identifier);
            proof {
                assert(state@ =~~= spec_dispatch(cs0, scg).0);
            }
            (state, Vec::new())
        },
        crate::state_change::StateChange::ReceiveDelivered(sc) => {
            let mut state = state;
            let qs = state.queueids_to_queues;
            state.queueids_to_queues = dequeue(qs, sc.sender, sc.delivered_message_identifier);
            proof {
                assert(state@ =~~= spec_dispatch(cs0, scg).0);
            }
            (state, Vec::new())
        },
        crate::state_change::StateChange::ContractReceiveTokenNetworkRegistry(sc) => {
            (handle_registry(state, sc.token_network_registry), Vec::new())
        },
        crate::state_change::StateChange::ContractReceiveTokenNetworkCreated(sc) => {
            (
                handle_network_created(
                    state,
                    sc.token_network_registry_address,
                    sc.token_network,
                ),
                Vec::new(),
            )
        },
        crate::state_change::StateChange::ContractReceiveChannelOpened(sc) => {
            (handle_channel_opened(state, sc.channel_state), Vec::new())
        },
        crate::state_change::StateChange::ContractReceiveChannelClosed(sc) => {
            handle_channel_closed(state, &sc)
        },
        crate::state_change::StateChange::ContractReceiveChannelSettled(sc) => {
            handle_channel_settled(state, &sc)
        },
        crate::state_change::StateChange::ContractReceiveChannelDeposit(sc) => {
            handle_channel_deposit(state, &sc)
        },
        crate::state_change::StateChange::ContractReceiveChannelWithdraw(sc) => {
            handle_channel_withdraw(state, &sc)
        },
        crate::state_change::StateChange::ContractReceiveChannelBatchUnlock(sc) => {
            handle_batch_unlock(state, &sc)
        },
        crate::state_change::StateChange::ContractReceiveSecretReveal(sc) => {
            handle_contract_secret_reveal(state, &sc)
        },
        crate::state_change::StateChange::ContractReceiveRouteNew(_) => (state, Vec::new()),
        crate::state_change::StateChange::ContractReceiveUpdateTransfer(sc) => {
            handle_update_transfer(state, &sc)
        },
    };
    let (mut new_state, events) = d;
    proof {
        assert(new_state@ == spec_dispatch(cs0, scg).0);
        assert(spec_events(events@) =~= spec_dispatch(cs0, scg).1);
    }
    let qs = new_state.queueids_to_queues;
    new_state.queueids_to_queues = enqueue_events(qs, &events);
    proof {
        reveal(spec_transition);
        assert(new_state@ =~~= spec_transition(cs0, scg).0);
    }
    TransitionResult { new_state, events }
}

} // verus!
