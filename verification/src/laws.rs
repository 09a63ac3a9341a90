//! What holds of every run of the connection actor.

use vstd::prelude::*;

use crate::codec::decoded_user;
use crate::codec::known_routing_error;
use crate::codec::port_kind_of;
use crate::codec::PortKind;
use crate::codec::ROUTING_NONE;
use crate::events::ActionView;
use crate::events::Event;
use crate::events::PacketError;
use crate::events::Status;
use crate::inbound::routing_effect;
use crate::inbound::routing_verdict;
use crate::packet::MeshPayload;
use crate::packet::PayloadVariant;
use crate::service::initial;
use crate::service::step_spec;
use crate::service::ServiceView;
use crate::state::awaits_verdict;
use crate::state::StateView;
use crate::types::NodeNames;
use crate::types::RoutingError;
use crate::types::TextMessageStatus;
use crate::types::TextMessageView;

verus! {

/// The actor after a sequence of events.
pub open spec fn run(s: ServiceView, events: Seq<Event>) -> ServiceView
    decreases events.len(),
{
    if events.len() == 0 {
        s
    } else {
        step_spec(run(s, events.drop_last()), events.last()).next
    }
}

/// Everything that the actor does over a sequence of events, in order.
pub open spec fn run_actions(s: ServiceView, events: Seq<Event>) -> Seq<ActionView>
    decreases events.len(),
{
    if events.len() == 0 {
        Seq::empty()
    } else {
        run_actions(s, events.drop_last()) + step_spec(
            run(s, events.drop_last()),
            events.last(),
        ).actions
    }
}

/// The node and the names that an inbound identity packet reports: an entry
/// of the radio's node database that names a user, or an identity payload
/// that decodes.
pub open spec fn reported_identity(event: Event) -> Option<(u32, NodeNames)> {
    match event {
        Event::Packet(Some(packet)) => match packet.payload_variant {
            Some(PayloadVariant::NodeInfo(info)) => match info.user {
                Some(record) => Some((info.num, record@)),
                None => None,
            },
            Some(PayloadVariant::Packet(mesh_packet)) => match mesh_packet.payload_variant {
                Some(MeshPayload::Decoded(data)) => {
                    if port_kind_of(data.portnum) == PortKind::NodeInfo {
                        match decoded_user(data.payload@) {
                            Some((short_name, long_name)) => Some(
                                (mesh_packet.from, NodeNames { short_name, long_name }),
                            ),
                            None => None,
                        }
                    } else {
                        None
                    }
                },
                _ => None,
            },
            _ => None,
        },
        _ => None,
    }
}

/// Whether an event reports the identity of the node `id`.
pub open spec fn reports(event: Event, id: u32) -> bool {
    reported_identity(event) matches Some((node, _)) && node == id
}

/// Whether an event is an inbound packet.
pub open spec fn is_packet(event: Event) -> bool {
    event matches Event::Packet(Some(_))
}

proof fn lemma_packets_keep_running(s: ServiceView, events: Seq<Event>)
    requires
        !s.finished,
        forall|i: int| 0 <= i < events.len() ==> is_packet(#[trigger] events[i]),
    ensures
        !run(s, events).finished,
    decreases events.len(),
{
    if events.len() > 0 {
        lemma_packets_keep_running(s, events.drop_last());
        assert(is_packet(events[events.len() - 1]));
    }
}

/// Last write wins in the node directory: after any sequence of inbound
/// packets, a node whose identity was reported is listed with the names of
/// the last report of it.
pub proof fn lemma_directory_last_write_wins(
    s: ServiceView,
    events: Seq<Event>,
    id: u32,
    last: int,
)
    requires
        !s.finished,
        forall|i: int| 0 <= i < events.len() ==> is_packet(#[trigger] events[i]),
        0 <= last < events.len(),
        reports(events[last], id),
        forall|j: int| last < j < events.len() ==> !reports(#[trigger] events[j], id),
    ensures
        run(s, events).state.nodes.contains_key(id),
        reported_identity(events[last]) matches Some((_, names)) && run(s, events).state.nodes[id]
            == names,
    decreases events.len(),
{
    let before = events.drop_last();
    lemma_packets_keep_running(s, before);
    assert(is_packet(events[events.len() - 1]));
    if last < events.len() - 1 {
        assert(!reports(events[events.len() - 1], id));
        assert(before[last] == events[last]);
        assert forall|j: int| last < j < before.len() implies !reports(#[trigger] before[j], id) by {
            assert(before[j] == events[j]);
        }
        lemma_directory_last_write_wins(s, before, id, last);
    }
}

/// A node whose identity no packet reports stays in the directory as it was.
pub proof fn lemma_directory_keeps_unreported(s: ServiceView, events: Seq<Event>, id: u32)
    requires
        forall|j: int| 0 <= j < events.len() ==> !reports(#[trigger] events[j], id),
    ensures
        run(s, events).state.nodes.contains_key(id) == s.state.nodes.contains_key(id),
        run(s, events).state.nodes[id] == s.state.nodes[id],
    decreases events.len(),
{
    if events.len() > 0 {
        let before = events.drop_last();
        assert forall|j: int| 0 <= j < before.len() implies !reports(#[trigger] before[j], id) by {
            assert(before[j] == events[j]);
        }
        lemma_directory_keeps_unreported(s, before, id);
        assert(!reports(events[events.len() - 1], id));
    }
}

/// Whether an event can write the message tracked under `id`: the report of
/// a transmission under that identifier, a text packet with that identifier,
/// or a routing packet that answers it.
pub open spec fn addresses(event: Event, id: u32) -> bool {
    match event {
        Event::Sent(_, sent_id) => sent_id == id,
        Event::Packet(Some(packet)) => match packet.payload_variant {
            Some(PayloadVariant::Packet(mesh_packet)) => match mesh_packet.payload_variant {
                Some(MeshPayload::Decoded(data)) => {
                    ||| port_kind_of(data.portnum) == PortKind::TextMessage && mesh_packet.id == id
                    ||| port_kind_of(data.portnum) == PortKind::Routing && data.request_id == id
                },
                _ => false,
            },
            _ => false,
        },
        _ => false,
    }
}

/// The message tracked under `id`, if any.
pub open spec fn message_at(s: ServiceView, id: u32) -> Option<TextMessageView> {
    if s.state.messages.contains_key(id) {
        Some(s.state.messages[id])
    } else {
        None
    }
}

/// An event that does not address a message leaves it as it was, tracked or
/// not.
pub proof fn lemma_step_keeps_unaddressed(s: ServiceView, event: Event, id: u32)
    requires
        !addresses(event, id),
    ensures
        message_at(step_spec(s, event).next, id) == message_at(s, id),
{
}

/// No sequence of events changes a message that none of them addresses.
pub proof fn lemma_run_keeps_unaddressed(s: ServiceView, events: Seq<Event>, id: u32)
    requires
        forall|j: int| 0 <= j < events.len() ==> !addresses(#[trigger] events[j], id),
    ensures
        message_at(run(s, events), id) == message_at(s, id),
    decreases events.len(),
{
    if events.len() > 0 {
        let before = events.drop_last();
        assert forall|j: int| 0 <= j < before.len() implies !addresses(#[trigger] before[j], id) by {
            assert(before[j] == events[j]);
        }
        lemma_run_keeps_unaddressed(s, before, id);
        assert(!addresses(events[events.len() - 1], id));
        lemma_step_keeps_unaddressed(run(s, before), events.last(), id);
    }
}

/// A run in two parts.
pub proof fn lemma_run_split(s: ServiceView, first: Seq<Event>, second: Seq<Event>)
    ensures
        run(s, first + second) == run(run(s, first), second),
    decreases second.len(),
{
    if second.len() == 0 {
        assert(first + second =~= first);
    } else {
        assert((first + second).drop_last() =~= first + second.drop_last());
        assert((first + second).last() == second.last());
        lemma_run_split(s, first, second.drop_last());
    }
}

/// Whether an event tracks a message anew under `id`: the report of a
/// transmission under that identifier, or a text packet with it.
pub open spec fn tracks(event: Event, id: u32) -> bool {
    match event {
        Event::Sent(_, sent_id) => sent_id == id,
        Event::Packet(Some(packet)) => match packet.payload_variant {
            Some(PayloadVariant::Packet(mesh_packet)) => match mesh_packet.payload_variant {
                Some(MeshPayload::Decoded(data)) => port_kind_of(data.portnum)
                    == PortKind::TextMessage && mesh_packet.id == id,
                _ => false,
            },
            _ => false,
        },
        _ => false,
    }
}

/// Whether a delivery status is an acknowledgement or an error, that is the
/// verdict on a delivery.
pub open spec fn is_verdict(status: TextMessageStatus) -> bool {
    status is ImplicitAck || status is ExplicitAck || status is RoutingError
}

/// Whether a message went from `before` to `after` by at most one change:
/// it is as it was, or it awaited its verdict and now has it, and is
/// otherwise as it was. A message is never made by it.
pub open spec fn settled(before: Option<TextMessageView>, after: Option<TextMessageView>) -> bool {
    ||| after == before
    ||| {
        &&& before matches Some(sent)
        &&& after matches Some(done)
        &&& sent.status is Sent
        &&& is_verdict(done.status)
        &&& done == (TextMessageView { status: done.status, ..sent })
    }
}

/// An event that does not track a message anew under an identifier changes
/// the message under it at most in its status, and that only where the
/// message awaits its verdict.
pub proof fn lemma_step_settles(s: ServiceView, event: Event, id: u32)
    requires
        !tracks(event, id),
    ensures
        settled(message_at(s, id), message_at(step_spec(s, event).next, id)),
{
}

/// A delivery status is set at most once: over any run that gives the
/// identifier of a message to no other, whatever routing packets arrive, the
/// message stays as it is or goes from `Sent` to its verdict, and nothing
/// but its status changes.
pub proof fn lemma_status_set_at_most_once(s: ServiceView, events: Seq<Event>, id: u32)
    requires
        forall|j: int| 0 <= j < events.len() ==> !tracks(#[trigger] events[j], id),
    ensures
        settled(message_at(s, id), message_at(run(s, events), id)),
    decreases events.len(),
{
    if events.len() > 0 {
        let before = events.drop_last();
        assert forall|j: int| 0 <= j < before.len() implies !tracks(#[trigger] before[j], id) by {
            assert(before[j] == events[j]);
        }
        lemma_status_set_at_most_once(s, before, id);
        assert(!tracks(events[events.len() - 1], id));
        lemma_step_settles(run(s, before), events.last(), id);
    }
}

/// A delivery status never changes twice: a message that a run has changed
/// is not changed by what follows, as long as its identifier is given to no
/// other message.
pub proof fn lemma_status_never_changes_twice(
    s: ServiceView,
    first: Seq<Event>,
    second: Seq<Event>,
    id: u32,
)
    requires
        forall|j: int| 0 <= j < first.len() ==> !tracks(#[trigger] first[j], id),
        forall|j: int| 0 <= j < second.len() ==> !tracks(#[trigger] second[j], id),
        message_at(run(s, first), id) != message_at(s, id),
    ensures
        message_at(run(s, first + second), id) == message_at(run(s, first), id),
{
    lemma_status_set_at_most_once(s, first, id);
    lemma_status_set_at_most_once(run(s, first), second, id);
    lemma_run_split(s, first, second);
}

/// A message that has its verdict, and a received message, are changed by no
/// routing packet, and no update is announced for them.
pub proof fn lemma_verdict_is_final(
    state: StateView,
    from: u32,
    to: u32,
    priority: i32,
    request_id: u32,
    decoded: Option<Option<i32>>,
)
    requires
        state.messages.contains_key(request_id),
        !(state.messages[request_id].status is Sent),
    ensures
        routing_effect(state, from, to, priority, request_id, decoded).0 == state,
        !(routing_effect(state, from, to, priority, request_id, decoded).1 matches Ok(Some(_))),
{
}

/// A routing envelope that gives a verdict on a message that awaits it sets
/// the status of the message to an implicit acknowledgement, an explicit
/// acknowledgement or a routing error, announces the update, and touches
/// nothing else.
pub proof fn lemma_routing_sets_final_status(
    state: StateView,
    from: u32,
    to: u32,
    priority: i32,
    request_id: u32,
    reason: i32,
)
    requires
        awaits_verdict(state, request_id),
        reason == ROUTING_NONE || known_routing_error(reason),
        routing_verdict(from, to, priority, reason) is Some,
    ensures
        ({
            let (next, result) = routing_effect(
                state,
                from,
                to,
                priority,
                request_id,
                Some(Some(reason)),
            );
            let verdict = routing_verdict(from, to, priority, reason)->0;
            &&& verdict is ImplicitAck || verdict is ExplicitAck || verdict is RoutingError
            &&& verdict matches TextMessageStatus::RoutingError(error) ==> reason != ROUTING_NONE
                && error.code_spec() == reason
            &&& result == Ok::<Option<Status>, PacketError>(
                Some(Status::UpdatedMessage(request_id)),
            )
            &&& next.messages == state.messages.insert(
                request_id,
                TextMessageView { status: verdict, ..state.messages[request_id] },
            )
            &&& next.nodes == state.nodes
            &&& next.my_node_num == state.my_node_num
        }),
{
    RoutingError::lemma_code_of_with_code(reason);
}

/// A routing packet never adds a message, and one that answers an untracked
/// identifier changes nothing at all; it is no error either, as long as its
/// payload decodes and its reason is one that the protocol defines.
pub proof fn lemma_untracked_routing_is_ignored(
    state: StateView,
    from: u32,
    to: u32,
    priority: i32,
    request_id: u32,
    decoded: Option<Option<i32>>,
)
    ensures
        routing_effect(state, from, to, priority, request_id, decoded).0.messages.dom()
            == state.messages.dom(),
        !state.messages.contains_key(request_id) ==> routing_effect(
            state,
            from,
            to,
            priority,
            request_id,
            decoded,
        ).0 == state,
        !state.messages.contains_key(request_id) && (decoded matches Some(envelope) && (
            envelope matches Some(reason) ==> reason == ROUTING_NONE || known_routing_error(
                reason,
            ))) ==> routing_effect(state, from, to, priority, request_id, decoded).1 == Ok::<
            Option<Status>,
            PacketError,
        >(None),
{
    let next = routing_effect(state, from, to, priority, request_id, decoded).0;
    assert(next.messages.dom() =~= state.messages.dom());
}

/// Whether an action hands a message to the transport.
pub open spec fn is_transmit(action: ActionView) -> bool {
    action is Transmit
}

/// Whether an action announces the end of the boot phase.
pub open spec fn is_ready(action: ActionView) -> bool {
    action == ActionView::Emit(Status::Ready)
}

/// Whether a list of actions hands a message to the transport.
pub open spec fn transmits(actions: Seq<ActionView>) -> bool {
    exists|i: int| 0 <= i < actions.len() && is_transmit(#[trigger] actions[i])
}

/// One event leads to at most one transmission, and to one only where it is
/// a tick after the boot phase.
pub proof fn lemma_step_transmits_at_most_once(s: ServiceView, event: Event)
    ensures
        forall|i: int, j: int|
            #![trigger step_spec(s, event).actions[i], step_spec(s, event).actions[j]]
            0 <= i < step_spec(s, event).actions.len() && 0 <= j < step_spec(
                s,
                event,
            ).actions.len() && is_transmit(step_spec(s, event).actions[i]) && is_transmit(
                step_spec(s, event).actions[j],
            ) ==> i == j,
        transmits(step_spec(s, event).actions) ==> event is Tick && s.ready && !s.finished
            && s.queue.len() > 0 && step_spec(s, event).next.queue == s.queue.drop_first(),
{
}

/// Of two ticks in a row at most one leads to a transmission.
pub proof fn lemma_consecutive_ticks_transmit_once(s: ServiceView)
    ensures
        !(transmits(step_spec(s, Event::Tick).actions) && transmits(
            step_spec(step_spec(s, Event::Tick).next, Event::Tick).actions,
        )),
{
    let first = step_spec(s, Event::Tick);
    let second = step_spec(first.next, Event::Tick);
    if transmits(first.actions) && transmits(second.actions) {
        lemma_step_transmits_at_most_once(s, Event::Tick);
        lemma_step_transmits_at_most_once(first.next, Event::Tick);
        assert(first.next.phase % 2 == 0);
        assert(second.next.phase % 2 == 0);
        assert(second.next.phase == (first.next.phase + 1) % 20);
    }
}

proof fn lemma_step_ready(s: ServiceView, event: Event)
    ensures
        s.ready ==> step_spec(s, event).next.ready,
        s.ready ==> forall|i: int|
            0 <= i < step_spec(s, event).actions.len() ==> !is_ready(
                #[trigger] step_spec(s, event).actions[i],
            ),
        !s.ready ==> forall|i: int|
            0 <= i < step_spec(s, event).actions.len() ==> !is_transmit(
                #[trigger] step_spec(s, event).actions[i],
            ),
        !s.ready && !step_spec(s, event).next.ready ==> forall|i: int|
            0 <= i < step_spec(s, event).actions.len() ==> !is_ready(
                #[trigger] step_spec(s, event).actions[i],
            ),
        !s.ready && step_spec(s, event).next.ready ==> s.config_complete && s.state.my_node_num is Some
            && forall|i: int|
            0 <= i < step_spec(s, event).actions.len() ==> (is_ready(
                #[trigger] step_spec(s, event).actions[i],
            ) <==> i == 0),
        s.config_complete ==> step_spec(s, event).next.config_complete,
        s.state.my_node_num is Some ==> step_spec(s, event).next.state.my_node_num is Some,
{
}

/// Whether the actions of a run from the start to `actions` tell the boot
/// phase as the state `s` does: `Ready` was announced once if the phase is
/// over and never if it is not, and nothing was transmitted before the
/// announcement.
spec fn boot_told(s: ServiceView, actions: Seq<ActionView>) -> bool {
    &&& s.ready ==> s.config_complete && s.state.my_node_num is Some
    &&& !s.ready ==> forall|i: int|
        0 <= i < actions.len() ==> !is_ready(#[trigger] actions[i]) && !is_transmit(actions[i])
    &&& s.ready ==> exists|r: int|
        0 <= r < actions.len() && is_ready(#[trigger] actions[r]) && (forall|i: int|
            0 <= i < actions.len() && is_ready(#[trigger] actions[i]) ==> i == r) && (forall|
            i: int,
        | 0 <= i < actions.len() && is_transmit(#[trigger] actions[i]) ==> r < i)
}

proof fn lemma_boot_told(events: Seq<Event>)
    ensures
        boot_told(run(initial(), events), run_actions(initial(), events)),
    decreases events.len(),
{
    if events.len() > 0 {
        let before = events.drop_last();
        lemma_boot_told(before);
        let s = run(initial(), before);
        let done = run_actions(initial(), before);
        let step = step_spec(s, events.last());
        let all = run_actions(initial(), events);
        lemma_step_ready(s, events.last());
        assert(all == done + step.actions);
        if s.ready {
            let r = choose|r: int|
                0 <= r < done.len() && is_ready(#[trigger] done[r]) && (forall|i: int|
                    0 <= i < done.len() && is_ready(#[trigger] done[i]) ==> i == r) && (forall|
                    i: int,
                | 0 <= i < done.len() && is_transmit(#[trigger] done[i]) ==> r < i);
            assert(all[r] == done[r]);
            assert forall|i: int| 0 <= i < all.len() && is_ready(#[trigger] all[i]) implies i
                == r by {
                if i < done.len() {
                    assert(all[i] == done[i]);
                } else {
                    assert(all[i] == step.actions[i - done.len()]);
                }
            }
            assert forall|i: int| 0 <= i < all.len() && is_transmit(#[trigger] all[i]) implies r
                < i by {
                if i < done.len() {
                    assert(all[i] == done[i]);
                }
            }
        } else if step.next.ready {
            let r = done.len() as int;
            assert(all[r] == step.actions[0]);
            assert forall|i: int| 0 <= i < all.len() && is_ready(#[trigger] all[i]) implies i
                == r by {
                if i < done.len() {
                    assert(all[i] == done[i]);
                } else {
                    assert(all[i] == step.actions[i - done.len()]);
                }
            }
            assert forall|i: int| 0 <= i < all.len() && is_transmit(#[trigger] all[i]) implies r
                < i by {
                if i < done.len() {
                    assert(all[i] == done[i]);
                } else {
                    assert(all[i] == step.actions[i - done.len()]);
                }
            }
        } else {
            assert forall|i: int| 0 <= i < all.len() implies !is_ready(#[trigger] all[i])
                && !is_transmit(all[i]) by {
                if i < done.len() {
                    assert(all[i] == done[i]);
                } else {
                    assert(all[i] == step.actions[i - done.len()]);
                }
            }
        }
    }
}

/// `Ready` is announced at most once in the life of a connection.
pub proof fn lemma_ready_announced_once(events: Seq<Event>, i: int, j: int)
    requires
        0 <= i < run_actions(initial(), events).len(),
        0 <= j < run_actions(initial(), events).len(),
        is_ready(run_actions(initial(), events)[i]),
        is_ready(run_actions(initial(), events)[j]),
    ensures
        i == j,
{
    lemma_boot_told(events);
}

/// `Ready` is announced if and only if the boot phase is over, and then the
/// radio has reported its identity and the end of its configuration.
pub proof fn lemma_ready_after_config(events: Seq<Event>)
    ensures
        run(initial(), events).ready <==> exists|i: int|
            0 <= i < run_actions(initial(), events).len() && is_ready(
                #[trigger] run_actions(initial(), events)[i],
            ),
        run(initial(), events).ready ==> run(initial(), events).config_complete,
        run(initial(), events).ready ==> run(initial(), events).state.my_node_num is Some,
{
    lemma_boot_told(events);
}

/// In any state, an event leads to the announcement of `Ready` only where the
/// identity of the radio is known and its configuration is complete, and the
/// boot phase was not over before.
pub proof fn lemma_ready_needs_identity_and_config(s: ServiceView, event: Event, i: int)
    requires
        0 <= i < step_spec(s, event).actions.len(),
        is_ready(step_spec(s, event).actions[i]),
    ensures
        !s.ready,
        s.config_complete,
        s.state.my_node_num is Some,
        event is Tick,
        step_spec(s, event).next.ready,
{
}

/// Nothing is transmitted before `Ready` is announced.
pub proof fn lemma_no_transmission_before_ready(events: Seq<Event>, at: int)
    requires
        0 <= at < run_actions(initial(), events).len(),
        is_transmit(run_actions(initial(), events)[at]),
    ensures
        exists|r: int| 0 <= r < at && is_ready(#[trigger] run_actions(initial(), events)[r]),
{
    lemma_boot_told(events);
}

/// The identity of the radio is known when `Ready` is announced, and so it
/// is whenever a message is handed to the transport.
pub proof fn lemma_ready_knows_identity(events: Seq<Event>)
    ensures
        run(initial(), events).ready ==> run(initial(), events).state.my_node_num is Some,
        transmits(run_actions(initial(), events)) ==> run(initial(), events).state.my_node_num
            is Some,
{
    lemma_boot_told(events);
}

/// The messages that a list of actions hands to the transport, in order.
pub open spec fn transmissions(actions: Seq<ActionView>) -> Seq<TextMessageView>
    decreases actions.len(),
{
    if actions.len() == 0 {
        Seq::empty()
    } else {
        match actions.last() {
            ActionView::Transmit(msg) => transmissions(actions.drop_last()).push(msg),
            _ => transmissions(actions.drop_last()),
        }
    }
}

/// The messages that the actor takes into its queue over a sequence of
/// events, in order: those that callers hand in while the loop runs.
pub open spec fn enqueued(s: ServiceView, events: Seq<Event>) -> Seq<TextMessageView>
    decreases events.len(),
{
    if events.len() == 0 {
        Seq::empty()
    } else {
        match events.last() {
            Event::Message(Some(msg)) if !run(s, events.drop_last()).finished => enqueued(
                s,
                events.drop_last(),
            ).push(msg@),
            _ => enqueued(s, events.drop_last()),
        }
    }
}

proof fn lemma_transmissions_concat(first: Seq<ActionView>, second: Seq<ActionView>)
    ensures
        transmissions(first + second) == transmissions(first) + transmissions(second),
    decreases second.len(),
{
    if second.len() == 0 {
        assert(first + second =~= first);
    } else {
        assert((first + second).drop_last() =~= first + second.drop_last());
        assert((first + second).last() == second.last());
        lemma_transmissions_concat(first, second.drop_last());
    }
}

proof fn lemma_transmissions_of_one(action: ActionView)
    ensures
        transmissions(seq![action]) == match action {
            ActionView::Transmit(msg) => seq![msg],
            _ => Seq::<TextMessageView>::empty(),
        },
{
    let one = seq![action];
    assert(one.drop_last() =~= Seq::empty());
    assert(transmissions(one.drop_last()) =~= Seq::empty());
    assert(one.last() == action);
    match action {
        ActionView::Transmit(msg) => {
            assert(transmissions(one) =~= seq![msg]);
        },
        _ => {},
    }
}

proof fn lemma_step_transmissions(s: ServiceView, event: Event)
    ensures
        transmissions(step_spec(s, event).actions) + step_spec(s, event).next.queue == s.queue + (
        match event {
            Event::Message(Some(msg)) if !s.finished => seq![msg@],
            _ => Seq::empty(),
        }),
{
    let step = step_spec(s, event);
    let none = Seq::<ActionView>::empty();
    assert(transmissions(none) =~= Seq::empty());
    if s.finished {
        assert(step.actions =~= none);
        assert(transmissions(step.actions) + step.next.queue =~= s.queue + Seq::empty());
    } else {
        match event {
            Event::Tick => {
                let phase = (s.phase + 1) % 20;
                let beat = if phase == 0 {
                    seq![ActionView::Emit(Status::Heartbeat(s.packet_count as usize))]
                } else {
                    none
                };
                lemma_transmissions_of_one(
                    ActionView::Emit(Status::Heartbeat(s.packet_count as usize)),
                );
                assert(transmissions(beat) =~= Seq::empty());
                if !s.ready && s.config_complete && s.state.my_node_num is Some {
                    let first = seq![ActionView::Emit(Status::Ready)];
                    lemma_transmissions_of_one(ActionView::Emit(Status::Ready));
                    lemma_transmissions_concat(first, beat);
                    assert(step.actions == first + beat);
                    assert(transmissions(step.actions) + step.next.queue =~= s.queue
                        + Seq::empty());
                } else if s.ready && phase % 2 == 0 && s.queue.len() > 0 {
                    let first = seq![ActionView::Transmit(s.queue[0])];
                    lemma_transmissions_of_one(ActionView::Transmit(s.queue[0]));
                    lemma_transmissions_concat(first, beat);
                    assert(step.actions == first + beat);
                    assert(transmissions(step.actions) + step.next.queue =~= s.queue
                        + Seq::empty());
                } else {
                    assert(step.actions == beat);
                    assert(transmissions(step.actions) + step.next.queue =~= s.queue
                        + Seq::empty());
                }
            },
            Event::Packet(Some(packet)) => {
                let effect = crate::inbound::packet_effect(s.state, s.config_complete, packet);
                let first = seq![ActionView::Emit(Status::FromRadio(packet))];
                let report = crate::service::packet_report(effect.result);
                lemma_transmissions_of_one(ActionView::Emit(Status::FromRadio(packet)));
                match effect.result {
                    Ok(Some(status)) => {
                        lemma_transmissions_of_one(ActionView::Emit(status));
                    },
                    Ok(None) => {},
                    Err(error) => {
                        lemma_transmissions_of_one(ActionView::Report(error));
                    },
                }
                assert(transmissions(report) =~= Seq::empty());
                lemma_transmissions_concat(first, report);
                assert(transmissions(step.actions) + step.next.queue =~= s.queue + Seq::empty());
            },
            Event::Sent(msg, id) => {
                lemma_transmissions_of_one(ActionView::Emit(Status::NewMessage(id)));
                assert(transmissions(step.actions) + step.next.queue =~= s.queue + Seq::empty());
            },
            Event::Message(Some(msg)) => {
                assert(step.actions =~= none);
                assert(transmissions(step.actions) + step.next.queue =~= s.queue + seq![msg@]);
            },
            _ => {
                let a = seq![ActionView::ClosePackets];
                let b = seq![ActionView::Disconnect];
                let c = seq![ActionView::SignalFinished];
                lemma_transmissions_of_one(ActionView::ClosePackets);
                lemma_transmissions_of_one(ActionView::Disconnect);
                lemma_transmissions_of_one(ActionView::SignalFinished);
                lemma_transmissions_concat(a, b);
                lemma_transmissions_concat(a + b, c);
                assert(step.actions =~= a + b + c);
                assert(transmissions(step.actions) + step.next.queue =~= s.queue + Seq::empty());
            },
        }
    }
}

/// Outbound messages leave in the order in which they came: at any moment
/// the messages handed to the transport so far, followed by those that still
/// wait, are the messages taken into the queue, in order.
pub proof fn lemma_first_in_first_out(events: Seq<Event>)
    ensures
        transmissions(run_actions(initial(), events)) + run(initial(), events).queue == enqueued(
            initial(),
            events,
        ),
    decreases events.len(),
{
    if events.len() > 0 {
        let before = events.drop_last();
        lemma_first_in_first_out(before);
        let s = run(initial(), before);
        let step = step_spec(s, events.last());
        lemma_transmissions_concat(run_actions(initial(), before), step.actions);
        lemma_step_transmissions(s, events.last());
    }
}

/// However the loop ends, the actor first stops accepting packets, then
/// closes the transport, then signals completion; and it ends only once.
pub proof fn lemma_exit_closes_the_connection(s: ServiceView, event: Event)
    ensures
        step_spec(s, event).exit is Some ==> !s.finished && step_spec(s, event).next.finished
            && step_spec(s, event).actions == seq![
            ActionView::ClosePackets,
            ActionView::Disconnect,
            ActionView::SignalFinished,
        ],
        step_spec(s, event).exit is None ==> step_spec(s, event).next.finished == s.finished,
        s.finished ==> step_spec(s, event).next == s && step_spec(s, event).actions.len() == 0,
{
}

} // verus!
