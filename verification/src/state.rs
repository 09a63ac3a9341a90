//! The state that a connection shares with its observers: the node
//! directory, the table of tracked messages and the radio's own identity.

use std::collections::HashMap;
use std::time::Instant;
use vstd::pervasive::unreached;
use vstd::prelude::*;
use vstd::std_specs::hash::group_hash_axioms;
use vstd::std_specs::iter::IteratorSpec;
use vstd::string::StringExecFns;

use crate::codec::routing_error_label;
use crate::packet::MyNodeInfo;
use crate::text::decimal;
use crate::text::to_decimal;
use crate::types::NodeNames;
use crate::types::NodeRecord;
use crate::types::TextMessage;
use crate::types::TextMessageStatus;
use crate::types::TextMessageView;
use crate::types::BROADCAST;

verus! {

/// Directory, message table and identity of one connection.
pub struct HandlerState {
    pub my_node_info: Option<MyNodeInfo>,
    pub nodes: HashMap<u32, NodeRecord>,
    pub messages: HashMap<u32, TextMessage>,
}

/// Mathematical value of a [`HandlerState`].
pub struct StateView {
    /// The radio's own node number, once it is known.
    pub my_node_num: Option<u32>,
    /// Display names by node number.
    pub nodes: Map<u32, NodeNames>,
    /// Tracked messages by mesh packet identifier.
    pub messages: Map<u32, TextMessageView>,
}

impl View for HandlerState {
    type V = StateView;

    open spec fn view(&self) -> StateView {
        StateView {
            my_node_num: match self.my_node_info {
                Some(info) => Some(info.my_node_num),
                None => None,
            },
            nodes: self.nodes@.map_values(|record: NodeRecord| record@),
            messages: self.messages@.map_values(|msg: TextMessage| msg@),
        }
    }
}

/// Whether a message is tracked and still awaits the verdict on its
/// delivery: its status is `Sent`.
pub open spec fn awaits_verdict(state: StateView, id: u32) -> bool {
    state.messages.contains_key(id) && state.messages[id].status is Sent
}

/// The state of a connection on which nothing has arrived yet.
pub open spec fn empty_state() -> StateView {
    StateView { my_node_num: None, nodes: Map::empty(), messages: Map::empty() }
}

/// The name under which a node is shown: its long name where the directory
/// knows the node, else its number.
pub open spec fn display_name(nodes: Map<u32, NodeNames>, id: u32) -> Seq<char> {
    if nodes.contains_key(id) {
        nodes[id].long_name
    } else {
        "NodeId("@ + decimal(id as nat) + ")"@
    }
}

/// The mark that shows how far the delivery of a message has come.
pub open spec fn status_glyph(status: TextMessageStatus) -> Seq<char> {
    match status {
        TextMessageStatus::Sent => "📤"@,
        TextMessageStatus::Recieved => ""@,
        TextMessageStatus::ImplicitAck => "✔️"@,
        TextMessageStatus::ExplicitAck => "✔️✔️"@,
        TextMessageStatus::RoutingError(reason) => "❌ "@ + routing_error_label(reason.code_spec()),
    }
}

/// The line that shows a message to the node `me`: one form for a broadcast,
/// one for a message to `me`, one for a message to a third node.
pub open spec fn message_line(nodes: Map<u32, NodeNames>, me: u32, msg: TextMessageView) -> Seq<
    char,
> {
    if msg.to == BROADCAST {
        "💬 "@ + display_name(nodes, msg.from) + " : "@ + msg.text + " "@ + status_glyph(msg.status)
            + " "@
    } else if msg.to == me {
        "👤 "@ + display_name(nodes, msg.from) + " : "@ + msg.text + " "@ + status_glyph(msg.status)
    } else {
        "📩 "@ + display_name(nodes, msg.from) + " → "@ + display_name(nodes, msg.to) + " : "@
            + msg.text + " "@ + status_glyph(msg.status)
    }
}

/// Writes the mark of a delivery status.
pub fn status_mark(status: TextMessageStatus) -> (mark: String)
    ensures
        mark@ == status_glyph(status),
{
    match status {
        TextMessageStatus::Sent => String::from_str("📤"),
        TextMessageStatus::Recieved => String::from_str(""),
        TextMessageStatus::ImplicitAck => String::from_str("✔️"),
        TextMessageStatus::ExplicitAck => String::from_str("✔️✔️"),
        TextMessageStatus::RoutingError(reason) => {
            let mut mark = String::from_str("❌ ");
            let name = reason.name();
            mark.append(name.as_str());
            mark
        },
    }
}

impl Default for HandlerState {
    fn default() -> (state: Self)
        ensures
            state@ == empty_state(),
    {
        HandlerState::new()
    }
}

impl HandlerState {
    /// The moment at which each tracked message was created.
    pub open spec fn created(&self) -> Map<u32, Instant> {
        self.messages@.map_values(|msg: TextMessage| msg.ts)
    }

    /// A state with no identity, no node and no message.
    pub fn new() -> (state: Self)
        ensures
            state@ == empty_state(),
            state.created() == Map::<u32, Instant>::empty(),
    {
        let state = HandlerState {
            my_node_info: None,
            nodes: HashMap::new(),
            messages: HashMap::new(),
        };
        assert(state@.nodes =~= Map::empty());
        assert(state@.messages =~= Map::empty());
        assert(state.created() =~= Map::empty());
        state
    }

    /// The long display name of a node that the directory knows.
    pub fn get_long_name_by_node_id(&self, user_id: u32) -> (name: Option<String>)
        ensures
            name is Some <==> self@.nodes.contains_key(user_id),
            name matches Some(n) ==> n@ == self@.nodes[user_id].long_name,
    {
        broadcast use group_hash_axioms;

        match self.nodes.get(&user_id) {
            Some(record) => Some(record.long_name.clone()),
            None => None,
        }
    }

    /// The name that stands for a node where a short name is asked for. The
    /// directory answers with the long display name here too.
    pub fn get_short_name_by_node_id(&self, user_id: u32) -> (name: Option<String>)
        ensures
            name is Some <==> self@.nodes.contains_key(user_id),
            name matches Some(n) ==> n@ == self@.nodes[user_id].long_name,
    {
        broadcast use group_hash_axioms;

        match self.nodes.get(&user_id) {
            Some(record) => Some(record.long_name.clone()),
            None => None,
        }
    }

    /// The number of a node with the given short name. Where several nodes
    /// carry the name, any one of them is reported.
    pub fn get_node_id_by_short_name(&self, short_name: &str) -> (id: Option<u32>)
        ensures
            id matches Some(n) ==> self@.nodes.contains_key(n) && self@.nodes[n].short_name
                == short_name@,
            id is None ==> forall|n: u32|
                self@.nodes.contains_key(n) ==> (#[trigger] self@.nodes[n]).short_name
                    != short_name@,
    {
        broadcast use group_hash_axioms;

        let wanted = short_name.to_owned();
        let ghost nodes = self.nodes@;
        let ghost pairs = self.nodes.iter().remaining();
        let ghost mut seen: int = 0;
        for entry in it: self.nodes.iter()
            invariant
                wanted@ == short_name@,
                nodes == self.nodes@,
                pairs == it.seq(),
                seen == it.index(),
                forall|k: u32| #[trigger]
                    nodes.contains_key(k) ==> pairs.contains((&k, &nodes[k])),
                forall|i: int|
                    0 <= i < seen ==> (*(#[trigger] pairs[i]).1).short_name@ != short_name@,
        {
            let (id, user) = entry;
            if user.short_name == wanted {
                return Some(*id);
            }
            proof {
                seen = seen + 1;
            }
        }
        assert forall|n: u32| self@.nodes.contains_key(n) implies (#[trigger] self@.nodes[n]).short_name
            != short_name@ by {
            let pair = (&n, &nodes[n]);
            assert(pairs.contains(pair));
            let i = choose|i: int| 0 <= i < pairs.len() && pairs[i] == pair;
            assert((*pairs[i].1).short_name@ != short_name@);
        }
        None
    }

    fn shown_name(&self, id: u32) -> (name: String)
        ensures
            name@ == display_name(self@.nodes, id),
    {
        match self.get_long_name_by_node_id(id) {
            Some(name) => name,
            None => {
                let mut name = String::from_str("NodeId(");
                let number = to_decimal(id as u64);
                name.append(number.as_str());
                name.append(")");
                name
            },
        }
    }

    /// Renders a message as one line for a reader at this radio.
    pub fn format_msg(&self, msg: &TextMessage) -> (line: String)
        requires
            self@.my_node_num is Some,
        ensures
            line@ == message_line(self@.nodes, self@.my_node_num->0, msg@),
    {
        let me = self.my_node_num();
        let status = status_mark(msg.status);
        let from = self.shown_name(msg.from);
        if msg.to == BROADCAST {
            let mut line = String::from_str("💬 ");
            line.append(from.as_str());
            line.append(" : ");
            line.append(msg.text.as_str());
            line.append(" ");
            line.append(status.as_str());
            line.append(" ");
            line
        } else if msg.to == me {
            let mut line = String::from_str("👤 ");
            line.append(from.as_str());
            line.append(" : ");
            line.append(msg.text.as_str());
            line.append(" ");
            line.append(status.as_str());
            line
        } else {
            let to = self.shown_name(msg.to);
            let mut line = String::from_str("📩 ");
            line.append(from.as_str());
            line.append(" → ");
            line.append(to.as_str());
            line.append(" : ");
            line.append(msg.text.as_str());
            line.append(" ");
            line.append(status.as_str());
            line
        }
    }

    /// The tracked message with the given identifier.
    pub fn msg(&self, id: u32) -> (found: Option<TextMessage>)
        ensures
            found is Some <==> self@.messages.contains_key(id),
            found matches Some(m) ==> m@ == self@.messages[id] && m.ts == self.created()[id],
    {
        broadcast use group_hash_axioms;

        match self.messages.get(&id) {
            Some(msg) => Some(msg.clone()),
            None => None,
        }
    }

    /// The radio's own node number.
    pub fn my_node_num(&self) -> (num: u32)
        requires
            self@.my_node_num is Some,
        ensures
            self@.my_node_num == Some(num),
    {
        match &self.my_node_info {
            Some(info) => info.my_node_num,
            None => unreached(),
        }
    }

    /// The name of the radio's own node, as
    /// [`get_short_name_by_node_id`](Self::get_short_name_by_node_id) gives
    /// it; `None` until the identity is known and the directory lists it.
    pub fn my_short_name(&self) -> (name: Option<String>)
        ensures
            name is Some <==> self@.my_node_num is Some && self@.nodes.contains_key(
                self@.my_node_num->0,
            ),
            name matches Some(n) ==> n@ == self@.nodes[self@.my_node_num->0].long_name,
    {
        match &self.my_node_info {
            Some(info) => self.get_short_name_by_node_id(info.my_node_num),
            None => None,
        }
    }

    /// Records the names of a node, replacing what was known of it.
    pub fn insert_node(&mut self, id: u32, record: NodeRecord)
        ensures
            final(self)@ == (StateView {
                nodes: old(self)@.nodes.insert(id, record@),
                ..old(self)@
            }),
            final(self).created() == old(self).created(),
    {
        broadcast use group_hash_axioms;

        self.nodes.insert(id, record);
        assert(self@.nodes =~= old(self)@.nodes.insert(id, record@));
    }

    /// Tracks a message under an identifier, replacing what was tracked
    /// under it. The message keeps the moment of its creation.
    pub fn insert_message(&mut self, id: u32, msg: TextMessage)
        ensures
            final(self)@ == (StateView {
                messages: old(self)@.messages.insert(id, msg@),
                ..old(self)@
            }),
            final(self).created() == old(self).created().insert(id, msg.ts),
    {
        broadcast use group_hash_axioms;

        self.messages.insert(id, msg);
        assert(self@.messages =~= old(self)@.messages.insert(id, msg@));
        assert(self.created() =~= old(self).created().insert(id, msg.ts));
    }

    /// Sets the delivery status of a tracked message that still awaits its
    /// verdict. A status once set is final: a message that has one, a
    /// received message and an identifier that is not tracked change
    /// nothing. Nothing but the status changes, and no moment of creation.
    pub fn set_status(&mut self, id: u32, status: TextMessageStatus) -> (updated: bool)
        ensures
            updated == awaits_verdict(old(self)@, id),
            final(self)@ == if updated {
                with_status(old(self)@, id, status)
            } else {
                old(self)@
            },
            final(self).created() == old(self).created(),
    {
        broadcast use group_hash_axioms;

        let found = match self.messages.get(&id) {
            Some(msg) => match msg.status {
                TextMessageStatus::Sent => Some(msg.clone()),
                _ => None,
            },
            None => None,
        };
        match found {
            Some(mut msg) => {
                msg.status = status;
                self.messages.insert(id, msg);
                assert(self@.messages =~= old(self)@.messages.insert(
                    id,
                    TextMessageView { status, ..old(self)@.messages[id] },
                ));
                assert(self.created() =~= old(self).created());
                true
            },
            None => false,
        }
    }

    /// Records the radio's identity the first time it is reported; later
    /// reports change nothing.
    pub fn set_identity(&mut self, info: MyNodeInfo)
        ensures
            final(self)@ == with_identity(old(self)@, info.my_node_num),
            final(self).created() == old(self).created(),
    {
        if self.my_node_info.is_none() {
            self.my_node_info = Some(info);
        }
    }
}

/// A state after an identity report: the first report decides.
pub open spec fn with_identity(state: StateView, num: u32) -> StateView {
    if state.my_node_num is Some {
        state
    } else {
        StateView { my_node_num: Some(num), ..state }
    }
}

/// A state after a status was set on a message: only a tracked message
/// changes, and only in its status.
pub open spec fn with_status(state: StateView, id: u32, status: TextMessageStatus) -> StateView {
    if state.messages.contains_key(id) {
        StateView {
            messages: state.messages.insert(id, TextMessageView { status, ..state.messages[id] }),
            ..state
        }
    } else {
        state
    }
}

} // verus!
