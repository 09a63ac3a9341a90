//! The commands of the interactive tool, and what it does while it listens.

use vstd::prelude::*;
use vstd::string::StrSliceExecFns;
use vstd::string::StringExecFns;

use crate::bbs::command::is_space;
use crate::bbs::command::is_whitespace;
use crate::events::Status;
use crate::handler::boot_wait;
use crate::handler::BootError;
use crate::handler::BootEvent;
use crate::state::message_line;
use crate::state::HandlerState;
use crate::text::chars_of;
use crate::text::join_by;
use crate::text::joined_by;
use crate::text::texts;
use crate::types::TextMessageView;

verus! {

/// Where a text begins once the white space at its start is left out,
/// looking from `from` on.
pub open spec fn trim_start(s: Seq<char>, from: int) -> int
    decreases s.len() - from,
{
    if from < 0 || from >= s.len() {
        s.len() as int
    } else if is_space(s[from]) {
        trim_start(s, from + 1)
    } else {
        from
    }
}

/// Where a text ends once the white space at its end is left out, looking
/// back from `to`.
pub open spec fn trim_end(s: Seq<char>, to: int) -> int
    decreases to,
{
    if to <= 0 || to > s.len() {
        0
    } else if is_space(s[to - 1]) {
        trim_end(s, to - 1)
    } else {
        to
    }
}

/// A text without the white space at its start and at its end.
pub open spec fn trimmed(s: Seq<char>) -> Seq<char> {
    if trim_start(s, 0) < trim_end(s, s.len() as int) {
        s.subrange(trim_start(s, 0), trim_end(s, s.len() as int))
    } else {
        Seq::empty()
    }
}

/// Where the field that begins at `from` ends: at the next space, or at the
/// end of the text.
pub open spec fn field_end(s: Seq<char>, from: int) -> int
    decreases s.len() - from,
{
    if from < 0 || from >= s.len() {
        s.len() as int
    } else if s[from] == ' ' {
        from
    } else {
        field_end(s, from + 1)
    }
}

/// The end of a field lies within the text, not before its start.
pub proof fn lemma_field_end(s: Seq<char>, from: int)
    requires
        0 <= from <= s.len(),
    ensures
        from <= field_end(s, from) <= s.len(),
        field_end(s, from) < s.len() ==> s[field_end(s, from)] == ' ',
    decreases s.len() - from,
{
    if from < s.len() && s[from] != ' ' {
        lemma_field_end(s, from + 1);
    }
}

/// The fields of a text from the position `from` on: what stands between
/// one space and the next. Two spaces in a row enclose an empty field.
pub open spec fn fields_from(s: Seq<char>, from: int) -> Seq<Seq<char>>
    decreases s.len() - from,
{
    if from < 0 || from > s.len() {
        Seq::empty()
    } else {
        proof {
            lemma_field_end(s, from);
        }
        if field_end(s, from) >= s.len() {
            seq![s.subrange(from, s.len() as int)]
        } else {
            seq![s.subrange(from, field_end(s, from))] + fields_from(s, field_end(s, from) + 1)
        }
    }
}

/// The fields of a text. There is always a first one.
pub open spec fn fields(s: Seq<char>) -> Seq<Seq<char>> {
    fields_from(s, 0)
}

/// A command of the interactive tool.
#[derive(Debug, PartialEq, Eq)]
pub enum ReplCommand {
    /// Leave.
    Exit,
    /// `ble` without a device: show how it is used.
    BleUsage,
    /// Connect to the only radio in reach.
    BleAuto,
    /// Connect to the radio with this name.
    Ble(String),
    /// Show what arrives; with `all`, raw packets too.
    Listen { all: bool },
    /// `send` without a node or without a text: show how it is used.
    SendUsage,
    /// Send a text to the node with this short name.
    Send { short_name: String, message: String },
    /// List the nodes.
    Nodes,
    /// List the commands.
    Help,
    /// Anything else.
    Unknown,
}

/// Mathematical value of a [`ReplCommand`].
pub enum ReplView {
    Exit,
    BleUsage,
    BleAuto,
    Ble(Seq<char>),
    Listen { all: bool },
    SendUsage,
    Send { short_name: Seq<char>, message: Seq<char> },
    Nodes,
    Help,
    Unknown,
}

impl View for ReplCommand {
    type V = ReplView;

    open spec fn view(&self) -> ReplView {
        match self {
            ReplCommand::Exit => ReplView::Exit,
            ReplCommand::BleUsage => ReplView::BleUsage,
            ReplCommand::BleAuto => ReplView::BleAuto,
            ReplCommand::Ble(name) => ReplView::Ble(name@),
            ReplCommand::Listen { all } => ReplView::Listen { all: *all },
            ReplCommand::SendUsage => ReplView::SendUsage,
            ReplCommand::Send { short_name, message } => ReplView::Send {
                short_name: short_name@,
                message: message@,
            },
            ReplCommand::Nodes => ReplView::Nodes,
            ReplCommand::Help => ReplView::Help,
            ReplCommand::Unknown => ReplView::Unknown,
        }
    }
}

/// The command that a line spells. The line is trimmed and cut at every
/// single space; its first field names the command.
pub open spec fn command_of(line: Seq<char>) -> ReplView {
    let f = fields(trimmed(line));
    if f[0] == "exit"@ || f[0] == "quit"@ {
        ReplView::Exit
    } else if f[0] == "ble"@ {
        if f.len() < 2 {
            ReplView::BleUsage
        } else if f[1] == "auto"@ {
            ReplView::BleAuto
        } else {
            ReplView::Ble(f[1])
        }
    } else if f[0] == "listen"@ {
        ReplView::Listen { all: f.len() > 1 && f[1] == "all"@ }
    } else if f[0] == "send"@ {
        if f.len() < 3 {
            ReplView::SendUsage
        } else {
            ReplView::Send { short_name: f[1], message: joined_by(f.skip(2), seq![' ']) }
        }
    } else if f[0] == "nodes"@ {
        ReplView::Nodes
    } else if f[0] == "help"@ {
        ReplView::Help
    } else {
        ReplView::Unknown
    }
}

/// Cuts a line into the fields of its trimmed text.
pub fn split_fields(line: &str) -> (list: Vec<String>)
    ensures
        texts(list@) == fields(trimmed(line@)),
        list@.len() >= 1,
{
    let chars = chars_of(line);
    let n = chars.len();
    let mut a: usize = 0;
    while a < n && is_whitespace(chars[a])
        invariant
            chars@ == line@,
            n == chars.len(),
            a <= n,
            trim_start(line@, 0) == trim_start(line@, a as int),
        decreases n - a,
    {
        a = a + 1;
    }
    let mut b: usize = n;
    while b > 0 && is_whitespace(chars[b - 1])
        invariant
            chars@ == line@,
            n == chars.len(),
            b <= n,
            trim_end(line@, n as int) == trim_end(line@, b as int),
        decreases b,
    {
        b = b - 1;
    }
    if a >= b {
        a = 0;
        b = 0;
    }
    let ghost t = trimmed(line@);
    assert(t =~= line@.subrange(a as int, b as int));
    let mut list: Vec<String> = Vec::new();
    let mut i: usize = a;
    assert(texts(list@) =~= Seq::empty());
    loop
        invariant
            chars@ == line@,
            b <= chars.len(),
            a <= i <= b,
            t == trimmed(line@),
            t == line@.subrange(a as int, b as int),
            fields(t) == texts(list@) + fields_from(t, i - a),
        decreases b - i,
    {
        let start = i;
        proof {
            lemma_field_end(t, start - a);
        }
        while i < b && chars[i] != ' '
            invariant
                chars@ == line@,
                b <= chars.len(),
                a <= start <= i <= b,
                t == line@.subrange(a as int, b as int),
                field_end(t, start - a) == field_end(t, i - a),
            decreases b - i,
        {
            assert(t[i - a] == line@[i as int]);
            i = i + 1;
        }
        assert(i < b ==> t[i - a] == line@[i as int]);
        assert(i - a == field_end(t, start - a));
        let field = line.substring_char(start, i);
        assert(field@ =~= t.subrange(start - a, i - a));
        let ghost before = texts(list@);
        list.push(String::from_str(field));
        assert(texts(list@) =~= before + seq![t.subrange(start - a, i - a)]);
        if i >= b {
            assert(t.len() == b - a);
            assert(fields_from(t, start - a) =~= seq![t.subrange(start - a, t.len() as int)]);
            assert(texts(list@).len() == list@.len());
            return list;
        }
        i = i + 1;
    }
}

fn text_is(word: &String, name: &str) -> (same: bool)
    ensures
        same == (word@ == name@),
{
    let name = String::from_str(name);
    *word == name
}

impl ReplCommand {
    /// Reads a command from a line.
    pub fn parse(line: &str) -> (command: Self)
        ensures
            command@ == command_of(line@),
    {
        let list = split_fields(line);
        assert(forall|i: int| 0 <= i < list.len() ==> texts(list@)[i] == list@[i]@);
        let first = &list[0];
        if text_is(first, "exit") || text_is(first, "quit") {
            ReplCommand::Exit
        } else if text_is(first, "ble") {
            if list.len() < 2 {
                ReplCommand::BleUsage
            } else if text_is(&list[1], "auto") {
                ReplCommand::BleAuto
            } else {
                ReplCommand::Ble(list[1].clone())
            }
        } else if text_is(first, "listen") {
            ReplCommand::Listen { all: list.len() > 1 && text_is(&list[1], "all") }
        } else if text_is(first, "send") {
            if list.len() < 3 {
                ReplCommand::SendUsage
            } else {
                proof {
                    reveal_strlit(" ");
                    assert(" "@ =~= seq![' ']);
                }
                ReplCommand::Send { short_name: list[1].clone(), message: join_by(&list, 2, " ") }
            }
        } else if text_is(first, "nodes") {
            ReplCommand::Nodes
        } else if text_is(first, "help") {
            ReplCommand::Help
        } else {
            ReplCommand::Unknown
        }
    }
}

/// Why no radio was chosen.
#[derive(Clone, Copy, Debug, PartialEq, Eq, Structural)]
pub enum DeviceError {
    /// No radio is in reach.
    NoDevices,
    /// Several radios are in reach.
    MultipleDevices,
}

impl DeviceError {
    /// The error in words.
    pub fn message(&self) -> (text: &'static str)
        ensures
            text@ == match *self {
                DeviceError::NoDevices => "No BLE devices found."@,
                DeviceError::MultipleDevices => "Multiple devices found, please specify one."@,
            },
    {
        match self {
            DeviceError::NoDevices => "No BLE devices found.",
            DeviceError::MultipleDevices => "Multiple devices found, please specify one.",
        }
    }
}

/// Chooses the radio to connect to among those in reach: the only one.
pub fn choose_device(names: Vec<String>) -> (result: Result<String, DeviceError>)
    ensures
        names@.len() == 0 ==> result == Err::<String, DeviceError>(DeviceError::NoDevices),
        names@.len() == 1 ==> result == Ok::<String, DeviceError>(names@[0]),
        names@.len() > 1 ==> result == Err::<String, DeviceError>(DeviceError::MultipleDevices),
{
    let mut names = names;
    if names.len() == 0 {
        Err(DeviceError::NoDevices)
    } else if names.len() == 1 {
        Ok(names.remove(0))
    } else {
        Err(DeviceError::MultipleDevices)
    }
}

/// What the tool's wait for the end of the boot phase makes of an event: as
/// the handle's wait does, but a cancellation ends it without an error.
pub open spec fn ready_wait(event: BootEvent, timeout_secs: u64) -> Option<Result<(), BootError>> {
    match event {
        BootEvent::Cancelled => Some(Ok(())),
        _ => boot_wait(event, timeout_secs),
    }
}

/// One turn of the tool's wait for the end of the boot phase.
pub fn wait_for_ready(event: BootEvent, timeout_secs: u64) -> (outcome: Option<
    Result<(), BootError>,
>)
    ensures
        outcome == ready_wait(event, timeout_secs),
{
    match event {
        BootEvent::Status(None) => Some(Err(BootError::ChannelClosed)),
        BootEvent::Status(Some(Status::Ready)) => Some(Ok(())),
        BootEvent::Status(Some(_)) => None,
        BootEvent::Cancelled => Some(Ok(())),
        BootEvent::Elapsed(secs) => {
            if secs >= timeout_secs {
                Some(Err(BootError::Timeout))
            } else {
                None
            }
        },
    }
}

/// What the tool does with a status while it listens.
#[derive(Debug, PartialEq, Eq)]
pub struct Heard {
    /// The line to print, if any.
    pub line: Option<String>,
    /// The text to send back, and the node to send it to, if any.
    pub reply: Option<(String, u32)>,
}

/// The view of an optional text.
pub open spec fn text_view(text: Option<String>) -> Option<Seq<char>> {
    match text {
        Some(t) => Some(t@),
        None => None,
    }
}

/// The view of an optional reply.
pub open spec fn reply_view(reply: Option<(String, u32)>) -> Option<(Seq<char>, u32)> {
    match reply {
        Some((t, node)) => Some((t@, node)),
        None => None,
    }
}

/// What the tool prints for a status, if anything: the line of a new or
/// updated message, and a word for `Ready` and for a heartbeat.
pub open spec fn heard_line(state: crate::state::StateView, status: Status) -> Option<Seq<char>> {
    match status {
        Status::Ready => Some("Ready"@),
        Status::NewMessage(id) => Some(
            message_line(state.nodes, state.my_node_num->0, state.messages[id]),
        ),
        Status::UpdatedMessage(id) => Some(
            message_line(state.nodes, state.my_node_num->0, state.messages[id]),
        ),
        Status::Heartbeat(_) => Some("Heartbeat."@),
        Status::FromRadio(_) => None,
    }
}

/// What the tool sends back for a status, if anything: a new message to this
/// radio is answered to its sender with `Got` and its text.
pub open spec fn heard_reply(state: crate::state::StateView, status: Status) -> Option<
    (Seq<char>, u32),
> {
    match status {
        Status::NewMessage(id) => {
            let msg: TextMessageView = state.messages[id];
            if state.my_node_num == Some(msg.to) {
                Some(("Got "@ + msg.text, msg.from))
            } else {
                None
            }
        },
        _ => None,
    }
}

/// Whether a status names a message.
pub open spec fn names_message(status: Status) -> Option<u32> {
    match status {
        Status::NewMessage(id) => Some(id),
        Status::UpdatedMessage(id) => Some(id),
        _ => None,
    }
}

/// Takes a status while listening.
pub fn listen(state: &HandlerState, status: &Status) -> (heard: Heard)
    requires
        state@.my_node_num is Some,
        names_message(*status) matches Some(id) ==> state@.messages.contains_key(id),
    ensures
        text_view(heard.line) == heard_line(state@, *status),
        reply_view(heard.reply) == heard_reply(state@, *status),
{
    match status {
        Status::Ready => Heard { line: Some(String::from_str("Ready")), reply: None },
        Status::NewMessage(id) => {
            match state.msg(*id) {
                Some(msg) => {
                    let line = state.format_msg(&msg);
                    let reply = if state.my_node_num() == msg.to {
                        let mut text = String::from_str("Got ");
                        text.append(msg.text.as_str());
                        Some((text, msg.from))
                    } else {
                        None
                    };
                    Heard { line: Some(line), reply }
                },
                None => Heard { line: None, reply: None },
            }
        },
        Status::UpdatedMessage(id) => {
            match state.msg(*id) {
                Some(msg) => Heard { line: Some(state.format_msg(&msg)), reply: None },
                None => Heard { line: None, reply: None },
            }
        },
        Status::Heartbeat(_) => Heard { line: Some(String::from_str("Heartbeat.")), reply: None },
        Status::FromRadio(_) => Heard { line: None, reply: None },
    }
}

} // verus!
