//! What the bulletin board shows on its display while it runs, and which
//! messages it takes for commands.

use vstd::prelude::*;
use vstd::string::StringExecFns;

use crate::codec::hex_encode;
use crate::codec::hex_lower;
use crate::events::Status;
use crate::state::HandlerState;
use crate::text::decimal;
use crate::text::to_decimal;
use crate::types::TextMessage;

verus! {

/// Number of frames of the spinner.
pub const SPINNER_FRAMES: usize = 12;

/// The display row of the first answer to a command.
pub const ANSWER_ROW: usize = 3;

/// The frames of the spinner that shows that the board is alive, in order:
/// twelve of them, after which they begin again.
pub open spec fn spinner_frame(i: usize) -> Seq<char> {
    match i {
        0 => "⣾"@,
        1 => "⣽"@,
        2 => "⣻"@,
        3 => "⢿"@,
        4 => "⡿"@,
        5 => "⣟"@,
        6 => "⣯"@,
        7 => "⣷"@,
        8 => "⣾"@,
        9 => "⣽"@,
        10 => "⣻"@,
        _ => "⢿"@,
    }
}

/// A frame of the spinner.
pub fn spinner(i: usize) -> (frame: &'static str)
    requires
        i < SPINNER_FRAMES,
    ensures
        frame@ == spinner_frame(i),
{
    if i == 0 {
        "⣾"
    } else if i == 1 {
        "⣽"
    } else if i == 2 {
        "⣻"
    } else if i == 3 {
        "⢿"
    } else if i == 4 {
        "⡿"
    } else if i == 5 {
        "⣟"
    } else if i == 6 {
        "⣯"
    } else if i == 7 {
        "⣷"
    } else if i == 8 {
        "⣾"
    } else if i == 9 {
        "⣽"
    } else if i == 10 {
        "⣻"
    } else {
        "⢿"
    }
}

/// The line that shows the packet count behind a frame of the spinner.
pub open spec fn stats_text(frame: Seq<char>, packet_count: u64) -> Seq<char> {
    "Stats "@ + frame + " "@ + decimal(packet_count as nat) + " "@
}

/// What the board shows in a row of its display.
#[derive(Debug, PartialEq, Eq)]
pub struct Show {
    pub row: usize,
    pub text: String,
}

/// A text message that the board takes for a command.
#[derive(Debug)]
pub struct Request {
    /// The node that sent it, to which the answers go.
    pub from: u32,
    /// The name under which the sender is known; `?` for an unknown sender.
    pub short_name: String,
    pub pk_hash: [u8; 32],
    pub text: String,
}

/// The board's display state.
pub struct Front {
    spinner: usize,
    packet_count: u64,
}

impl Front {
    /// The spinner stands at one of its frames.
    pub closed spec fn wf(&self) -> bool {
        self.spinner < SPINNER_FRAMES
    }

    /// The frame that the spinner stands at.
    pub closed spec fn frame(&self) -> usize {
        self.spinner
    }

    /// Number of packets seen so far.
    pub closed spec fn packets(&self) -> u64 {
        self.packet_count
    }

    pub fn new() -> (front: Self)
        ensures
            front.wf(),
            front.frame() == 0,
            front.packets() == 0,
    {
        Front { spinner: 0, packet_count: 0 }
    }

    /// Number of packets seen so far.
    pub fn packet_count(&self) -> (count: u64)
        ensures
            count == self.packets(),
    {
        self.packet_count
    }

    /// Takes a status of the connection. A packet is counted; a heartbeat
    /// shows the count behind the current frame of the spinner, in the top
    /// row, and turns the spinner on.
    pub fn on_status(&mut self, status: &Status) -> (show: Option<Show>)
        requires
            old(self).wf(),
            status is FromRadio ==> old(self).packets() < u64::MAX,
        ensures
            final(self).wf(),
            final(self).packets() == old(self).packets() + (if status is FromRadio {
                1int
            } else {
                0int
            }),
            final(self).frame() == (if status is Heartbeat {
                (old(self).frame() + 1) % (SPINNER_FRAMES as int)
            } else {
                old(self).frame() as int
            }),
            show is Some <==> status is Heartbeat,
            show matches Some(line) ==> line.row == 0 && line.text@ == stats_text(
                spinner_frame(old(self).frame()),
                old(self).packets(),
            ),
    {
        match status {
            Status::FromRadio(_) => {
                self.packet_count = self.packet_count + 1;
                None
            },
            Status::Heartbeat(_) => {
                let text = stats_line(spinner(self.spinner), self.packet_count);
                self.spinner = (self.spinner + 1) % SPINNER_FRAMES;
                Some(Show { row: 0, text })
            },
            _ => None,
        }
    }
}

/// The line that shows the packet count behind a frame of the spinner.
pub fn stats_line(frame: &str, packet_count: u64) -> (line: String)
    ensures
        line@ == stats_text(frame@, packet_count),
{
    let mut line = String::from_str("Stats ");
    line.append(frame);
    line.append(" ");
    let count = to_decimal(packet_count);
    line.append(count.as_str());
    line.append(" ");
    line
}

/// The line that shows which radio the board connects to.
pub fn connect_line(ble_device: &str) -> (line: String)
    ensures
        line@ == "Connect "@ + ble_device@ + "..."@,
{
    let mut line = String::from_str("Connect ");
    line.append(ble_device);
    line.append("...");
    line
}

/// The command that a newly tracked message carries for the board: the
/// message itself where it is addressed to this radio, with the name of its
/// sender; nothing for a message to anyone else.
pub fn request_of(state: &HandlerState, msg: &TextMessage) -> (request: Option<Request>)
    requires
        state@.my_node_num is Some,
    ensures
        request is Some <==> Some(msg@.to) == state@.my_node_num,
        request matches Some(r) ==> r.from == msg@.from && r.text@ == msg@.text && r.pk_hash@
            == msg@.pk_hash && r.short_name@ == (if state@.nodes.contains_key(msg@.from) {
            state@.nodes[msg@.from].long_name
        } else {
            "?"@
        }),
{
    if msg.to != state.my_node_num() {
        return None;
    }
    let short_name = match state.get_short_name_by_node_id(msg.from) {
        Some(name) => name,
        None => String::from_str("?"),
    };
    Some(Request { from: msg.from, short_name, pk_hash: msg.pk_hash, text: msg.text.clone() })
}

/// The line that shows who sent a command: the name and the key hash in
/// base sixteen.
pub fn sender_line(short_name: &str, pk_hash: &[u8; 32]) -> (line: String)
    ensures
        line@ == short_name@ + ":"@ + hex_lower(pk_hash@),
{
    let mut line = String::from_str(short_name);
    line.append(":");
    let hash = hex_encode(pk_hash.as_slice());
    line.append(hash.as_str());
    line
}

/// The line that shows a command.
pub fn request_line(text: &str) -> (line: String)
    ensures
        line@ == "> "@ + text@,
{
    let mut line = String::from_str("> ");
    line.append(text);
    line
}

/// The line that shows an answer.
pub fn response_line(text: &str) -> (line: String)
    ensures
        line@ == "< "@ + text@,
{
    let mut line = String::from_str("< ");
    line.append(text);
    line
}

/// What the board shows of a command and its answers: the sender in row 1,
/// the command in row 2, the answers from row 3 on.
pub fn exchange(request: &Request, answers: &Vec<String>) -> (shows: Vec<Show>)
    requires
        answers.len() <= usize::MAX - ANSWER_ROW,
    ensures
        shows@.len() == answers@.len() + 2,
        shows@[0].row == 1 && shows@[0].text@ == request.short_name@ + ":"@ + hex_lower(
            request.pk_hash@,
        ),
        shows@[1].row == 2 && shows@[1].text@ == "> "@ + request.text@,
        forall|n: int|
            0 <= n < answers@.len() ==> (#[trigger] shows@[n + 2]).row == ANSWER_ROW + n
                && shows@[n + 2].text@ == "< "@ + answers@[n]@,
{
    let mut shows: Vec<Show> = Vec::new();
    shows.push(Show { row: 1, text: sender_line(request.short_name.as_str(), &request.pk_hash) });
    shows.push(Show { row: 2, text: request_line(request.text.as_str()) });
    let mut n: usize = 0;
    while n < answers.len()
        invariant
            n <= answers.len(),
            answers.len() <= usize::MAX - ANSWER_ROW,
            shows@.len() == n + 2,
            shows@[0].row == 1 && shows@[0].text@ == request.short_name@ + ":"@ + hex_lower(
                request.pk_hash@,
            ),
            shows@[1].row == 2 && shows@[1].text@ == "> "@ + request.text@,
            forall|k: int|
                0 <= k < n ==> (#[trigger] shows@[k + 2]).row == ANSWER_ROW + k && shows@[k
                    + 2].text@ == "< "@ + answers@[k]@,
        decreases answers.len() - n,
    {
        shows.push(Show { row: ANSWER_ROW + n, text: response_line(answers[n].as_str()) });
        n = n + 1;
    }
    shows
}

} // verus!
