//! The command surface: what a line of input asks for, and what the node
//! does about it.

use crate::broadcast::{broadcast_message, FanOut};
use crate::peer::{ChatText, Envelope, PeerInfo};
use crate::registry::{lists, records};
use crate::text::{
    byte_len, str_byte_len, str_equal, strip_prefix, trim, trimmed, without_prefix,
};
use crate::walkie_talkie::WalkieTalkie;
use vstd::prelude::*;
use vstd::string::StrSliceExecFns;

verus! {

/// The longest input, in bytes of UTF-8, that is taken as a command.
pub const MAX_INPUT_BYTES: usize = 512;

/// What a line of input asks for.
#[derive(Debug)]
pub enum Command {
    /// The line is blank.
    Empty,
    /// The line takes more than 512 bytes.
    TooLong,
    /// `/quit`: leave the network.
    Quit,
    /// `/list`: show the known peers.
    List,
    /// `/msg <text>`, or any other text: send it to every known peer.
    Say(String),
}

/// A command as a mathematical value.
pub enum CommandView {
    Empty,
    TooLong,
    Quit,
    List,
    Say(Seq<char>),
}

impl View for Command {
    type V = CommandView;

    open spec fn view(&self) -> CommandView {
        match self {
            Command::Empty => CommandView::Empty,
            Command::TooLong => CommandView::TooLong,
            Command::Quit => CommandView::Quit,
            Command::List => CommandView::List,
            Command::Say(text) => CommandView::Say(text@),
        }
    }
}

/// What the line `line` asks for. The whitespace around it does not count.
pub open spec fn command_of(line: Seq<char>) -> CommandView {
    let input = trimmed(line);
    if input.len() == 0 {
        CommandView::Empty
    } else if byte_len(input) > MAX_INPUT_BYTES {
        CommandView::TooLong
    } else if input == "/quit"@ {
        CommandView::Quit
    } else if input == "/list"@ {
        CommandView::List
    } else {
        match without_prefix(input, "/msg "@) {
            Some(text) => CommandView::Say(text),
            None => CommandView::Say(input),
        }
    }
}

/// Reads one line of input as a command.
pub fn parse_command(line: &str) -> (command: Command)
    ensures
        command@ == command_of(line@),
{
    let input = trim(line);
    if input.unicode_len() == 0 {
        Command::Empty
    } else if str_byte_len(input) > MAX_INPUT_BYTES {
        Command::TooLong
    } else if str_equal(input, "/quit") {
        Command::Quit
    } else if str_equal(input, "/list") {
        Command::List
    } else {
        match strip_prefix(input, "/msg ") {
            Some(text) => Command::Say(text.to_owned()),
            None => Command::Say(input.to_owned()),
        }
    }
}

/// What the command loop does next.
pub enum CliStep {
    /// The input has ended: leave the loop.
    Stop,
    /// Nothing to do: ask for the next line.
    Prompt,
    /// Tell the user that the input is too long, then ask for the next line.
    Reject,
    /// Show these peers, then ask for the next line.
    Show(Vec<PeerInfo>),
    /// Run this fan-out of a chat message, then ask for the next line.
    Send(FanOut),
    /// Leave the network: shut the node down.
    Leave,
}

/// Decides what the command loop of the node `wt` does about one read from
/// its input: `None` stands for the end of the input, `timestamp` is the time
/// of the read in seconds since the Unix epoch.
pub fn start_cli_handler(wt: &WalkieTalkie, line: Option<&str>, timestamp: u64) -> (step: CliStep)
    requires
        wt.wf(),
    ensures
        match step {
            CliStep::Stop => line is None,
            CliStep::Prompt => line is Some && command_of(line->0@) is Empty,
            CliStep::Reject => line is Some && command_of(line->0@) is TooLong,
            CliStep::Show(list) => line is Some && command_of(line->0@) is List && lists(
                records(list@),
                wt.peers@,
            ),
            CliStep::Send(run) => {
                &&& line is Some
                &&& command_of(line->0@) matches CommandView::Say(text)
                &&& run.message() == Envelope::Chat(
                    ChatText { from_id: wt.peer_id@, from_name: wt.name@, content: text, timestamp },
                )
                &&& run.wf()
                &&& lists(run.targets(), wt.peers@)
                &&& run.skipped().len() == 0
                &&& run.attempts() == 0
                &&& run.delivered() == 0
            },
            CliStep::Leave => line is Some && command_of(line->0@) is Quit,
        },
{
    let line = match line {
        Some(line) => line,
        None => {
            return CliStep::Stop;
        },
    };
    match parse_command(line) {
        Command::Empty => CliStep::Prompt,
        Command::TooLong => CliStep::Reject,
        Command::Quit => CliStep::Leave,
        Command::List => CliStep::Show(wt.list()),
        Command::Say(text) => CliStep::Send(broadcast_message(wt, text.as_str(), timestamp)),
    }
}

} // verus!
