//! The command dispatcher of the interactive mode: what each line asks for,
//! when the loop ends, and what is shown.

use crate::error::{described, Error, ErrorView};
use crate::help::{help_text, lines_view, push_help, push_line};
use crate::method::{from_token, method_for_token, Method};
use crate::text::{chars_of, contains_text, holds, spells};
use crate::wire::{exchange_view, responses_view, Response, ResponseView};
use vstd::prelude::*;
use vstd::string::*;

verus! {

/// What a line asks for.
#[derive(Clone, Copy, Debug, PartialEq, Eq, Structural)]
pub enum Command {
    /// Send a request for the method.
    Send(Method),
    /// Leave the loop.
    Quit,
    /// Show the summary of commands.
    Help,
    /// Look for messages that the server sent unasked.
    Poll,
    /// Nothing that the client knows.
    Invalid,
}

/// What the line source hands over.
#[derive(Clone, Debug, PartialEq, Eq)]
pub enum Input {
    /// A line, without its end of line.
    Line(String),
    /// The user interrupted the line source.
    Interrupted,
    /// The line source has come to its end.
    Ended,
    /// The line source failed; the message says how.
    Failed(String),
}

/// Why the loop ends.
#[derive(Clone, Debug, PartialEq, Eq)]
pub enum Notice {
    Quit,
    Interrupted,
    Ended,
    Failed(String),
}

/// What the owner of the loop is to do next.
#[derive(Clone, Debug, PartialEq, Eq)]
pub enum Action {
    /// Send a request for the method and show what comes back.
    Send(Method),
    /// Receive without sending, and show what was there.
    Poll,
    /// Show the summary of commands.
    Help,
    /// Say that the command is invalid, and show the summary.
    Invalid,
    /// Leave the loop.
    Stop(Notice),
}

/// A `Notice` as contracts see it.
pub enum NoticeView {
    Quit,
    Interrupted,
    Ended,
    Failed(Seq<char>),
}

/// An `Action` as contracts see it.
pub enum ActionView {
    Send(Method),
    Poll,
    Help,
    Invalid,
    Stop(NoticeView),
}

impl View for Notice {
    type V = NoticeView;

    open spec fn view(&self) -> NoticeView {
        match self {
            Notice::Quit => NoticeView::Quit,
            Notice::Interrupted => NoticeView::Interrupted,
            Notice::Ended => NoticeView::Ended,
            Notice::Failed(message) => NoticeView::Failed(message@),
        }
    }
}

impl View for Action {
    type V = ActionView;

    open spec fn view(&self) -> ActionView {
        match self {
            Action::Send(m) => ActionView::Send(*m),
            Action::Poll => ActionView::Poll,
            Action::Help => ActionView::Help,
            Action::Invalid => ActionView::Invalid,
            Action::Stop(notice) => ActionView::Stop(notice@),
        }
    }
}

/// What a line asks for. A token that selects a method sends it; `quit`,
/// `exit`, `q` and `x` leave; `help`, `h` and `?` show the summary; of the
/// other lines, the empty one and those that hold `check` or `res` look for
/// messages; every other line is invalid. The two words are looked for
/// anywhere in the line, so `restart` and `unchecked` look for messages
/// too. The rule is loose on purpose and is not meant to grow.
pub open spec fn command_for(line: Seq<char>) -> Command {
    match method_for_token(line) {
        Some(m) => Command::Send(m),
        None => {
            if line == "quit"@ || line == "exit"@ || line == "q"@ || line == "x"@ {
                Command::Quit
            } else if line == "help"@ || line == "h"@ || line == "?"@ {
                Command::Help
            } else if line.len() == 0 || contains_text(line, "check"@) || contains_text(
                line,
                "res"@,
            ) {
                Command::Poll
            } else {
                Command::Invalid
            }
        },
    }
}

/// What the line asks for.
pub fn classify(line: &str) -> (command: Command)
    ensures
        command == command_for(line@),
{
    match from_token(line) {
        Some(m) => Command::Send(m),
        None => {
            let chars = chars_of(line);
            let l = chars.as_slice();
            if spells(l, "quit") || spells(l, "exit") || spells(l, "q") || spells(l, "x") {
                Command::Quit
            } else if spells(l, "help") || spells(l, "h") || spells(l, "?") {
                Command::Help
            } else if l.len() == 0 || holds(l, "check") || holds(l, "res") {
                Command::Poll
            } else {
                Command::Invalid
            }
        },
    }
}

/// The dispatcher of one interactive session. It holds the shutdown flag:
/// unset while the loop runs, set when the loop has ended.
#[derive(Debug)]
pub struct Dispatcher {
    stopped: bool,
}

impl View for Dispatcher {
    type V = bool;

    closed spec fn view(&self) -> bool {
        self.stopped
    }
}

/// The flag after an input, and the action that the input asks for. Once the
/// flag is set every input only confirms the stop. While it is unset, a
/// line asks for what its command says, and the flag is set by a command to
/// quit and by an input that is no line.
pub open spec fn stepped(stopped: bool, input: Input) -> (bool, ActionView) {
    if stopped {
        (true, ActionView::Stop(NoticeView::Quit))
    } else {
        match input {
            Input::Line(line) => match command_for(line@) {
                Command::Send(m) => (false, ActionView::Send(m)),
                Command::Poll => (false, ActionView::Poll),
                Command::Help => (false, ActionView::Help),
                Command::Invalid => (false, ActionView::Invalid),
                Command::Quit => (true, ActionView::Stop(NoticeView::Quit)),
            },
            Input::Interrupted => (true, ActionView::Stop(NoticeView::Interrupted)),
            Input::Ended => (true, ActionView::Stop(NoticeView::Ended)),
            Input::Failed(message) => (true, ActionView::Stop(NoticeView::Failed(message@))),
        }
    }
}

impl Dispatcher {
    /// The dispatcher of a session that is about to start.
    pub fn new() -> (dispatcher: Dispatcher)
        ensures
            !dispatcher@,
    {
        Dispatcher { stopped: false }
    }

    /// Whether the shutdown flag is set.
    pub fn is_stopped(&self) -> (stopped: bool)
        ensures
            stopped == self@,
    {
        self.stopped
    }

    /// Takes what the line source handed over, and says what to do next.
    pub fn step(&mut self, input: Input) -> (action: Action)
        ensures
            (final(self)@, action@) == stepped(old(self)@, input),
    {
        if self.stopped {
            return Action::Stop(Notice::Quit);
        }
        match input {
            Input::Line(line) => match classify(line.as_str()) {
                Command::Send(m) => Action::Send(m),
                Command::Poll => Action::Poll,
                Command::Help => Action::Help,
                Command::Invalid => Action::Invalid,
                Command::Quit => {
                    self.stopped = true;
                    Action::Stop(Notice::Quit)
                },
            },
            Input::Interrupted => {
                self.stopped = true;
                Action::Stop(Notice::Interrupted)
            },
            Input::Ended => {
                self.stopped = true;
                Action::Stop(Notice::Ended)
            },
            Input::Failed(message) => {
                self.stopped = true;
                Action::Stop(Notice::Failed(message))
            },
        }
    }
}

/// The prompt of the interactive mode, which also introduces what the
/// client itself says.
pub open spec fn prompt_text() -> Seq<char> {
    "json-rpc-client>> "@
}

/// The prompt of the interactive mode.
pub fn prompt() -> (text: &'static str)
    ensures
        text@ == prompt_text(),
{
    "json-rpc-client>> "
}

/// The line that says why the loop ends; none where the user asked for it.
pub open spec fn notice_lines(notice: NoticeView) -> Seq<Seq<char>> {
    match notice {
        NoticeView::Quit => Seq::empty(),
        NoticeView::Interrupted => seq!["CTRL-C"@],
        NoticeView::Ended => seq!["CTRL-D"@],
        NoticeView::Failed(message) => seq!["Error: "@ + message],
    }
}

/// What is shown for an action before it is carried out. Sending and
/// polling show nothing of their own; an invalid command is named as such
/// and answered with the summary; leaving shows the notice and then says
/// that the client shuts down.
pub open spec fn announced(action: ActionView) -> Seq<Seq<char>> {
    match action {
        ActionView::Send(_) => Seq::empty(),
        ActionView::Poll => Seq::empty(),
        ActionView::Help => help_text(),
        ActionView::Invalid => seq!["Invalid command"@] + help_text(),
        ActionView::Stop(notice) => notice_lines(notice).push(prompt_text() + "Shutting down"@),
    }
}

/// The lines to show for the action, from top to bottom.
pub fn announce(action: &Action) -> (lines: Vec<String>)
    ensures
        lines_view(lines@) == announced(action@),
{
    let mut lines: Vec<String> = Vec::new();
    match action {
        Action::Send(_) => {},
        Action::Poll => {},
        Action::Help => {
            push_help(&mut lines);
        },
        Action::Invalid => {
            push_line(&mut lines, "Invalid command");
            push_help(&mut lines);
        },
        Action::Stop(notice) => {
            match notice {
                Notice::Quit => {},
                Notice::Interrupted => {
                    push_line(&mut lines, "CTRL-C");
                },
                Notice::Ended => {
                    push_line(&mut lines, "CTRL-D");
                },
                Notice::Failed(message) => {
                    let line = String::from_str("Error: ").concat(message.as_str());
                    push_line(&mut lines, line.as_str());
                },
            }
            let last = String::from_str(prompt()).concat("Shutting down");
            push_line(&mut lines, last.as_str());
        },
    }
    lines
}

/// The line that shows one message of the server.
pub open spec fn message_line(response: ResponseView) -> Seq<char> {
    prompt_text() + "Server message:\n"@ + response.text
}

/// The lines that show the messages of the server, one for each, in their
/// order.
pub open spec fn message_lines(responses: Seq<ResponseView>) -> Seq<Seq<char>> {
    responses.map_values(|r: ResponseView| message_line(r))
}

/// What is shown after a send: the messages that came back, or the failure.
pub open spec fn send_reported(outcome: Result<Seq<ResponseView>, ErrorView>) -> Seq<Seq<char>> {
    match outcome {
        Ok(responses) => message_lines(responses),
        Err(e) => seq![described(e)],
    }
}

/// What is shown after a poll: the messages that were there. A poll that
/// failed shows nothing, as one that found nothing.
pub open spec fn poll_reported(outcome: Result<Seq<ResponseView>, ErrorView>) -> Seq<Seq<char>> {
    match outcome {
        Ok(responses) => message_lines(responses),
        Err(_) => Seq::empty(),
    }
}

/// The lines that show the messages, one for each, in their order.
pub fn show_messages(responses: &Vec<Response>) -> (lines: Vec<String>)
    ensures
        lines_view(lines@) == message_lines(responses_view(responses@)),
{
    let ghost all = message_lines(responses_view(responses@));
    let mut lines: Vec<String> = Vec::new();
    let mut i: usize = 0;
    while i < responses.len()
        invariant
            i <= responses.len(),
            all == message_lines(responses_view(responses@)),
            lines_view(lines@) == all.take(i as int),
        decreases responses.len() - i,
    {
        let line = String::from_str(prompt()).concat("Server message:\n").concat(
            responses[i].text.as_str(),
        );
        lines.push(line);
        assert(all.take(i + 1) == all.take(i as int).push(message_line(responses@[i as int]@)));
        i += 1;
    }
    lines
}

/// The lines to show after a send.
pub fn report_send(outcome: &Result<Vec<Response>, Error>) -> (lines: Vec<String>)
    ensures
        lines_view(lines@) == send_reported(exchange_view(*outcome)),
{
    match outcome {
        Ok(responses) => show_messages(responses),
        Err(e) => {
            let mut lines: Vec<String> = Vec::new();
            let shown = e.describe();
            push_line(&mut lines, shown.as_str());
            lines
        },
    }
}

/// The lines to show after a poll.
pub fn report_poll(outcome: &Result<Vec<Response>, Error>) -> (lines: Vec<String>)
    ensures
        lines_view(lines@) == poll_reported(exchange_view(*outcome)),
{
    match outcome {
        Ok(responses) => show_messages(responses),
        Err(_) => Vec::new(),
    }
}

/// The exit status of a single send: 0 where at least one message came
/// back, 1 where none did or the send failed.
pub open spec fn exit_status_for(outcome: Result<Seq<ResponseView>, ErrorView>) -> u8 {
    match outcome {
        Ok(responses) if responses.len() > 0 => 0,
        _ => 1,
    }
}

/// The exit status of a single send.
pub fn exit_status(outcome: &Result<Vec<Response>, Error>) -> (status: u8)
    ensures
        status == exit_status_for(exchange_view(*outcome)),
{
    match outcome {
        Ok(responses) => {
            if responses.len() > 0 {
                0
            } else {
                1
            }
        },
        Err(_) => 1,
    }
}

/// The flag is set exactly when the loop is told to leave, and once set it
/// stays set: after the stop no input asks for a request or a poll.
pub proof fn lemma_stop_is_final(stopped: bool, input: Input)
    ensures
        stepped(stopped, input).0 <==> stepped(stopped, input).1 is Stop,
        stopped ==> stepped(stopped, input).0,
{
}

/// Only a line sends a request, and only one whose whole text is a token
/// that selects a method: the request is for that method.
pub proof fn lemma_only_tokens_send(input: Input, m: Method)
    ensures
        stepped(false, input).1 == ActionView::Send(m) <==> (input matches Input::Line(line)
            && method_for_token(line@) == Some(m)),
{
}

} // verus!
