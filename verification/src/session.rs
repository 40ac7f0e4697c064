//! The decision logic of an interactive chat session. The surrounding
//! program owns the terminal and the network; this module decides what a
//! line of input means, how a finished provider round trip changes the
//! conversation history, and how a turn advances through tool calls —
//! with a hard bound on the tool-call chain, so a turn cannot loop
//! forever.

use vstd::prelude::*;
use vstd::string::StringExecFns;
use crate::json::{str_eq, Json};
use crate::registry::{dispatch_post, DispatchError, Registry};

verus! {

/// Who said a message.
#[derive(Clone, Copy, Debug, PartialEq, Eq, Structural)]
pub enum Role {
    User,
    Assistant,
}

/// One entry of the conversation history.
#[derive(Clone, Debug)]
pub struct Message {
    pub role: Role,
    pub content: String,
}

/// The spec-level reading of a message: its role and its characters.
pub struct MessageView {
    pub role: Role,
    pub content: Seq<char>,
}

impl View for Message {
    type V = MessageView;

    open spec fn view(&self) -> MessageView {
        MessageView { role: self.role, content: self.content@ }
    }
}

/// The spec-level reading of a history.
pub open spec fn history_view(h: Seq<Message>) -> Seq<MessageView> {
    h.map_values(|m: Message| m@)
}

/// A completion-provider failure, as the driver reports it to the user.
#[derive(Clone, Debug)]
pub struct ProviderError {
    pub message: String,
}

/// The command a trimmed input line encodes: `exit` ends the session,
/// `clear` resets the history, anything else is a chat turn.
#[derive(Clone, Copy, Debug, PartialEq, Eq, Structural)]
pub enum Command {
    Exit,
    Clear,
    Chat,
}

pub open spec fn classify_spec(line: Seq<char>) -> Command {
    if line == "exit"@ {
        Command::Exit
    } else if line == "clear"@ {
        Command::Clear
    } else {
        Command::Chat
    }
}

/// Reads a trimmed input line as a session command.
pub fn classify_input(line: &str) -> (c: Command)
    ensures
        c == classify_spec(line@),
{
    if str_eq(line, "exit") {
        Command::Exit
    } else if str_eq(line, "clear") {
        Command::Clear
    } else {
        Command::Chat
    }
}

/// Handles one input line short of the provider round trip: on `clear`
/// the history is reset to empty — whatever its length — and no
/// provider call is owed; on `exit` and on a chat line the history is
/// untouched, and the returned command tells the driver whether to stop
/// or to send the line.
pub fn handle_line(history: &mut Vec<Message>, line: &str) -> (c: Command)
    ensures
        c == classify_spec(line@),
        c == Command::Clear ==> final(history)@ == Seq::<Message>::empty(),
        c != Command::Clear ==> final(history)@ == old(history)@,
{
    let c = classify_input(line);
    if c == Command::Clear {
        history.clear();
    }
    c
}

/// Applies a finished provider round trip to the history: a successful
/// turn appends the user's message and then the assistant's reply; a
/// failed turn leaves the history exactly as it was — the failed turn
/// never shows up in it, and the session can continue.
pub fn apply_turn(history: &mut Vec<Message>, input: &str, reply: &Result<String, ProviderError>)
    ensures
        match reply {
            Result::Ok(text) => history_view(final(history)@) =~= history_view(old(history)@)
                + seq![
                MessageView { role: Role::User, content: input@ },
                MessageView { role: Role::Assistant, content: text@ },
            ],
            Result::Err(_) => final(history)@ == old(history)@,
        },
{
    match reply {
        Result::Ok(text) => {
            history.push(Message { role: Role::User, content: String::from_str(input) });
            history.push(Message { role: Role::Assistant, content: text.clone() });
        },
        Result::Err(_) => {},
    }
}

/// How many tool invocations one turn may chain before it is failed
/// rather than allowed to loop forever.
pub const MAX_TOOL_CALLS: u32 = 8;

/// What the completion provider answered within a turn: final text, or
/// a request to invoke a named tool with a JSON payload.
#[derive(Debug)]
pub enum ModelReply {
    Final(String),
    ToolCall { name: String, args: Json },
}

/// Why a turn failed.
#[derive(Debug)]
pub enum TurnError {
    Provider(ProviderError),
    Dispatch(DispatchError),
    ToolChainExceeded,
}

/// What the driver must do next within a turn: show the final text,
/// feed a tool result back to the provider, or report a failure.
#[derive(Debug)]
pub enum TurnStep {
    Respond(String),
    FeedToolResult(Json),
    Fail(TurnError),
}

/// Progress of one turn: how many tool calls it has made so far.
#[derive(Clone, Copy, Debug, PartialEq, Eq, Structural)]
pub struct TurnState {
    pub calls_made: u32,
}

impl TurnState {
    /// A turn that has not called any tool yet.
    pub fn start() -> (s: TurnState)
        ensures
            s.calls_made == 0,
    {
        TurnState { calls_made: 0 }
    }
}

/// Advances a turn on one provider answer. A provider error fails the
/// turn with the history-preserving provider failure; final text ends
/// the turn; a tool request past the chain bound fails the turn rather
/// than looping, and otherwise is dispatched, its result or its
/// dispatch failure handed back to the driver.
pub fn turn_on_reply(
    registry: &Registry,
    st: &mut TurnState,
    reply: Result<ModelReply, ProviderError>,
) -> (step: TurnStep)
    ensures
        match reply {
            Result::Err(e) => *final(st) == *old(st) && step == TurnStep::Fail(
                TurnError::Provider(e),
            ),
            Result::Ok(m) => match m {
                ModelReply::Final(text) => *final(st) == *old(st) && step == TurnStep::Respond(
                    text,
                ),
                ModelReply::ToolCall { name, args } => if old(st).calls_made >= MAX_TOOL_CALLS {
                    *final(st) == *old(st) && step == TurnStep::Fail(TurnError::ToolChainExceeded)
                } else {
                    &&& final(st).calls_made == old(st).calls_made + 1
                    &&& match step {
                        TurnStep::FeedToolResult(j) => dispatch_post(
                            registry.registered(),
                            name@,
                            args,
                            Ok(j),
                        ),
                        TurnStep::Fail(TurnError::Dispatch(e)) => dispatch_post(
                            registry.registered(),
                            name@,
                            args,
                            Err(e),
                        ),
                        _ => false,
                    }
                },
            },
        },
{
    match reply {
        Result::Err(e) => TurnStep::Fail(TurnError::Provider(e)),
        Result::Ok(ModelReply::Final(text)) => TurnStep::Respond(text),
        Result::Ok(ModelReply::ToolCall { name, args }) => {
            if st.calls_made >= MAX_TOOL_CALLS {
                TurnStep::Fail(TurnError::ToolChainExceeded)
            } else {
                st.calls_made = st.calls_made + 1;
                match registry.dispatch(name.as_str(), &args) {
                    Result::Ok(j) => TurnStep::FeedToolResult(j),
                    Result::Err(e) => TurnStep::Fail(TurnError::Dispatch(e)),
                }
            }
        },
    }
}

} // verus!
