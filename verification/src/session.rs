//! What a handler asks the outside world to do, and what comes back.
//!
//! A handler is a state machine: it is started with its arguments, answers with an
//! [`Action`], and is resumed with the [`Event`] that performing the action produced,
//! until it answers [`Action::Finish`].
use vstd::prelude::*;
use crate::json::{json_document, parse_document, JsonValue};
use crate::text::strings_view;

verus! {

/// The next thing a handler needs done.
#[derive(Debug)]
pub enum Action {
    /// Send this request over Hyprland's command socket and hand back the
    /// reply as a JSON document ([`Event::Reply`]).
    Query(String),
    /// Send these commands over the command socket without waiting for a
    /// reply; several go as one batch ([`Event::Sent`]).
    Dispatch(Vec<String>),
    /// Start this program and let it run ([`Event::Sent`]).
    Launch(String),
    /// Run this program with these arguments to its end and hand back its
    /// standard output ([`Event::Output`]).
    Run(String, Vec<String>),
    /// Start this program with these arguments in the background, without
    /// waiting for it or its outcome ([`Event::Sent`]). The daemon builds this
    /// start but never awaits it, so the program is not started.
    Notify(String, Vec<String>),
    /// The handler is done; this is its answer.
    Finish(Result<String, String>),
}

/// An [`Action`] with its strings seen as character sequences.
pub enum ActionView {
    Query(Seq<char>),
    Dispatch(Seq<Seq<char>>),
    Launch(Seq<char>),
    Run(Seq<char>, Seq<Seq<char>>),
    Notify(Seq<char>, Seq<Seq<char>>),
    Finish(Result<Seq<char>, Seq<char>>),
}

/// The kinds of [`Event`].
#[derive(Debug)]
pub enum Awaiting {
    Reply,
    Sent,
    Output,
}

/// What performing an [`Action`] produced.
#[derive(Debug)]
pub enum Event {
    /// The reply to [`Action::Query`]: the text that the socket answered, or the
    /// message of the error that sending or receiving met.
    Reply(Result<String, String>),
    /// The outcome of [`Action::Dispatch`], [`Action::Launch`] or [`Action::Notify`].
    Sent(Result<(), String>),
    /// The standard output of [`Action::Run`], or the message of its failure.
    Output(Result<String, String>),
}

/// An [`Event`] with its strings seen as character sequences.
pub enum EventView {
    Reply(Result<Seq<char>, Seq<char>>),
    Sent(Result<(), Seq<char>>),
    Output(Result<Seq<char>, Seq<char>>),
}

/// The characters of a result whose both sides are strings.
pub open spec fn result_view(r: Result<String, String>) -> Result<Seq<char>, Seq<char>> {
    match r {
        Ok(s) => Ok(s@),
        Err(e) => Err(e@),
    }
}

impl View for Action {
    type V = ActionView;

    open spec fn view(&self) -> ActionView {
        match self {
            Action::Query(q) => ActionView::Query(q@),
            Action::Dispatch(c) => ActionView::Dispatch(strings_view(c@)),
            Action::Launch(p) => ActionView::Launch(p@),
            Action::Run(p, a) => ActionView::Run(p@, strings_view(a@)),
            Action::Notify(p, a) => ActionView::Notify(p@, strings_view(a@)),
            Action::Finish(r) => ActionView::Finish(result_view(*r)),
        }
    }
}

impl View for Event {
    type V = EventView;

    open spec fn view(&self) -> EventView {
        match self {
            Event::Reply(r) => EventView::Reply(result_view(*r)),
            Event::Sent(Ok(())) => EventView::Sent(Ok(())),
            Event::Sent(Err(e)) => EventView::Sent(Err(e@)),
            Event::Output(r) => EventView::Output(result_view(*r)),
        }
    }
}

impl ActionView {
    /// The kind of event that answers this action; `None` for `Finish`.
    pub open spec fn answer(self) -> Option<Awaiting> {
        match self {
            ActionView::Query(_) => Some(Awaiting::Reply),
            ActionView::Dispatch(_) => Some(Awaiting::Sent),
            ActionView::Launch(_) => Some(Awaiting::Sent),
            ActionView::Run(_, _) => Some(Awaiting::Output),
            ActionView::Notify(_, _) => Some(Awaiting::Sent),
            ActionView::Finish(_) => None,
        }
    }
}

impl EventView {
    /// The kind of this event.
    pub open spec fn kind(self) -> Awaiting {
        match self {
            EventView::Reply(_) => Awaiting::Reply,
            EventView::Sent(_) => Awaiting::Sent,
            EventView::Output(_) => Awaiting::Output,
        }
    }
}

/// The action that sends `commands` and then answers `reply`; where there is
/// no command to send, the answer comes at once.
pub open spec fn plan_action(commands: Seq<Seq<char>>, reply: Seq<char>) -> ActionView {
    if commands.len() == 0 {
        ActionView::Finish(Ok(reply))
    } else {
        ActionView::Dispatch(commands)
    }
}

/// The answer once commands were sent: `reply`, or the error that sending met.
pub open spec fn confirmed(reply: Seq<char>, sent: Result<(), Seq<char>>) -> ActionView {
    match sent {
        Ok(()) => ActionView::Finish(Ok(reply)),
        Err(e) => ActionView::Finish(Err(e)),
    }
}

/// Ends a handler with `reply`, or with the error that sending met.
pub fn confirm(reply: String, sent: Result<(), String>) -> (res: Action)
    ensures
        res@ == confirmed(reply@, match sent {
            Ok(()) => Ok(()),
            Err(e) => Err(e@),
        }),
{
    match sent {
        Ok(()) => Action::Finish(Ok(reply)),
        Err(e) => Action::Finish(Err(e)),
    }
}

/// A request for a single command.
pub fn one_command(command: String) -> (res: Vec<String>)
    ensures
        strings_view(res@) == seq![command@],
{
    let mut v = Vec::new();
    v.push(command);
    assert(strings_view(v@) =~= seq![command@]);
    v
}

/// Ends a handler with an error.
pub fn fail(message: &str) -> (res: Action)
    ensures
        res@ == ActionView::Finish(Err(message@)),
{
    Action::Finish(Err(message.to_owned()))
}

/// Ends a handler with an answer.
pub fn answer(message: &str) -> (res: Action)
    ensures
        res@ == ActionView::Finish(Ok(message@)),
{
    Action::Finish(Ok(message.to_owned()))
}

/// An event with its reply read as a document.
pub enum ReadEvent {
    Reply(Result<JsonValue, Seq<char>>),
    Sent(Result<(), Seq<char>>),
    Output(Result<Seq<char>, Seq<char>>),
}

/// The event `e` with its reply, if it is one, read as serde_json reads it.
pub open spec fn read_event(e: EventView) -> ReadEvent {
    match e {
        EventView::Reply(r) => ReadEvent::Reply(reply_document(r)),
        EventView::Sent(s) => ReadEvent::Sent(s),
        EventView::Output(o) => ReadEvent::Output(o),
    }
}

/// The document in a reply: the reply text as serde_json reads it, or the error
/// that getting the reply met.
pub open spec fn reply_document(reply: Result<Seq<char>, Seq<char>>) -> Result<JsonValue, Seq<char>> {
    match reply {
        Ok(text) => json_document(text),
        Err(e) => Err(e),
    }
}

/// Reads the document in a reply.
pub fn read_reply(reply: Result<String, String>) -> (res: Result<JsonValue, String>)
    ensures
        match res {
            Ok(d) => reply_document(result_view(reply)) == Ok::<JsonValue, Seq<char>>(d),
            Err(e) => reply_document(result_view(reply)) == Err::<JsonValue, Seq<char>>(e@),
        },
{
    match reply {
        Ok(text) => parse_document(text.as_str()),
        Err(e) => Err(e),
    }
}

} // verus!
