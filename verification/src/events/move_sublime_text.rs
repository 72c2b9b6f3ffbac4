//! `move_sublime_text`: bring Sublime Text to the focused workspace, or start it.
use vstd::prelude::*;
use crate::hypr::{ACTIVE_WORKSPACE, CLIENTS};
use crate::json::{i64_at, keys_view, str_at, JsonValue};
use crate::session::{
    answer, confirm, confirmed, fail, one_command, Action, ActionView, Awaiting, Event, ReadEvent, read_event, read_reply,
};
use crate::text::{decimal, decimal_string, join3, str_eq};
use vstd::pervasive::unreached;

verus! {

/// The answer to `move_sublime_text` with arguments.
pub const ARGS_ERROR: &'static str = "switch_master_side requires exactly 1 argument";

/// The answer where the client list is no array.
pub const NOT_AN_ARRAY: &'static str = "JSON data is not an array";

/// The answer where Sublime Text is on the focused workspace already.
pub const ALREADY_HERE: &'static str = "sublime text already in current workspace";

/// The answer once Sublime Text was moved.
pub const MOVED: &'static str = "move_sublime_text";

/// The answer once Sublime Text was started.
pub const STARTED: &'static str = "sublime text not found, start sublime text";

/// The program that starts Sublime Text.
pub const SUBLIME: &'static str = "subl";

/// Whether a client is a Sublime Text window: `client["class"]` is `"sublime_text"`.
pub open spec fn is_sublime(client: JsonValue) -> bool {
    str_at(client, seq!["class"@]) == Some("sublime_text"@)
}

/// The workspace that the last Sublime Text window among `clients` is on,
/// `client["workspace"]["id"]`; `None` where there is no such window, or where the
/// last one's workspace has no `i64` id.
pub open spec fn sublime_workspace(clients: Seq<JsonValue>) -> Option<i64>
    decreases clients.len(),
{
    if clients.len() == 0 {
        None
    } else if is_sublime(clients.last()) {
        i64_at(clients.last(), seq!["workspace"@, "id"@])
    } else {
        sublime_workspace(clients.drop_last())
    }
}

/// The focused workspace's id, `doc["id"]`, or 1 where it has none.
pub open spec fn current_workspace(doc: JsonValue) -> i64 {
    match i64_at(doc, seq!["id"@]) {
        Some(id) => id,
        None => 1,
    }
}

/// The command that moves Sublime Text to the workspace `id`.
pub open spec fn move_command(id: i64) -> Seq<char> {
    "dispatch movetoworkspace "@ + decimal(id as int) + ",class:sublime_text"@
}

/// What to do with the client list `clients` and the focused workspace `workspace`:
/// move Sublime Text over, refuse because it is there already, or start it.
pub open spec fn sublime_action(clients: JsonValue, workspace: JsonValue) -> ActionView {
    match clients {
        JsonValue::Array(items) => match sublime_workspace(items@) {
            Some(id) => if id == current_workspace(workspace) {
                ActionView::Finish(Err(ALREADY_HERE@))
            } else {
                ActionView::Dispatch(seq![move_command(current_workspace(workspace))])
            },
            None => ActionView::Launch(SUBLIME@),
        },
        _ => ActionView::Finish(Err(NOT_AN_ARRAY@)),
    }
}

/// Where a `move_sublime_text` exchange stands.
#[derive(Debug)]
pub enum MoveSublimeTextStage {
    /// The client list was asked for.
    AwaitClients,
    /// The focused workspace was asked for; this is the client list.
    AwaitWorkspace(JsonValue),
    /// Sublime Text is being moved.
    Moving,
    /// Sublime Text is being started.
    Launching,
    /// The answer was given.
    Done,
}

/// The `move_sublime_text` handler.
#[derive(Debug)]
pub struct MoveSublimeText {
    pub stage: MoveSublimeTextStage,
}

fn find_sublime(items: &Vec<JsonValue>) -> (res: Option<i64>)
    ensures
        res == sublime_workspace(items@),
{
    let class_path = ["class"];
    let id_path = ["workspace", "id"];
    assert(keys_view(class_path@) =~= seq!["class"@]);
    assert(keys_view(id_path@) =~= seq!["workspace"@, "id"@]);
    let mut found: Option<i64> = None;
    let mut i: usize = 0;
    while i < items.len()
        invariant
            i <= items.len(),
            keys_view(class_path@) == seq!["class"@],
            keys_view(id_path@) == seq!["workspace"@, "id"@],
            found == sublime_workspace(items@.take(i as int)),
        decreases items.len() - i,
    {
        assert(items@.take(i + 1).drop_last() =~= items@.take(i as int));
        assert(items@.take(i + 1).last() == items@[i as int]);
        let sublime = match items[i].str_at(&class_path) {
            Some(class) => str_eq(class.as_str(), "sublime_text"),
            None => false,
        };
        if sublime {
            found = items[i].i64_at(&id_path);
        }
        i = i + 1;
    }
    assert(items@.take(items.len() as int) =~= items@);
    found
}

impl MoveSublimeText {
    /// The kind of event the handler waits for; `None` once it is done.
    pub open spec fn awaiting(&self) -> Option<Awaiting> {
        match self.stage {
            MoveSublimeTextStage::AwaitClients => Some(Awaiting::Reply),
            MoveSublimeTextStage::AwaitWorkspace(_) => Some(Awaiting::Reply),
            MoveSublimeTextStage::Moving => Some(Awaiting::Sent),
            MoveSublimeTextStage::Launching => Some(Awaiting::Sent),
            MoveSublimeTextStage::Done => None,
        }
    }

    /// How many more events the handler takes at most.
    pub open spec fn remaining(&self) -> nat {
        match self.stage {
            MoveSublimeTextStage::AwaitClients => 3,
            MoveSublimeTextStage::AwaitWorkspace(_) => 2,
            MoveSublimeTextStage::Moving => 1,
            MoveSublimeTextStage::Launching => 1,
            MoveSublimeTextStage::Done => 0,
        }
    }

    /// Starts the handler: it takes no argument, and then asks for the client list.
    pub fn handle(args: &[String]) -> (res: (MoveSublimeText, Action))
        ensures
            res.0.awaiting() == res.1@.answer(),
            args@.len() != 0 ==> res.1@ == ActionView::Finish(Err(ARGS_ERROR@)),
            args@.len() == 0 ==> res.1@ == ActionView::Query(CLIENTS@),
            args@.len() == 0 ==> res.0.stage is AwaitClients,
    {
        if args.len() != 0 {
            (MoveSublimeText { stage: MoveSublimeTextStage::Done }, fail(ARGS_ERROR))
        } else {
            (
                MoveSublimeText { stage: MoveSublimeTextStage::AwaitClients },
                Action::Query(CLIENTS.to_owned()),
            )
        }
    }

    /// Takes the answer to the last action.
    pub fn resume(self, event: Event) -> (res: (MoveSublimeText, Action))
        requires
            self.awaiting() == Some(event@.kind()),
        ensures
            res.0.awaiting() == res.1@.answer(),
            res.0.remaining() < self.remaining(),
            match (self.stage, read_event(event@)) {
                (MoveSublimeTextStage::AwaitClients, ReadEvent::Reply(Err(e))) => res.1@
                    == ActionView::Finish(Err(e)),
                (MoveSublimeTextStage::AwaitClients, ReadEvent::Reply(Ok(clients))) => {
                    &&& res.1@ == ActionView::Query(ACTIVE_WORKSPACE@)
                    &&& res.0.stage == MoveSublimeTextStage::AwaitWorkspace(clients)
                },
                (MoveSublimeTextStage::AwaitWorkspace(_), ReadEvent::Reply(Err(e))) => res.1@
                    == ActionView::Finish(Err(e)),
                (MoveSublimeTextStage::AwaitWorkspace(clients), ReadEvent::Reply(Ok(workspace))) => {
                    &&& res.1@ == sublime_action(clients, workspace)
                    &&& res.1@ is Dispatch ==> res.0.stage is Moving
                    &&& res.1@ is Launch ==> res.0.stage is Launching
                },
                (MoveSublimeTextStage::Moving, ReadEvent::Sent(sent)) => res.1@ == confirmed(
                    MOVED@,
                    sent,
                ),
                (MoveSublimeTextStage::Launching, ReadEvent::Sent(sent)) => res.1@ == confirmed(
                    STARTED@,
                    sent,
                ),
                _ => true,
            },
    {
        let done = MoveSublimeText { stage: MoveSublimeTextStage::Done };
        match (self.stage, event) {
            (MoveSublimeTextStage::AwaitClients, Event::Reply(reply)) => match read_reply(reply) {
                Err(e) => (done, Action::Finish(Err(e))),
                Ok(clients) => (
                    MoveSublimeText { stage: MoveSublimeTextStage::AwaitWorkspace(clients) },
                    Action::Query(ACTIVE_WORKSPACE.to_owned()),
                ),
            },
            (MoveSublimeTextStage::AwaitWorkspace(clients), Event::Reply(reply)) => match read_reply(
                reply,
            ) {
                Err(e) => (done, Action::Finish(Err(e))),
                Ok(workspace) => {
                let id_path = ["id"];
                assert(keys_view(id_path@) =~= seq!["id"@]);
                let current = match workspace.i64_at(&id_path) {
                    Some(id) => id,
                    None => 1,
                };
                match &clients {
                    JsonValue::Array(items) => match find_sublime(items) {
                        Some(id) => {
                            if id == current {
                                (done, fail(ALREADY_HERE))
                            } else {
                                let command = join3(
                                    "dispatch movetoworkspace ",
                                    decimal_string(current).as_str(),
                                    ",class:sublime_text",
                                );
                                (
                                    MoveSublimeText { stage: MoveSublimeTextStage::Moving },
                                    Action::Dispatch(one_command(command)),
                                )
                            }
                        },
                        None => (
                            MoveSublimeText { stage: MoveSublimeTextStage::Launching },
                            Action::Launch(SUBLIME.to_owned()),
                        ),
                    },
                    _ => (done, fail(NOT_AN_ARRAY)),
                }
                },
            },
            (MoveSublimeTextStage::Moving, Event::Sent(sent)) => (done, confirm(MOVED.to_owned(), sent)),
            (MoveSublimeTextStage::Launching, Event::Sent(sent)) => (
                done,
                confirm(STARTED.to_owned(), sent),
            ),
            _ => unreached(),
        }
    }
}

} // verus!
