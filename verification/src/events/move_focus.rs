//! `move_focus`: move the focus in a direction; inside kitty, between kitty's own panes.
use vstd::prelude::*;
use crate::hypr::{address_of, class_of, window_address, window_class, ACTIVE_WINDOW};
use crate::json::JsonValue;
use crate::session::{
    answer, confirm, confirmed, fail, one_command, plan_action, Action, ActionView, Awaiting,
    Event, ReadEvent, read_event, read_reply,
};
use crate::text::{join2, join4, str_eq};
use vstd::pervasive::unreached;

verus! {

/// The answer to `move_focus` without exactly one argument.
pub const ARGS_ERROR: &'static str = "move_focus requires exactly 1 argument";

/// For a direction word, Hyprland's direction letter and kitty's navigation key.
pub open spec fn direction_keys(direction: Seq<char>) -> Option<(Seq<char>, Seq<char>)> {
    if direction == "left"@ {
        Some(("l"@, "H"@))
    } else if direction == "right"@ {
        Some(("r"@, "L"@))
    } else if direction == "up"@ {
        Some(("u"@, "K"@))
    } else if direction == "down"@ {
        Some(("d"@, "J"@))
    } else {
        None
    }
}

/// The commands that move the focus in `direction` from the window that `doc`
/// describes, and the answer.
pub open spec fn focus_plan(direction: Seq<char>, doc: JsonValue) -> (Seq<Seq<char>>, Seq<char>) {
    match direction_keys(direction) {
        None => (seq![], "invalid direction"@),
        Some((hypr, kitty)) => {
            let address = window_address(doc);
            let reply = "move_focus "@ + hypr + " for window "@ + address;
            if window_class(doc) == "kitty"@ {
                (seq!["dispatch sendshortcut CONTROL, "@ + kitty + ", address:"@ + address], reply)
            } else {
                (seq!["dispatch movefocus "@ + hypr], reply)
            }
        },
    }
}

fn keys_for(direction: &str) -> (res: Option<(&'static str, &'static str)>)
    ensures
        match res {
            Some((h, k)) => direction_keys(direction@) == Some((h@, k@)),
            None => direction_keys(direction@) is None,
        },
{
    if str_eq(direction, "left") {
        Some(("l", "H"))
    } else if str_eq(direction, "right") {
        Some(("r", "L"))
    } else if str_eq(direction, "up") {
        Some(("u", "K"))
    } else if str_eq(direction, "down") {
        Some(("d", "J"))
    } else {
        None
    }
}

/// Where a `move_focus` exchange stands.
#[derive(Debug)]
pub enum MoveFocusStage {
    /// The focused window was asked for; this is the direction to move in.
    AwaitWindow(String),
    /// Commands were sent; once they went out, this is the answer.
    Moving(String),
    /// The answer was given.
    Done,
}

/// The `move_focus` handler.
#[derive(Debug)]
pub struct MoveFocus {
    pub stage: MoveFocusStage,
}

impl MoveFocus {
    /// The kind of event the handler waits for; `None` once it is done.
    pub open spec fn awaiting(&self) -> Option<Awaiting> {
        match self.stage {
            MoveFocusStage::AwaitWindow(_) => Some(Awaiting::Reply),
            MoveFocusStage::Moving(_) => Some(Awaiting::Sent),
            MoveFocusStage::Done => None,
        }
    }

    /// How many more events the handler takes at most.
    pub open spec fn remaining(&self) -> nat {
        match self.stage {
            MoveFocusStage::AwaitWindow(_) => 2,
            MoveFocusStage::Moving(_) => 1,
            MoveFocusStage::Done => 0,
        }
    }

    /// Starts the handler: it takes one argument, the direction, and then asks for
    /// the focused window.
    pub fn handle(args: &[String]) -> (res: (MoveFocus, Action))
        ensures
            res.0.awaiting() == res.1@.answer(),
            args@.len() != 1 ==> res.1@ == ActionView::Finish(Err(ARGS_ERROR@)),
            args@.len() == 1 ==> {
                &&& res.1@ == ActionView::Query(ACTIVE_WINDOW@)
                &&& res.0.stage matches MoveFocusStage::AwaitWindow(d) && d@ == args@[0]@
            },
    {
        if args.len() != 1 {
            (MoveFocus { stage: MoveFocusStage::Done }, fail(ARGS_ERROR))
        } else {
            (
                MoveFocus { stage: MoveFocusStage::AwaitWindow(args[0].clone()) },
                Action::Query(ACTIVE_WINDOW.to_owned()),
            )
        }
    }

    /// Takes the answer to the last action.
    pub fn resume(self, event: Event) -> (res: (MoveFocus, Action))
        requires
            self.awaiting() == Some(event@.kind()),
        ensures
            res.0.awaiting() == res.1@.answer(),
            res.0.remaining() < self.remaining(),
            match (self.stage, read_event(event@)) {
                (MoveFocusStage::AwaitWindow(_), ReadEvent::Reply(Err(e))) => res.1@
                    == ActionView::Finish(Err(e)),
                (MoveFocusStage::AwaitWindow(d), ReadEvent::Reply(Ok(doc))) => {
                    &&& res.1@ == plan_action(focus_plan(d@, doc).0, focus_plan(d@, doc).1)
                    &&& res.0.stage matches MoveFocusStage::Moving(r) ==> r@ == focus_plan(
                        d@,
                        doc,
                    ).1
                },
                (MoveFocusStage::Moving(reply), ReadEvent::Sent(sent)) => res.1@ == confirmed(
                    reply@,
                    sent,
                ),
                _ => true,
            },
    {
        let done = MoveFocus { stage: MoveFocusStage::Done };
        match (self.stage, event) {
            (MoveFocusStage::AwaitWindow(direction), Event::Reply(reply)) => match read_reply(reply) {
                Err(e) => (done, Action::Finish(Err(e))),
                Ok(doc) => {
                let address = address_of(&doc);
                let class = class_of(&doc);
                match keys_for(direction.as_str()) {
                    None => (done, answer("invalid direction")),
                    Some((hypr, kitty)) => {
                        let reply = join4("move_focus ", hypr, " for window ", address.as_str());
                        let command = if str_eq(class.as_str(), "kitty") {
                            join4(
                                "dispatch sendshortcut CONTROL, ",
                                kitty,
                                ", address:",
                                address.as_str(),
                            )
                        } else {
                            join2("dispatch movefocus ", hypr)
                        };
                        (
                            MoveFocus { stage: MoveFocusStage::Moving(reply) },
                            Action::Dispatch(one_command(command)),
                        )
                    },
                }
                },
            },
            (MoveFocusStage::Moving(reply), Event::Sent(sent)) => (done, confirm(reply, sent)),
            _ => unreached(),
        }
    }
}

} // verus!
