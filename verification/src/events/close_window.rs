//! `close_window`: close the focused window, politely where the program has a shortcut for it.
use vstd::prelude::*;
use crate::hypr::{address_of, class_of, window_address, window_class, ACTIVE_WINDOW};
use crate::json::JsonValue;
use crate::session::{
    answer, confirm, confirmed, fail, one_command, plan_action, Action, ActionView, Awaiting,
    Event, ReadEvent, read_event, read_reply,
};
use crate::text::{join2, str_eq};
use vstd::pervasive::unreached;

verus! {

/// The answer to `close_window` with arguments.
pub const ARGS_ERROR: &'static str = "close_window requires exactly 0 argument";

/// The programs that close their window on Ctrl+W.
pub open spec fn closes_on_ctrl_w(class: Seq<char>) -> bool {
    class == "kitty"@ || class == "firefox"@ || class == "sublime_text"@
}

/// The commands that close the focused window described by `doc`, and the answer.
pub open spec fn close_plan(doc: JsonValue) -> (Seq<Seq<char>>, Seq<char>) {
    let address = window_address(doc);
    let class = window_class(doc);
    if closes_on_ctrl_w(class) {
        (
            seq!["dispatch sendshortcut CONTROL, W, address:"@ + address],
            "close_window for window "@ + address,
        )
    } else if class == "com.obsproject.Studio"@ {
        (seq![], "do nothing for obs studio"@)
    } else {
        (seq!["dispatch killactive"@], "killactive for window "@ + address)
    }
}

/// Where a `close_window` exchange stands.
#[derive(Debug)]
pub enum CloseWindowStage {
    /// The focused window was asked for.
    AwaitWindow,
    /// Commands were sent; once they went out, this is the answer.
    Closing(String),
    /// The answer was given.
    Done,
}

/// The `close_window` handler.
#[derive(Debug)]
pub struct CloseWindow {
    pub stage: CloseWindowStage,
}

impl CloseWindow {
    /// The kind of event the handler waits for; `None` once it is done.
    pub open spec fn awaiting(&self) -> Option<Awaiting> {
        match self.stage {
            CloseWindowStage::AwaitWindow => Some(Awaiting::Reply),
            CloseWindowStage::Closing(_) => Some(Awaiting::Sent),
            CloseWindowStage::Done => None,
        }
    }

    /// How many more events the handler takes at most.
    pub open spec fn remaining(&self) -> nat {
        match self.stage {
            CloseWindowStage::AwaitWindow => 2,
            CloseWindowStage::Closing(_) => 1,
            CloseWindowStage::Done => 0,
        }
    }

    /// Starts the handler: it takes no argument, and then asks for the focused window.
    pub fn handle(args: &[String]) -> (res: (CloseWindow, Action))
        ensures
            res.0.awaiting() == res.1@.answer(),
            args@.len() != 0 ==> res.1@ == ActionView::Finish(Err(ARGS_ERROR@)),
            args@.len() == 0 ==> res.1@ == ActionView::Query(ACTIVE_WINDOW@),
            args@.len() == 0 ==> res.0.stage is AwaitWindow,
    {
        if args.len() != 0 {
            (CloseWindow { stage: CloseWindowStage::Done }, fail(ARGS_ERROR))
        } else {
            (
                CloseWindow { stage: CloseWindowStage::AwaitWindow },
                Action::Query(ACTIVE_WINDOW.to_owned()),
            )
        }
    }

    /// Takes the answer to the last action.
    pub fn resume(self, event: Event) -> (res: (CloseWindow, Action))
        requires
            self.awaiting() == Some(event@.kind()),
        ensures
            res.0.awaiting() == res.1@.answer(),
            res.0.remaining() < self.remaining(),
            match (self.stage, read_event(event@)) {
                (CloseWindowStage::AwaitWindow, ReadEvent::Reply(Err(e))) => res.1@
                    == ActionView::Finish(Err(e)),
                (CloseWindowStage::AwaitWindow, ReadEvent::Reply(Ok(doc))) => {
                    &&& res.1@ == plan_action(close_plan(doc).0, close_plan(doc).1)
                    &&& res.0.stage matches CloseWindowStage::Closing(r) ==> r@ == close_plan(
                        doc,
                    ).1
                },
                (CloseWindowStage::Closing(reply), ReadEvent::Sent(sent)) => res.1@ == confirmed(
                    reply@,
                    sent,
                ),
                _ => true,
            },
    {
        let done = CloseWindow { stage: CloseWindowStage::Done };
        match (self.stage, event) {
            (CloseWindowStage::AwaitWindow, Event::Reply(reply)) => match read_reply(reply) {
                Err(e) => (done, Action::Finish(Err(e))),
                Ok(doc) => {
                let address = address_of(&doc);
                let class = class_of(&doc);
                let c = class.as_str();
                if str_eq(c, "kitty") || str_eq(c, "firefox") || str_eq(c, "sublime_text") {
                    let command = join2("dispatch sendshortcut CONTROL, W, address:", address.as_str());
                    let reply = join2("close_window for window ", address.as_str());
                    (
                        CloseWindow { stage: CloseWindowStage::Closing(reply) },
                        Action::Dispatch(one_command(command)),
                    )
                } else if str_eq(c, "com.obsproject.Studio") {
                    (done, answer("do nothing for obs studio"))
                } else {
                    let reply = join2("killactive for window ", address.as_str());
                    (
                        CloseWindow { stage: CloseWindowStage::Closing(reply) },
                        Action::Dispatch(one_command("dispatch killactive".to_owned())),
                    )
                }
                },
            },
            (CloseWindowStage::Closing(reply), Event::Sent(sent)) => (done, confirm(reply, sent)),
            _ => unreached(),
        }
    }
}

} // verus!
