//! `toggle_scratch`: send the focused window to the scratchpad workspace, or bring it
//! back from there to the workspace it came from.
use vstd::prelude::*;
use vstd::hash_map::StringHashMap;
use crate::hypr::{address_of, window_address, workspace_name, workspace_name_of, ACTIVE_WINDOW};
use crate::json::JsonValue;
use crate::session::{
    answer, confirm, confirmed, fail, one_command, plan_action, Action, ActionView, Awaiting,
    Event, ReadEvent, read_event, read_reply,
};
use crate::text::{join2, join4, str_eq};
use vstd::pervasive::unreached;

verus! {

/// The answer to `toggle_scratch` with arguments.
pub const ARGS_ERROR: &'static str = "toggle_scratch requires exactly 0 argument";

/// The name of the scratchpad workspace.
pub const SCRATCHPAD: &'static str = "special:scratchpad";

/// Where windows on the scratchpad came from: window address to workspace name.
pub struct Scratchpad {
    map: StringHashMap<String>,
}

impl View for Scratchpad {
    type V = Map<Seq<char>, Seq<char>>;

    closed spec fn view(&self) -> Map<Seq<char>, Seq<char>> {
        self.map@.map_values(|w: String| w@)
    }
}

impl Scratchpad {
    /// No window is on the scratchpad.
    pub fn new() -> (res: Scratchpad)
        ensures
            res@ == Map::<Seq<char>, Seq<char>>::empty(),
    {
        let res = Scratchpad { map: StringHashMap::new() };
        assert(res@ =~= Map::<Seq<char>, Seq<char>>::empty());
        res
    }

    /// Records that the window at `address` came from `workspace`, in place of what
    /// was recorded for it before.
    pub fn insert(&mut self, address: String, workspace: String)
        ensures
            final(self)@ == old(self)@.insert(address@, workspace@),
    {
        let ghost k = address@;
        let ghost w = workspace@;
        self.map.insert(address, workspace);
        assert(final(self)@ =~= old(self)@.insert(k, w));
    }

    /// Forgets the window at `address`, handing back the workspace it came from.
    pub fn remove(&mut self, address: &str) -> (res: Option<String>)
        ensures
            final(self)@ == old(self)@.remove(address@),
            match res {
                Some(w) => old(self)@.contains_key(address@) && w@ == old(self)@[address@],
                None => !old(self)@.contains_key(address@),
            },
    {
        let found = match self.map.get(address) {
            Some(w) => Some(w.clone()),
            None => None,
        };
        self.map.remove(address);
        assert(final(self)@ =~= old(self)@.remove(address@));
        found
    }

    /// The workspace the window at `address` came from.
    pub fn get(&self, address: &str) -> (res: Option<&String>)
        ensures
            match res {
                Some(w) => self@.contains_key(address@) && w@ == self@[address@],
                None => !self@.contains_key(address@),
            },
    {
        self.map.get(address)
    }
}

/// What toggling the window that `doc` describes does, given where the windows on
/// the scratchpad came from: the record afterwards, the commands to send, the answer.
pub open spec fn toggle_plan(from: Map<Seq<char>, Seq<char>>, doc: JsonValue) -> (
    Map<Seq<char>, Seq<char>>,
    Seq<Seq<char>>,
    Seq<char>,
) {
    let address = window_address(doc);
    let workspace = workspace_name(doc);
    if workspace != SCRATCHPAD@ {
        (
            from.insert(address, workspace),
            seq!["dispatch movetoworkspacesilent "@ + SCRATCHPAD@],
            "Move window "@ + address + " from "@ + workspace + " to "@ + SCRATCHPAD@,
        )
    } else if from.contains_key(address) {
        (
            from.remove(address),
            seq!["dispatch movetoworkspace "@ + from[address]],
            "Move window "@ + address + " from "@ + SCRATCHPAD@ + " to "@ + from[address],
        )
    } else {
        (from, seq![], "key does not exist"@)
    }
}

/// Where a `toggle_scratch` exchange stands.
#[derive(Debug)]
pub enum ToggleScratchStage {
    /// The focused window was asked for.
    AwaitWindow,
    /// Commands were sent; once they went out, this is the answer.
    Moving(String),
    /// The answer was given.
    Done,
}

/// The `toggle_scratch` handler.
#[derive(Debug)]
pub struct ToggleScratch {
    pub stage: ToggleScratchStage,
}

impl ToggleScratch {
    /// The kind of event the handler waits for; `None` once it is done.
    pub open spec fn awaiting(&self) -> Option<Awaiting> {
        match self.stage {
            ToggleScratchStage::AwaitWindow => Some(Awaiting::Reply),
            ToggleScratchStage::Moving(_) => Some(Awaiting::Sent),
            ToggleScratchStage::Done => None,
        }
    }

    /// How many more events the handler takes at most.
    pub open spec fn remaining(&self) -> nat {
        match self.stage {
            ToggleScratchStage::AwaitWindow => 2,
            ToggleScratchStage::Moving(_) => 1,
            ToggleScratchStage::Done => 0,
        }
    }

    /// Starts the handler: it takes no argument, and then asks for the focused window.
    pub fn handle(args: &[String]) -> (res: (ToggleScratch, Action))
        ensures
            res.0.awaiting() == res.1@.answer(),
            args@.len() != 0 ==> res.1@ == ActionView::Finish(Err(ARGS_ERROR@)),
            args@.len() == 0 ==> res.1@ == ActionView::Query(ACTIVE_WINDOW@),
            args@.len() == 0 ==> res.0.stage is AwaitWindow,
    {
        if args.len() != 0 {
            (ToggleScratch { stage: ToggleScratchStage::Done }, fail(ARGS_ERROR))
        } else {
            (
                ToggleScratch { stage: ToggleScratchStage::AwaitWindow },
                Action::Query(ACTIVE_WINDOW.to_owned()),
            )
        }
    }

    /// Takes the answer to the last action; the record of the scratchpad changes
    /// when the focused window is known, before any command is sent.
    pub fn resume(self, event: Event, scratchpad: &mut Scratchpad) -> (res: (ToggleScratch, Action))
        requires
            self.awaiting() == Some(event@.kind()),
        ensures
            res.0.awaiting() == res.1@.answer(),
            res.0.remaining() < self.remaining(),
            match (self.stage, read_event(event@)) {
                (ToggleScratchStage::AwaitWindow, ReadEvent::Reply(Ok(doc))) => {
                    let plan = toggle_plan(old(scratchpad)@, doc);
                    &&& final(scratchpad)@ == plan.0
                    &&& res.1@ == plan_action(plan.1, plan.2)
                    &&& res.0.stage matches ToggleScratchStage::Moving(r) ==> r@ == plan.2
                },
                (ToggleScratchStage::AwaitWindow, ReadEvent::Reply(Err(e))) => {
                    &&& final(scratchpad)@ == old(scratchpad)@
                    &&& res.1@ == ActionView::Finish(Err(e))
                },
                (ToggleScratchStage::Moving(reply), ReadEvent::Sent(sent)) => {
                    &&& final(scratchpad)@ == old(scratchpad)@
                    &&& res.1@ == confirmed(reply@, sent)
                },
                _ => true,
            },
    {
        let done = ToggleScratch { stage: ToggleScratchStage::Done };
        match (self.stage, event) {
            (ToggleScratchStage::AwaitWindow, Event::Reply(reply)) => match read_reply(reply) {
                Err(e) => (done, Action::Finish(Err(e))),
                Ok(doc) => {
                let address = address_of(&doc);
                let workspace = workspace_name_of(&doc);
                if !str_eq(workspace.as_str(), SCRATCHPAD) {
                    let reply = join4("Move window ", address.as_str(), " from ", workspace.as_str());
                    let mut reply = reply;
                    reply.append(" to ");
                    reply.append(SCRATCHPAD);
                    scratchpad.insert(address, workspace);
                    let command = join2("dispatch movetoworkspacesilent ", SCRATCHPAD);
                    (
                        ToggleScratch { stage: ToggleScratchStage::Moving(reply) },
                        Action::Dispatch(one_command(command)),
                    )
                } else {
                    match scratchpad.remove(address.as_str()) {
                        Some(from) => {
                            let mut reply = join4(
                                "Move window ",
                                address.as_str(),
                                " from ",
                                SCRATCHPAD,
                            );
                            reply.append(" to ");
                            reply.append(from.as_str());
                            let command = join2("dispatch movetoworkspace ", from.as_str());
                            (
                                ToggleScratch { stage: ToggleScratchStage::Moving(reply) },
                                Action::Dispatch(one_command(command)),
                            )
                        },
                        None => (done, answer("key does not exist")),
                    }
                }
                },
            },
            (ToggleScratchStage::Moving(reply), Event::Sent(sent)) => (done, confirm(reply, sent)),
            _ => unreached(),
        }
    }
}

} // verus!
