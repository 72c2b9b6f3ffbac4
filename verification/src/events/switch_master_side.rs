//! `switch_master_side`: move the master window of the layout to the other side,
//! keeping the focus on the window that had it.
use vstd::prelude::*;
use crate::hypr::{address_of, window_address, ACTIVE_WINDOW};
use crate::session::{answer, fail, one_command, Action, ActionView, Awaiting, Event, ReadEvent, read_event, read_reply};
use crate::text::{join2, str_eq, strings_view};
use vstd::pervasive::unreached;

verus! {

/// The answer to `switch_master_side` with arguments.
pub const ARGS_ERROR: &'static str = "switch_master_side requires exactly 1 argument";

/// The answer once the master side was switched, or once there was nothing to do.
pub const DONE: &'static str = "switch_master_side";

/// The command that focuses the master window.
pub const FOCUS_MASTER: &'static str = "dispatch layoutmsg focusmaster";

/// The command that moves the focus to the left.
pub const FOCUS_LEFT: &'static str = "dispatch movefocus l";

/// The commands that swap the focused window twice in `direction`, swap the master
/// into place and give the focus back to `current`.
pub open spec fn swap_commands(direction: Seq<char>, master: Seq<char>, current: Seq<char>) -> Seq<
    Seq<char>,
> {
    seq![
        "dispatch swapwindow "@ + direction,
        "dispatch swapwindow "@ + direction,
        "dispatch focuswindow address:"@ + master,
        "dispatch layoutmsg swapwithmaster"@,
        "dispatch focuswindow address:"@ + current,
    ]
}

/// The commands sent once the window left of the master is known: when it is the
/// window that had the focus, the swaps go right; otherwise the focus goes back to
/// that window first and the swaps go left.
pub open spec fn switch_commands(current: Seq<char>, master: Seq<char>, left_of_master: Seq<char>) -> Seq<
    Seq<char>,
> {
    if current == left_of_master {
        swap_commands("r"@, master, current)
    } else {
        seq!["dispatch focuswindow address:"@ + current] + swap_commands("l"@, master, current)
    }
}

/// Where a `switch_master_side` exchange stands.
#[derive(Debug)]
pub enum SwitchMasterSideStage {
    /// The focused window was asked for.
    FindCurrent,
    /// The master was focused; this is the window that had the focus.
    FocusMaster(String),
    /// The focused window was asked for again: it is the master now.
    FindMaster(String),
    /// The focus moved left of the master (the window that had the focus, the master).
    StepLeft(String, String),
    /// The focused window was asked for again: it is the one left of the master.
    FindNeighbour(String, String),
    /// A command was sent; these follow, one at a time.
    Sending(Vec<String>),
    /// The answer was given.
    Done,
}

/// The `switch_master_side` handler.
#[derive(Debug)]
pub struct SwitchMasterSide {
    pub stage: SwitchMasterSideStage,
}

fn swap_commands_exec(direction: &str, master: &str, current: &str) -> (res: Vec<String>)
    ensures
        strings_view(res@) == swap_commands(direction@, master@, current@),
{
    let mut v: Vec<String> = Vec::new();
    v.push(join2("dispatch swapwindow ", direction));
    v.push(join2("dispatch swapwindow ", direction));
    v.push(join2("dispatch focuswindow address:", master));
    v.push("dispatch layoutmsg swapwithmaster".to_owned());
    v.push(join2("dispatch focuswindow address:", current));
    assert(strings_view(v@) =~= swap_commands(direction@, master@, current@));
    v
}

impl SwitchMasterSide {
    /// The kind of event the handler waits for; `None` once it is done.
    pub open spec fn awaiting(&self) -> Option<Awaiting> {
        match self.stage {
            SwitchMasterSideStage::FindCurrent => Some(Awaiting::Reply),
            SwitchMasterSideStage::FocusMaster(_) => Some(Awaiting::Sent),
            SwitchMasterSideStage::FindMaster(_) => Some(Awaiting::Reply),
            SwitchMasterSideStage::StepLeft(_, _) => Some(Awaiting::Sent),
            SwitchMasterSideStage::FindNeighbour(_, _) => Some(Awaiting::Reply),
            SwitchMasterSideStage::Sending(_) => Some(Awaiting::Sent),
            SwitchMasterSideStage::Done => None,
        }
    }

    /// How many more events the handler takes at most.
    pub open spec fn remaining(&self) -> nat {
        match self.stage {
            SwitchMasterSideStage::FindCurrent => 11,
            SwitchMasterSideStage::FocusMaster(_) => 10,
            SwitchMasterSideStage::FindMaster(_) => 9,
            SwitchMasterSideStage::StepLeft(_, _) => 8,
            SwitchMasterSideStage::FindNeighbour(_, _) => 7,
            SwitchMasterSideStage::Sending(rest) => (if rest.len() <= 5 {
                rest.len() + 1
            } else {
                6
            }) as nat,
            SwitchMasterSideStage::Done => 0,
        }
    }

    /// Whether the stage is well formed: at most five commands wait to be sent.
    pub open spec fn well_formed(&self) -> bool {
        self.stage matches SwitchMasterSideStage::Sending(rest) ==> rest.len() <= 5
    }

    /// Starts the handler: it takes no argument, and then asks for the focused window.
    pub fn handle(args: &[String]) -> (res: (SwitchMasterSide, Action))
        ensures
            res.0.awaiting() == res.1@.answer(),
            res.0.well_formed(),
            args@.len() != 0 ==> res.1@ == ActionView::Finish(Err(ARGS_ERROR@)),
            args@.len() == 0 ==> res.1@ == ActionView::Query(ACTIVE_WINDOW@),
            args@.len() == 0 ==> res.0.stage is FindCurrent,
    {
        if args.len() != 0 {
            (SwitchMasterSide { stage: SwitchMasterSideStage::Done }, fail(ARGS_ERROR))
        } else {
            (
                SwitchMasterSide { stage: SwitchMasterSideStage::FindCurrent },
                Action::Query(ACTIVE_WINDOW.to_owned()),
            )
        }
    }

    /// Takes the answer to the last action. Every failure ends the exchange with its
    /// message; the steps are as the stages describe.
    pub fn resume(self, event: Event) -> (res: (SwitchMasterSide, Action))
        requires
            self.awaiting() == Some(event@.kind()),
            self.well_formed(),
        ensures
            res.0.awaiting() == res.1@.answer(),
            res.0.well_formed(),
            res.0.remaining() < self.remaining(),
            match read_event(event@) {
                ReadEvent::Reply(Err(e)) => res.1@ == ActionView::Finish(Err(e)),
                ReadEvent::Sent(Err(e)) => res.1@ == ActionView::Finish(Err(e)),
                _ => true,
            },
            match (self.stage, read_event(event@)) {
                (SwitchMasterSideStage::FindCurrent, ReadEvent::Reply(Ok(doc))) => {
                    &&& res.1@ == ActionView::Dispatch(seq![FOCUS_MASTER@])
                    &&& res.0.stage matches SwitchMasterSideStage::FocusMaster(c) && c@
                        == window_address(doc)
                },
                (SwitchMasterSideStage::FocusMaster(c), ReadEvent::Sent(Ok(()))) => {
                    &&& res.1@ == ActionView::Query(ACTIVE_WINDOW@)
                    &&& res.0.stage matches SwitchMasterSideStage::FindMaster(c2) && c2@ == c@
                },
                (SwitchMasterSideStage::FindMaster(c), ReadEvent::Reply(Ok(doc))) => {
                    if c@ == window_address(doc) {
                        res.1@ == ActionView::Finish(Ok(DONE@))
                    } else {
                        &&& res.1@ == ActionView::Dispatch(seq![FOCUS_LEFT@])
                        &&& res.0.stage matches SwitchMasterSideStage::StepLeft(c2, m) && c2@
                            == c@ && m@ == window_address(doc)
                    }
                },
                (SwitchMasterSideStage::StepLeft(c, m), ReadEvent::Sent(Ok(()))) => {
                    &&& res.1@ == ActionView::Query(ACTIVE_WINDOW@)
                    &&& res.0.stage matches SwitchMasterSideStage::FindNeighbour(c2, m2) && c2@
                        == c@ && m2@ == m@
                },
                (SwitchMasterSideStage::FindNeighbour(c, m), ReadEvent::Reply(Ok(doc))) => {
                    let commands = switch_commands(c@, m@, window_address(doc));
                    &&& res.1@ == ActionView::Dispatch(seq![commands[0]])
                    &&& res.0.stage matches SwitchMasterSideStage::Sending(rest) && strings_view(
                        rest@,
                    ) == commands.drop_first()
                },
                (SwitchMasterSideStage::Sending(rest), ReadEvent::Sent(Ok(()))) => {
                    if rest@.len() == 0 {
                        res.1@ == ActionView::Finish(Ok(DONE@))
                    } else {
                        &&& res.1@ == ActionView::Dispatch(seq![rest@[0]@])
                        &&& res.0.stage matches SwitchMasterSideStage::Sending(rest2)
                            && strings_view(rest2@) == strings_view(rest@).drop_first()
                    }
                },
                _ => true,
            },
    {
        let done = SwitchMasterSide { stage: SwitchMasterSideStage::Done };
        match (self.stage, event) {
            (_, Event::Sent(Err(e))) => (done, Action::Finish(Err(e))),
            (stage, Event::Reply(reply)) => match read_reply(reply) {
                Err(e) => (done, Action::Finish(Err(e))),
                Ok(doc) => match stage {
                    SwitchMasterSideStage::FindCurrent => (
                        SwitchMasterSide {
                            stage: SwitchMasterSideStage::FocusMaster(address_of(&doc)),
                        },
                        Action::Dispatch(one_command(FOCUS_MASTER.to_owned())),
                    ),
                    SwitchMasterSideStage::FindMaster(current) => {
                        let master = address_of(&doc);
                        if str_eq(current.as_str(), master.as_str()) {
                            (done, answer(DONE))
                        } else {
                            (
                                SwitchMasterSide {
                                    stage: SwitchMasterSideStage::StepLeft(current, master),
                                },
                                Action::Dispatch(one_command(FOCUS_LEFT.to_owned())),
                            )
                        }
                    },
                    SwitchMasterSideStage::FindNeighbour(current, master) => {
                        let neighbour = address_of(&doc);
                        let mut commands = if str_eq(current.as_str(), neighbour.as_str()) {
                            swap_commands_exec("r", master.as_str(), current.as_str())
                        } else {
                            let mut v = one_command(
                                join2("dispatch focuswindow address:", current.as_str()),
                            );
                            let mut swaps = swap_commands_exec("l", master.as_str(), current.as_str());
                            let ghost first = v@;
                            let ghost second = swaps@;
                            v.append(&mut swaps);
                            assert(strings_view(v@) =~= strings_view(first) + strings_view(second));
                            v
                        };
                        let ghost all = strings_view(commands@);
                        assert(all == switch_commands(current@, master@, neighbour@));
                        assert(commands@.len() == all.len());
                        let first = commands.remove(0);
                        assert(strings_view(commands@) =~= all.drop_first());
                        (
                            SwitchMasterSide { stage: SwitchMasterSideStage::Sending(commands) },
                            Action::Dispatch(one_command(first)),
                        )
                    },
                    _ => unreached(),
                },
            },
            (SwitchMasterSideStage::FocusMaster(current), Event::Sent(Ok(()))) => (
                SwitchMasterSide { stage: SwitchMasterSideStage::FindMaster(current) },
                Action::Query(ACTIVE_WINDOW.to_owned()),
            ),
            (SwitchMasterSideStage::StepLeft(current, master), Event::Sent(Ok(()))) => (
                SwitchMasterSide { stage: SwitchMasterSideStage::FindNeighbour(current, master) },
                Action::Query(ACTIVE_WINDOW.to_owned()),
            ),
            (SwitchMasterSideStage::Sending(mut rest), Event::Sent(Ok(()))) => {
                if rest.len() == 0 {
                    (done, answer(DONE))
                } else {
                    let ghost all = strings_view(rest@);
                    let first = rest.remove(0);
                    assert(strings_view(rest@) =~= all.drop_first());
                    (
                        SwitchMasterSide { stage: SwitchMasterSideStage::Sending(rest) },
                        Action::Dispatch(one_command(first)),
                    )
                }
            },
            _ => unreached(),
        }
    }
}

} // verus!
