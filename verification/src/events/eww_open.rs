//! `eww_open`: refresh the Todoist inbox, and tell eww when it changed.
use vstd::prelude::*;
use crate::helper::{
    csv_rows, inbox_records, parse_inbox_checked, records_json, records_view, rows_complete,
    to_json, Record,
};
use crate::session::{answer, fail, Action, ActionView, Awaiting, Event, EventView};
use crate::text::{join2, str_eq, strings_view};
use vstd::pervasive::unreached;

verus! {

/// The answer to `eww_open` with arguments.
pub const ARGS_ERROR: &'static str = "eww_todo_getall requires exactly 0 argument";

/// The Todoist command line client.
pub const TODOIST: &'static str = "todoist-cli";

/// The eww command line client.
pub const EWW: &'static str = "eww";

/// The arguments that make eww show `json` as the inbox.
pub open spec fn eww_update_args(json: Seq<char>) -> Seq<Seq<char>> {
    seq!["update"@, "TODO="@ + json]
}

/// Where an `eww_open` exchange stands.
#[derive(Debug)]
pub enum EwwOpenStage {
    /// Todoist is syncing; this is the inbox as JSON from before.
    Syncing(String),
    /// Todoist is listing its tasks; this is the inbox as JSON from before.
    Listing(String),
    /// eww was told about the new inbox.
    Notifying,
    /// The answer was given.
    Done,
}

/// The `eww_open` handler.
#[derive(Debug)]
pub struct EwwOpen {
    pub stage: EwwOpenStage,
}

impl EwwOpen {
    /// The kind of event the handler waits for; `None` once it is done.
    pub open spec fn awaiting(&self) -> Option<Awaiting> {
        match self.stage {
            EwwOpenStage::Syncing(_) => Some(Awaiting::Output),
            EwwOpenStage::Listing(_) => Some(Awaiting::Output),
            EwwOpenStage::Notifying => Some(Awaiting::Sent),
            EwwOpenStage::Done => None,
        }
    }

    /// How many more events the handler takes at most.
    pub open spec fn remaining(&self) -> nat {
        match self.stage {
            EwwOpenStage::Syncing(_) => 3,
            EwwOpenStage::Listing(_) => 2,
            EwwOpenStage::Notifying => 1,
            EwwOpenStage::Done => 0,
        }
    }

    /// Whether `event` is a listing in which an inbox row read before any CSV error
    /// lacks the sixth field, the task's name, while the handler waits for the listing.
    pub open spec fn stalls_on(&self, event: EventView) -> bool {
        &&& self.stage is Listing
        &&& event matches EventView::Output(Ok(listing))
        &&& !rows_complete(csv_rows(listing).0)
    }

    /// Starts the handler: it takes no argument; it keeps the inbox as JSON, and
    /// then has Todoist sync.
    pub fn handle(args: &[String], inbox: &[Record]) -> (res: (EwwOpen, Action))
        ensures
            res.0.awaiting() == res.1@.answer(),
            args@.len() != 0 ==> res.1@ == ActionView::Finish(Err(ARGS_ERROR@)),
            args@.len() == 0 ==> {
                &&& res.1@ == ActionView::Run(TODOIST@, seq!["sync"@])
                &&& res.0.stage matches EwwOpenStage::Syncing(before) && before@ == records_json(
                    records_view(inbox@),
                )
            },
    {
        if args.len() != 0 {
            return (EwwOpen { stage: EwwOpenStage::Done }, fail(ARGS_ERROR));
        }
        let before = to_json(inbox);
        let mut run_args: Vec<String> = Vec::new();
        run_args.push("sync".to_owned());
        assert(strings_view(run_args@) =~= seq!["sync"@]);
        (EwwOpen { stage: EwwOpenStage::Syncing(before) }, Action::Run(TODOIST.to_owned(), run_args))
    }

    /// Takes the answer to the last action. Where the listing has an inbox row
    /// without a sixth field, there is no next step: the answer is `None`, and
    /// `inbox` is left as it was.
    pub fn resume(self, event: Event, inbox: &mut Vec<Record>) -> (res: Option<(EwwOpen, Action)>)
        requires
            self.awaiting() == Some(event@.kind()),
        ensures
            res is None <==> self.stalls_on(event@),
            res is None ==> final(inbox)@ == old(inbox)@,
            res matches Some(r) ==> {
                &&& r.0.awaiting() == r.1@.answer()
                &&& r.0.remaining() < self.remaining()
                &&& match (self.stage, event@) {
                    (EwwOpenStage::Syncing(_), EventView::Output(Err(e))) => r.1@
                        == ActionView::Finish(Err(e)) && final(inbox)@ == old(inbox)@,
                    (EwwOpenStage::Syncing(before), EventView::Output(Ok(_))) => {
                        &&& r.1@ == ActionView::Run(TODOIST@, seq!["--csv"@, "list"@])
                        &&& r.0.stage matches EwwOpenStage::Listing(b) && b@ == before@
                        &&& final(inbox)@ == old(inbox)@
                    },
                    (EwwOpenStage::Listing(_), EventView::Output(Err(e))) => r.1@
                        == ActionView::Finish(Err(e)) && final(inbox)@ == old(inbox)@,
                    (EwwOpenStage::Listing(before), EventView::Output(Ok(listing))) => match csv_rows(
                        listing,
                    ).1 {
                        Some(e) => r.1@ == ActionView::Finish(Err(e)) && final(inbox)@ == old(
                            inbox,
                        )@,
                        None => {
                            let after = records_json(inbox_records(csv_rows(listing).0));
                            &&& records_view(final(inbox)@) == inbox_records(csv_rows(listing).0)
                            &&& before@ != after ==> r.1@ == ActionView::Notify(
                                EWW@,
                                eww_update_args(after),
                            )
                            &&& before@ == after ==> r.1@ == ActionView::Finish(Ok(""@))
                        },
                    },
                    (EwwOpenStage::Notifying, EventView::Sent(_)) => r.1@ == ActionView::Finish(
                        Ok(""@),
                    ) && final(inbox)@ == old(inbox)@,
                    _ => true,
                }
            },
    {
        let done = EwwOpen { stage: EwwOpenStage::Done };
        match (self.stage, event) {
            (EwwOpenStage::Syncing(_), Event::Output(Err(e))) => Some((done, Action::Finish(Err(e)))),
            (EwwOpenStage::Syncing(before), Event::Output(Ok(_))) => {
                let mut run_args: Vec<String> = Vec::new();
                run_args.push("--csv".to_owned());
                run_args.push("list".to_owned());
                assert(strings_view(run_args@) =~= seq!["--csv"@, "list"@]);
                Some(
                    (
                        EwwOpen { stage: EwwOpenStage::Listing(before) },
                        Action::Run(TODOIST.to_owned(), run_args),
                    ),
                )
            },
            (EwwOpenStage::Listing(_), Event::Output(Err(e))) => Some((done, Action::Finish(Err(e)))),
            (EwwOpenStage::Listing(before), Event::Output(Ok(listing))) => {
                match parse_inbox_checked(listing.as_str(), inbox, true) {
                    None => None,
                    Some(Err(e)) => Some((done, Action::Finish(Err(e)))),
                    Some(Ok(after)) => {
                        if str_eq(before.as_str(), after.as_str()) {
                            Some((done, answer("")))
                        } else {
                            let mut notify_args: Vec<String> = Vec::new();
                            notify_args.push("update".to_owned());
                            notify_args.push(join2("TODO=", after.as_str()));
                            assert(strings_view(notify_args@) =~= eww_update_args(after@));
                            Some(
                                (
                                    EwwOpen { stage: EwwOpenStage::Notifying },
                                    Action::Notify(EWW.to_owned(), notify_args),
                                ),
                            )
                        }
                    },
                }
            },
            (EwwOpenStage::Notifying, Event::Sent(_)) => Some((done, answer(""))),
            _ => unreached(),
        }
    }
}

} // verus!
