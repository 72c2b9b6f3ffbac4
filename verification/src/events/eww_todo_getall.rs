//! `eww_todo_getall`: answer the Todoist inbox as JSON.
use vstd::prelude::*;
use crate::helper::{records_json, records_view, to_json, Record};

verus! {

/// The answer to `eww_todo_getall` with arguments.
pub const ARGS_ERROR: &'static str = "eww_todo_getall requires exactly 0 argument";

/// The `eww_todo_getall` handler.
pub struct EwwTodoGetall;

impl EwwTodoGetall {
    /// Answers the tasks of `inbox` as JSON; it takes no argument.
    pub fn handle(args: &[String], inbox: &[Record]) -> (res: Result<String, String>)
        ensures
            args@.len() != 0 ==> (res matches Err(e) && e@ == ARGS_ERROR@),
            args@.len() == 0 ==> (res matches Ok(json) && json@ == records_json(
                records_view(inbox@),
            )),
    {
        if args.len() != 0 {
            return Err(ARGS_ERROR.to_owned());
        }
        Ok(to_json(inbox))
    }
}

} // verus!
