//! The commands that the event socket takes: a handler's name, then its arguments,
//! separated by whitespace.
use vstd::prelude::*;
use crate::text::{join2, split_whitespace, str_eq, strings_view, words};

verus! {

/// The answer to an input without a word.
pub const NO_COMMAND: &'static str = "No command provided";

/// The handlers that the event socket dispatches to.
#[derive(Debug)]
pub enum Command {
    ToggleScratch,
    CloseWindow,
    MoveFocus,
}

/// The handler that a name selects.
pub open spec fn command_named(name: Seq<char>) -> Option<Command> {
    if name == "toggle_scratch"@ {
        Some(Command::ToggleScratch)
    } else if name == "close_window"@ {
        Some(Command::CloseWindow)
    } else if name == "move_focus"@ {
        Some(Command::MoveFocus)
    } else {
        None
    }
}

/// Reads a request: its first word names the handler, the other words are the
/// handler's arguments.
pub fn parse_command(input: &str) -> (res: Result<(Command, Vec<String>), String>)
    ensures
        words(input@).len() == 0 ==> (res matches Err(e) && e@ == NO_COMMAND@),
        words(input@).len() > 0 ==> match command_named(words(input@)[0]) {
            Some(c) => res matches Ok((c2, args)) && c2 == c && strings_view(args@) == words(
                input@,
            ).drop_first(),
            None => res matches Err(e) && e@ == "Unknown event: "@ + words(input@)[0],
        },
{
    let mut parts = split_whitespace(input);
    if parts.len() == 0 {
        return Err(NO_COMMAND.to_owned());
    }
    let ghost all = strings_view(parts@);
    let event = parts.remove(0);
    assert(strings_view(parts@) =~= all.drop_first());
    let e = event.as_str();
    if str_eq(e, "toggle_scratch") {
        Ok((Command::ToggleScratch, parts))
    } else if str_eq(e, "close_window") {
        Ok((Command::CloseWindow, parts))
    } else if str_eq(e, "move_focus") {
        Ok((Command::MoveFocus, parts))
    } else {
        Err(join2("Unknown event: ", e))
    }
}

/// What the event socket writes back: the handler's answer, or its error after `Error: `.
pub fn response_text(result: Result<String, String>) -> (res: String)
    ensures
        match result {
            Ok(answer) => res@ == answer@,
            Err(e) => res@ == "Error: "@ + e@,
        },
{
    match result {
        Ok(answer) => answer,
        Err(e) => join2("Error: ", e.as_str()),
    }
}

} // verus!
