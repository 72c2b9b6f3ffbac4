//! `magnifier`: toggle the cursor zoom between a factor and no zoom.
//!
//! The zoom factor is a floating-point number: reading it, comparing the current
//! factor with 1 and writing it stay with the caller; the argument check and the
//! command text are here.
use vstd::prelude::*;
use crate::text::join2;

verus! {

/// The answer to `magnifier` without exactly one argument.
pub const ARGS_ERROR: &'static str = "magnifier requires exactly 1 argument";

/// The answer once the zoom was set.
pub const REPLY: &'static str = "sublime text not found, start sublime text";

/// The command that sets the cursor zoom: to `factor` when the zoom is at rest
/// (its factor is 1), and back to 1 otherwise.
pub open spec fn zoom_command(at_rest: bool, factor: Seq<char>) -> Seq<char> {
    if at_rest {
        "keyword cursor:zoom_factor "@ + factor
    } else {
        "keyword cursor:zoom_factor 1"@
    }
}

/// The `magnifier` handler.
pub struct Magnifier;

impl Magnifier {
    /// The zoom factor's text, the one argument that `magnifier` takes.
    pub fn factor_argument(args: &[String]) -> (res: Result<&String, String>)
        ensures
            args@.len() != 1 ==> (res matches Err(e) && e@ == ARGS_ERROR@),
            args@.len() == 1 ==> (res matches Ok(f) && *f == args@[0]),
    {
        if args.len() != 1 {
            return Err(ARGS_ERROR.to_owned());
        }
        Ok(&args[0])
    }

    /// The command that toggles the zoom; `factor` is the zoom factor as `{}` writes it.
    pub fn zoom_command(at_rest: bool, factor: &str) -> (res: String)
        ensures
            res@ == zoom_command(at_rest, factor@),
    {
        if at_rest {
            join2("keyword cursor:zoom_factor ", factor)
        } else {
            "keyword cursor:zoom_factor 1".to_owned()
        }
    }
}

} // verus!
