//! The lines the client prints, pinned to the exact text so the entry
//! point has nothing to phrase on its own.

use vstd::prelude::*;
use vstd::string::*;

verus! {

/// The confirmation text for an item that was added to the inbox.
pub open spec fn confirmation_text(todo: Seq<char>) -> Seq<char> {
    "Todo '"@ + todo + "' added to inbox."@
}

/// The confirmation line printed after a successful add.
pub fn confirmation_line(todo: &str) -> (r: String)
    ensures
        r@ == confirmation_text(todo@),
{
    let mut out: String = "Todo '".to_owned();
    out.append(todo);
    out.append("' added to inbox.");
    out
}

/// What the entry point prints after the add-item call, given whether it
/// succeeded: a confirmation line exactly on success, and nothing — the
/// one silent failure in the program — otherwise.
pub fn add_outcome_line(succeeded: bool, todo: &str) -> (r: Option<String>)
    ensures
        succeeded <==> r is Some,
        r matches Some(line) ==> line@ == confirmation_text(todo@),
{
    if succeeded {
        Some(confirmation_line(todo))
    } else {
        None
    }
}

/// The fixed farewell line, printed on every normal exit.
pub fn farewell_line() -> (r: String)
    ensures
        r@ == "Bye!"@,
{
    "Bye!".to_owned()
}

/// The notice printed before the user profile is fetched remotely.
pub fn fetching_line() -> (r: String)
    ensures
        r@ == "Fetching user data... "@,
{
    "Fetching user data... ".to_owned()
}

/// The notice printed once the fetch has returned.
pub fn fetched_line() -> (r: String)
    ensures
        r@ == "done."@,
{
    "done.".to_owned()
}

/// The notice printed when the fetched profile is persisted at `path`.
pub fn storing_line(path: &str) -> (r: String)
    ensures
        r@ == "Storing user data in '"@ + path@ + "'."@,
{
    let mut out: String = "Storing user data in '".to_owned();
    out.append(path);
    out.append("'.");
    out
}

} // verus!
