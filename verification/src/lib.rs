//! Command handlers for a tiled-shell desktop front end.
//!
//! The GUI shell dispatches two remote-callable operations to this library:
//! one that reports the current user's display name, and one that
//! acknowledges a command line sent from the front end. The library also
//! fixes the title of the main window.
use vstd::prelude::*;

verus! {

/// What the reply to a command says: the fixed acknowledgement prefix,
/// followed by the command text itself.
pub open spec fn command_reply(command: Seq<char>) -> Seq<char> {
    "Received command: "@ + command
}

/// The display name of the current user, as shown to the front end.
/// A placeholder identity: always the literal `"user"`.
pub fn get_current_name() -> (r: String)
    ensures
        r@ == "user"@,
{
    String::from_str("user")
}

/// Acknowledges a command string sent from the front end.
/// Succeeds on every input, echoing the command behind a fixed prefix.
pub fn handle_command(command: String) -> (r: Result<String, String>)
    ensures
        r is Ok,
        r->Ok_0@ == command_reply(command@),
{
    let mut reply = String::from_str("Received command: ");
    reply.append(command.as_str());
    Ok(reply)
}

/// The title that the main window carries.
pub fn window_title() -> (r: String)
    ensures
        r@ == "Tiled Shell Manager"@,
{
    String::from_str("Tiled Shell Manager")
}

} // verus!
