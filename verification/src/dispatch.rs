//! The fixed mapping from menu-action identifiers to outcomes: the event the
//! shell emits toward the front-end, a process quit, or nothing.

use vstd::prelude::*;
use crate::text::str_eq;

verus! {

/// The outcome of one menu click: an event emitted to the window that raised
/// it, an immediate process exit, or no effect at all.
#[derive(PartialEq, Eq, Debug)]
pub enum MenuAction {
    EmitEvent { channel: String, message: String },
    Quit,
    NoOp,
}

/// Whether `a` is the emission of `message` on `channel`.
pub open spec fn is_emit(a: MenuAction, channel: Seq<char>, message: Seq<char>) -> bool {
    a matches MenuAction::EmitEvent { channel: c, message: m } && c@ == channel && m@ == message
}

/// Maps a menu-action identifier to its outcome. The mapping is total and
/// pure: the four known identifiers map to exactly the outcomes below, and
/// every other identifier maps to no effect.
pub fn dispatch_menu_action(id: &str) -> (r: MenuAction)
    ensures
        id@ == "open"@ ==> is_emit(r, "menu://file/open"@, "Open Dialog"@),
        id@ == "openFromURL"@ ==> is_emit(r, "menu://file/openFromURL"@, "Open Dialog"@),
        id@ == "reset"@ ==> is_emit(r, "menu://file/reset"@, "Reset"@),
        id@ == "quit"@ ==> r is Quit,
        id@ != "open"@ && id@ != "openFromURL"@ && id@ != "reset"@ && id@ != "quit"@ ==> r is NoOp,
{
    proof {
        reveal_strlit("open");
        reveal_strlit("openFromURL");
        reveal_strlit("reset");
        reveal_strlit("quit");
        assert("open"@.len() == 4);
        assert("openFromURL"@.len() == 11);
        assert("reset"@.len() == 5);
        assert("quit"@.len() == 4);
        assert("open"@[0] == 'o' && "quit"@[0] == 'q');
    }
    if str_eq(id, "open") {
        MenuAction::EmitEvent {
            channel: ("menu://file/open").to_owned(),
            message: ("Open Dialog").to_owned(),
        }
    } else if str_eq(id, "openFromURL") {
        MenuAction::EmitEvent {
            channel: ("menu://file/openFromURL").to_owned(),
            message: ("Open Dialog").to_owned(),
        }
    } else if str_eq(id, "reset") {
        MenuAction::EmitEvent {
            channel: ("menu://file/reset").to_owned(),
            message: ("Reset").to_owned(),
        }
    } else if str_eq(id, "quit") {
        MenuAction::Quit
    } else {
        MenuAction::NoOp
    }
}

} // verus!
