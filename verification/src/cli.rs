//! The streaming program's command line: which screen to run.

use vstd::prelude::*;
use crate::text::str_eq;

verus! {

/// The screen the streaming program runs.
#[derive(Clone, Copy, Debug, PartialEq, Eq, Structural)]
pub enum Mode {
    /// `--chat`: the chat reader.
    Chat,
    /// `--avatar`: the talking avatar.
    Avatar,
    /// Anything else: nothing runs.
    Idle,
}

/// The mode named by the first argument.
pub open spec fn mode_spec(arg: Seq<char>) -> Mode {
    if arg == "--chat"@ {
        Mode::Chat
    } else if arg == "--avatar"@ {
        Mode::Avatar
    } else {
        Mode::Idle
    }
}

/// The mode named by the program's first argument (`args[0]` is the program
/// itself, and a first argument must be given).
pub fn select_mode(args: &Vec<String>) -> (m: Mode)
    requires
        args@.len() >= 2,
    ensures
        m == mode_spec(args@[1]@),
{
    let arg = args[1].as_str();
    if str_eq(arg, "--chat") {
        Mode::Chat
    } else if str_eq(arg, "--avatar") {
        Mode::Avatar
    } else {
        Mode::Idle
    }
}

} // verus!
