use vstd::prelude::*;
use crate::strutil::push_char;

verus! {

/// Startup configuration: the path of the file being edited.
pub struct Config {
    pub filepath: String,
}

/// The active editing mode. Exactly one is active at any time; only
/// `Command` carries state — the command-line text typed so far.
#[derive(PartialEq, Eq, Debug)]
pub enum Mode {
    Normal,
    Insert,
    Command(String),
}

/// The status-line label of a mode: the mode's name, with the pending
/// command text (and a trailing space) appended in command mode.
pub open spec fn mode_text_seq(m: Mode) -> Seq<char> {
    match m {
        Mode::Normal => "NORMAL"@,
        Mode::Insert => "INSERT"@,
        Mode::Command(cmd) => "COMMAND:"@ + cmd@ + seq![' '],
    }
}

/// True in insert mode; the cursor may then rest one column past the last
/// character of a line, to append.
pub open spec fn mode_allows_append(m: Mode) -> bool {
    m is Insert
}

impl Mode {
    /// The status-line label of this mode.
    pub fn text(&self) -> (s: String)
        ensures
            s@ == mode_text_seq(*self),
    {
        match self {
            Mode::Normal => "NORMAL".to_owned(),
            Mode::Insert => "INSERT".to_owned(),
            Mode::Command(cmd) => {
                let mut s = "COMMAND:".to_owned();
                s.append(cmd.as_str());
                push_char(&mut s, ' ');
                proof {
                    assert(s@ =~= "COMMAND:"@ + cmd@ + seq![' ']);
                }
                s
            },
        }
    }
}

/// The status message that reports the outcome of a save: a fixed success
/// line, or the failure line with the reason appended.
pub fn save_message(ok: bool, reason: &String) -> (s: String)
    ensures
        ok ==> s@ == "Save complete"@,
        !ok ==> s@ == "Save failed! reason: "@ + reason@,
{
    if ok {
        "Save complete".to_owned()
    } else {
        let mut s = "Save failed! reason: ".to_owned();
        s.append(reason.as_str());
        s
    }
}

/// The status message for a command-line entry that names no known
/// command.
pub open spec fn unknown_command_text() -> Seq<char> {
    "Sorry, that command is not implemented for now! Go back to Normal mode with C-c."@
}

/// The status message for a command-line entry that names no known
/// command.
pub fn unknown_command_message() -> (s: String)
    ensures
        s@ == unknown_command_text(),
{
    "Sorry, that command is not implemented for now! Go back to Normal mode with C-c.".to_owned()
}

} // verus!
