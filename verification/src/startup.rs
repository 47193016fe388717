//! Starting with the system: the entry of the signed-in user.
use vstd::prelude::*;
use crate::text::{decimal, push_decimal};
use crate::utf16::{utf16, wide};

verus! {

/// The key of the entries.
pub fn run_key() -> (key: &'static str)
    ensures
        key@ == "Software\\Microsoft\\Windows\\CurrentVersion\\Run"@,
{
    "Software\\Microsoft\\Windows\\CurrentVersion\\Run"
}

/// The name of this program's entry.
pub fn value_name() -> (name: &'static str)
    ensures
        name@ == "cHiDeScaler-Neo"@,
{
    "cHiDeScaler-Neo"
}

/// The entry: the path of the program in quotes, as terminated wide characters.
pub fn startup_command(program: &str) -> (command: Vec<u16>)
    ensures
        command@ == utf16("\""@ + program@ + "\""@).push(0),
{
    let mut text = String::from_str("\"");
    text.append(program);
    text.append("\"");
    wide(text.as_str())
}

/// The length of the entry in bytes.
pub fn command_bytes(command: &Vec<u16>) -> (n: u32)
    requires
        command@.len() * 2 <= u32::MAX,
    ensures
        n == command@.len() * 2,
{
    (command.len() as u64 * 2) as u32
}

pub const ERROR_SUCCESS: u32 = 0;

pub const ERROR_FILE_NOT_FOUND: u32 = 2;

pub open spec fn failure_text(status: u32) -> Seq<char> {
    "Windows startup registration failed: "@ + decimal(status as nat)
}

/// The entry is as it was asked for, by the system's answer.
pub open spec fn entry_is_right(enabled: bool, status: u32) -> bool {
    status == ERROR_SUCCESS || (!enabled && status == ERROR_FILE_NOT_FOUND)
}

/// How the change of the entry ended. An entry that was to be removed and is not there is no
/// failure.
pub fn set_enabled(enabled: bool, status: u32) -> (r: Result<(), String>)
    ensures
        match r {
            Ok(_) => entry_is_right(enabled, status),
            Err(text) => !entry_is_right(enabled, status) && text@ == failure_text(status),
        },
{
    if status == ERROR_SUCCESS || (!enabled && status == ERROR_FILE_NOT_FOUND) {
        Ok(())
    } else {
        let mut text = String::from_str("Windows startup registration failed: ");
        push_decimal(&mut text, status as u64);
        Err(text)
    }
}

/// Only success, and a missing entry that was to be removed, leave the entry as it was asked for; a
/// missing one that was to be written does not.
pub proof fn a_missing_entry_counts_as_removed(enabled: bool, status: u32)
    ensures
        entry_is_right(enabled, 0),
        entry_is_right(false, 2) && !entry_is_right(true, 2),
        status != 0 && status != 2 ==> !entry_is_right(enabled, status),
        "Windows startup registration failed: "@.is_prefix_of(failure_text(status)),
        failure_text(status) == "Windows startup registration failed: "@ + decimal(status as nat),
{
}

} // verus!
