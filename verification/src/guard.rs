//! The single-instance guard: the name of the system-wide lock, and what the
//! outcome of creating it means for the process.

use vstd::prelude::*;

verus! {

/// Name of the system-wide lock that one running instance holds.
pub const LOCK_NAME: &'static str = "Global\\PlaywrightMoverMutex";

/// The system's error code for "the object existed before this call".
pub const ERROR_ALREADY_EXISTS: u32 = 183;

/// Notice printed by an instance that finds another one running.
pub const DUPLICATE_NOTICE: &'static str = "Programmet kører allerede.";

/// What the process does once it has tried to create the lock.
#[derive(Clone, Copy, Debug, PartialEq, Eq, Structural)]
pub enum Startup {
    /// The lock is ours: go on and start the components.
    Proceed,
    /// Another instance holds the lock: print the notice and end, with
    /// nothing started.
    AlreadyRunning,
}

/// Judges the error code that the system reports after the lock was made.
pub fn check_instance(last_error: u32) -> (startup: Startup)
    ensures
        startup == if last_error == ERROR_ALREADY_EXISTS {
            Startup::AlreadyRunning
        } else {
            Startup::Proceed
        },
{
    if last_error == ERROR_ALREADY_EXISTS {
        Startup::AlreadyRunning
    } else {
        Startup::Proceed
    }
}

/// The UTF-16 code units of a text, followed by a terminating zero unless
/// the text ends in one already.
pub uninterp spec fn wide_c_string(text: Seq<char>) -> Seq<u16>;

/// Whether the text holds a zero character before its last position.
pub open spec fn has_inner_nul(text: Seq<char>) -> bool {
    exists|i: int| 0 <= i < text.len() - 1 && text[i] == '\0'
}

/// `widestring::U16CString::from_str`, followed by `into_vec_with_nul`:
/// encodes a text as a zero-terminated UTF-16 string. It fails exactly for a
/// text with a zero anywhere but at its end; the code units depend on the
/// text alone.
#[verifier::external_body]
fn encode_wide(text: &str) -> (wide: Option<Vec<u16>>)
    ensures
        wide is None <==> has_inner_nul(text@),
        wide matches Some(units) ==> units@ == wide_c_string(text@),
{
    match widestring::U16CString::from_str(text) {
        Ok(s) => Some(s.into_vec_with_nul()),
        Err(_) => None,
    }
}

/// The name of the lock as a zero-terminated UTF-16 string. The name holds
/// no zero character, so the encoding cannot fail.
pub fn lock_name_wide() -> (name: Vec<u16>)
    ensures
        name@ == wide_c_string(LOCK_NAME@),
{
    proof {
        reveal_strlit("Global\\PlaywrightMoverMutex");
        assert(!has_inner_nul(LOCK_NAME@));
    }
    encode_wide(LOCK_NAME).unwrap()
}

} // verus!
