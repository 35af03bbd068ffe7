//! Launch-mode detection: whether this process was started with the
//! hidden flag that an autostart relaunch passes on the command line.

use vstd::prelude::*;
use vstd::string::StringExecFns;

verus! {

/// The one command-line flag the backend recognizes; it marks a launch
/// triggered by autostart, whose window must not be shown eagerly.
pub open spec fn hidden_flag() -> Seq<char> {
    "--hidden"@
}

/// An argument vector requests a hidden start exactly when one of its
/// arguments is the hidden flag.
pub open spec fn contains_hidden_flag(args: Seq<String>) -> bool {
    exists|i: int| 0 <= i < args.len() && (#[trigger] args[i])@ == hidden_flag()
}

/// Builds the hidden flag as an owned string.
pub fn hidden_flag_string() -> (s: String)
    ensures
        s@ == hidden_flag(),
{
    String::from_str("--hidden")
}

/// Scans an argument vector, as the host hands it over at process
/// start, for the hidden flag. Pure: no side effects, no failure mode.
pub fn was_started_hidden(args: &Vec<String>) -> (b: bool)
    ensures
        b == contains_hidden_flag(args@),
{
    let flag = hidden_flag_string();
    let mut i: usize = 0;
    while i < args.len()
        invariant
            i <= args@.len(),
            flag@ == hidden_flag(),
            forall|j: int| 0 <= j < i ==> (#[trigger] args@[j])@ != hidden_flag(),
        decreases args@.len() - i,
    {
        if args[i] == flag {
            assert(args@[i as int]@ == hidden_flag());
            return true;
        }
        i = i + 1;
    }
    false
}

/// Immutable startup configuration, captured once from the argument
/// vector and passed to every component that needs it, instead of
/// re-reading global process state.
#[derive(Clone, Copy, PartialEq, Eq, Structural, Debug)]
pub struct LaunchMode {
    /// True exactly when the argument vector held the hidden flag.
    pub started_hidden: bool,
}

impl LaunchMode {
    /// Derives the launch mode from the process's argument vector.
    pub fn from_args(args: &Vec<String>) -> (m: LaunchMode)
        ensures
            m.started_hidden == contains_hidden_flag(args@),
    {
        LaunchMode { started_hidden: was_started_hidden(args) }
    }
}

} // verus!
