//! The enable-on-first-run autostart rule: register the application to
//! launch at login, with the hidden flag, unless registration is
//! already enabled.

use vstd::prelude::*;
use crate::launch::contains_hidden_flag;
use crate::launch::hidden_flag;
use crate::launch::hidden_flag_string;

verus! {

/// Outcome of asking the host's autostart collaborator whether the
/// login entry is registered: a tri-state, since the query can fail.
#[derive(Clone, Copy, PartialEq, Eq, Structural, Debug)]
pub enum AutostartQuery {
    Enabled,
    Disabled,
    QueryFailed,
}

/// What the startup routine asks the autostart collaborator to do.
/// There is no disable request: the backend never turns autostart off.
#[derive(Clone, Copy, PartialEq, Eq, Structural, Debug)]
pub enum AutostartAction {
    Enable,
    LeaveUnchanged,
}

/// The enable-on-first-run rule: enable unless the registration is
/// already enabled. A failed query counts as "not enabled", a
/// deliberate fail-open choice toward enabling.
pub open spec fn autostart_decision(q: AutostartQuery) -> AutostartAction {
    match q {
        AutostartQuery::Enabled => AutostartAction::LeaveUnchanged,
        AutostartQuery::Disabled => AutostartAction::Enable,
        AutostartQuery::QueryFailed => AutostartAction::Enable,
    }
}

/// Decides, once during startup, whether the host's enable() is called.
/// Exactly one enable call is requested when the query reports the
/// registration disabled or the query fails; an enabled registration is
/// left alone, and no disable call is ever requested.
pub fn decide_autostart(q: &AutostartQuery) -> (a: AutostartAction)
    ensures
        a == autostart_decision(*q),
        a is Enable <==> !(*q is Enabled),
{
    match q {
        AutostartQuery::Enabled => AutostartAction::LeaveUnchanged,
        AutostartQuery::Disabled => AutostartAction::Enable,
        AutostartQuery::QueryFailed => AutostartAction::Enable,
    }
}

/// The fixed argument list an autostart relaunch passes to the
/// process: exactly one argument, the hidden flag.
pub fn autostart_relaunch_args() -> (v: Vec<String>)
    ensures
        v@.len() == 1,
        v@[0]@ == hidden_flag(),
{
    let mut v: Vec<String> = Vec::new();
    v.push(hidden_flag_string());
    v
}

/// An autostart relaunch is always detected as a hidden start:
/// whatever else stands in the argument vector, appending the relaunch
/// argument makes the hidden flag present.
pub proof fn lemma_relaunch_detected_hidden(args: Seq<String>, flag: String)
    requires
        flag@ == hidden_flag(),
    ensures
        contains_hidden_flag(args.push(flag)),
{
    assert(args.push(flag)[args.len() as int]@ == hidden_flag());
}

} // verus!
