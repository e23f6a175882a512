//! Manager component version command.

use vstd::prelude::*;
use crate::args::{asks_help, is_help};
use crate::versions::{is_usage_versions, usage, VersionsKind, VersionsPlan};
use super::components::{manager_component, manager_component_view};

verus! {

/// Decides `manager versions`, which takes no arguments: list the manager's versions.
pub fn manager_versions(args: &Vec<String>) -> (r: VersionsPlan)
    ensures
        asks_help(args@) ==> is_usage_versions(r, VersionsKind::Manager, 0),
        !asks_help(args@) && args@.len() > 0 ==> is_usage_versions(r, VersionsKind::Manager, 1),
        !asks_help(args@) && args@.len() == 0 ==> (r matches VersionsPlan::List(c) && c@ == manager_component_view()),
{
    if is_help(args) {
        return VersionsPlan::Done(usage(VersionsKind::Manager, 0));
    }
    if args.len() > 0 {
        return VersionsPlan::Done(usage(VersionsKind::Manager, 1));
    }
    VersionsPlan::List(manager_component())
}

} // verus!
