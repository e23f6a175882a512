//! Backend component version command.

use vstd::prelude::*;
use crate::args::{asks_help, is_help};
use crate::operations::{find_component, first_named_view, lemma_first_named_view};
use crate::versions::{is_usage_versions, usage, VersionsKind, VersionsPlan};
use super::operations::{backend_component_views, backend_components};

verus! {

/// Decides `backend versions <component>`: which component's versions to list.
pub fn backend_versions(args: &Vec<String>) -> (r: Result<VersionsPlan, String>)
    ensures
        asks_help(args@) ==> (r matches Ok(p) && is_usage_versions(p, VersionsKind::Backend, 0)),
        !asks_help(args@) && args@.len() != 1 ==> (r matches Ok(p) && is_usage_versions(p, VersionsKind::Backend, 1)),
        !asks_help(args@) && args@.len() == 1 ==> match first_named_view(backend_component_views(), args@[0]@) {
            None => r matches Err(e) && e@ == "unknown component: "@ + args@[0]@,
            Some(c) => r matches Ok(VersionsPlan::List(rc)) && rc@ == c,
        },
{
    if is_help(args) {
        return Ok(VersionsPlan::Done(usage(VersionsKind::Backend, 0)));
    }
    if args.len() != 1 {
        return Ok(VersionsPlan::Done(usage(VersionsKind::Backend, 1)));
    }
    let components = backend_components();
    proof {
        lemma_first_named_view(components@, args@[0]@);
    }
    match find_component(components.as_slice(), args[0].as_str()) {
        Ok(c) => Ok(VersionsPlan::List(c)),
        Err(e) => Err(e),
    }
}

} // verus!
