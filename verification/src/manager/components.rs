//! The manager component, shared by operations and version discovery.

use vstd::prelude::*;
use crate::operations::{Component, ComponentKind};

verus! {

/// The manager component: `(name, repository, binding key, kind)`.
pub open spec fn manager_component_view() -> (Seq<char>, Seq<char>, Seq<char>, ComponentKind) {
    ("manager"@, "oqtopus-team/oqtopus-manager"@, "manager_version"@, ComponentKind::Manager)
}

/// The manager component.
pub fn manager_component() -> (r: Component)
    ensures
        r@ == manager_component_view(),
{
    Component {
        name: "manager",
        repository: "oqtopus-team/oqtopus-manager",
        binding_key: "manager_version",
        kind: ComponentKind::Manager,
    }
}

} // verus!
