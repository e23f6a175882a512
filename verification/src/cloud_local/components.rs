//! Cloud-local component declarations shared by operations and version discovery.

use vstd::prelude::*;
use crate::operations::{component_views, Component, ComponentKind};

verus! {

/// The cloud-local components: `(name, repository, binding key, kind)`.
pub open spec fn cloud_local_component_views() -> Seq<(Seq<char>, Seq<char>, Seq<char>, ComponentKind)> {
    seq![
        ("cloud"@, "oqtopus-team/oqtopus-cloud"@, "cloud_local_cloud_version"@, ComponentKind::CloudPython),
        ("frontend"@, "oqtopus-team/oqtopus-frontend"@, "cloud_local_frontend_version"@, ComponentKind::Static),
        ("admin"@, "oqtopus-team/oqtopus-admin"@, "cloud_local_admin_version"@, ComponentKind::Static),
    ]
}

/// The cloud-local components, in installation order.
pub fn cloud_local_components() -> (r: Vec<Component>)
    ensures
        component_views(r@) == cloud_local_component_views(),
{
    let r = vec![
        Component {
            name: "cloud",
            repository: "oqtopus-team/oqtopus-cloud",
            binding_key: "cloud_local_cloud_version",
            kind: ComponentKind::CloudPython,
        },
        Component {
            name: "frontend",
            repository: "oqtopus-team/oqtopus-frontend",
            binding_key: "cloud_local_frontend_version",
            kind: ComponentKind::Static,
        },
        Component {
            name: "admin",
            repository: "oqtopus-team/oqtopus-admin",
            binding_key: "cloud_local_admin_version",
            kind: ComponentKind::Static,
        },
    ];
    assert(component_views(r@) =~= cloud_local_component_views());
    r
}

} // verus!
