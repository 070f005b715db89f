use vstd::prelude::*;

verus! {

/// Where the control plane is and how to reach it.
pub struct Cluster {
    pub address: String,
    pub token: String,
    pub certificate: String,
}

/// The collection of ResourcePatch objects as the control plane lists it.
pub struct ResourcePatchList {
    pub api_version: String,
    pub kind: String,
    pub items: Vec<ResourcePatch>,
}

/// A declarative patch for one target object.
pub struct ResourcePatch {
    pub api_version: String,
    pub kind: String,
    pub metadata: Metadata,
    pub spec: Spec,
}

/// Object metadata; a missing namespace or resourceVersion is empty.
pub struct Metadata {
    pub name: String,
    pub namespace: String,
    pub resource_version: String,
}

/// What a ResourcePatch asks for: a target and a YAML-encoded patch body.
pub struct Spec {
    pub target_obj: TargetObject,
    pub patch: String,
}

/// Reference to the object a patch applies to; an empty namespace means the
/// object is cluster-scoped.
pub struct TargetObject {
    pub name: String,
    pub namespace: String,
    pub kind: String,
    pub api_version: String,
}

/// The few fields of any object that are read to report a patch.
pub struct GenericItem {
    pub kind: String,
    pub metadata: Metadata,
}

/// The top-level listing of API groups.
pub struct ApiGroupList {
    pub api_version: String,
    pub kind: String,
    pub groups: Vec<ApiGroupListItem>,
}

/// One API group and its preferred version.
pub struct ApiGroupListItem {
    pub name: String,
    pub preferred_version: PreferredVersion,
}

/// The version of a group that discovery asks for.
pub struct PreferredVersion {
    pub group_version: String,
    pub version: String,
}

/// The resources that one group version serves.
pub struct ApiResourceList {
    pub kind: String,
    pub resources: Vec<ApiResourceListItem>,
}

/// One served resource: its plural name (or subresource path) and its kind.
pub struct ApiResourceListItem {
    pub name: String,
    pub kind: String,
}

} // verus!
