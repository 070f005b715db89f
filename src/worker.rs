use vstd::prelude::*;

use crate::convert::{json_of_yaml, yaml_to_json};
use crate::kinds::KindMap;
use crate::model::{Cluster, GenericItem, ResourcePatch, TargetObject};
use crate::text::{in_context, join_url, joined, with_context};

verus! {

/// Why a ResourcePatch is not worked on.
pub enum ValidationError {
    NotAResourcePatch,
    EmptyTargetName,
    EmptyTargetApiVersion,
    EmptyTargetKind,
}

impl ValidationError {
    /// The message logged for this failure.
    pub fn message(&self) -> (r: String)
        ensures
            r@ == self.spec_message(),
    {
        match self {
            ValidationError::NotAResourcePatch => String::from_str("Item is not a ResourcePatch"),
            ValidationError::EmptyTargetName => String::from_str(
                "Target object's name may not be empty",
            ),
            ValidationError::EmptyTargetApiVersion => String::from_str(
                "Target object's apiVersion may not be empty",
            ),
            ValidationError::EmptyTargetKind => String::from_str(
                "Target object's kind may not be empty",
            ),
        }
    }

    pub open spec fn spec_message(&self) -> Seq<char> {
        match self {
            ValidationError::NotAResourcePatch => "Item is not a ResourcePatch"@,
            ValidationError::EmptyTargetName => "Target object's name may not be empty"@,
            ValidationError::EmptyTargetApiVersion => "Target object's apiVersion may not be empty"@,
            ValidationError::EmptyTargetKind => "Target object's kind may not be empty"@,
        }
    }
}

/// The first check that a ResourcePatch fails, in the order: kind, target
/// name, target apiVersion, target kind.
pub open spec fn validation_of(p: ResourcePatch) -> Option<ValidationError> {
    if p.kind@ != "ResourcePatch"@ {
        Some(ValidationError::NotAResourcePatch)
    } else if p.spec.target_obj.name@.len() == 0 {
        Some(ValidationError::EmptyTargetName)
    } else if p.spec.target_obj.api_version@.len() == 0 {
        Some(ValidationError::EmptyTargetApiVersion)
    } else if p.spec.target_obj.kind@.len() == 0 {
        Some(ValidationError::EmptyTargetKind)
    } else {
        None
    }
}

/// Checks that an item is a ResourcePatch with a complete target.
pub fn validate(p: &ResourcePatch) -> (r: Result<(), ValidationError>)
    ensures
        match r {
            Ok(_) => validation_of(*p) is None,
            Err(e) => validation_of(*p) == Some(e),
        },
{
    let expected = String::from_str("ResourcePatch");
    proof {
        reveal_strlit("ResourcePatch");
    }
    if p.kind != expected {
        return Err(ValidationError::NotAResourcePatch);
    }
    if p.spec.target_obj.name.as_str().is_empty() {
        return Err(ValidationError::EmptyTargetName);
    }
    if p.spec.target_obj.api_version.as_str().is_empty() {
        return Err(ValidationError::EmptyTargetApiVersion);
    }
    if p.spec.target_obj.kind.as_str().is_empty() {
        return Err(ValidationError::EmptyTargetKind);
    }
    Ok(())
}

/// The lowercase form of a text, as Unicode defines it.
pub uninterp spec fn lower_of(s: Seq<char>) -> Seq<char>;

/// Relies on str::to_lowercase: the result depends on the characters alone.
#[verifier::external_body]
fn lowercase(s: &str) -> (r: String)
    ensures
        r@ == lower_of(s@),
{
    s.to_lowercase()
}

/// The plural that addresses `kind`: the one discovery recorded, or else the
/// kind in lowercase.
pub open spec fn plural_of(kinds: Map<Seq<char>, Seq<char>>, kind: Seq<char>) -> Seq<char> {
    if kinds.contains_key(kind) {
        kinds[kind]
    } else {
        lower_of(kind)
    }
}

/// Resolves the resource segment for a kind.
pub fn resolve_plural(kinds: &KindMap, kind: &String) -> (r: String)
    ensures
        r@ == plural_of(kinds@, kind@),
{
    match kinds.get(kind) {
        Some(p) => p.clone(),
        None => lowercase(kind.as_str()),
    }
}

/// `api/{apiVersion}/{plural}/{name}`, with `namespaces/{namespace}/` before
/// the plural when the namespace is not empty.
pub open spec fn target_uri_of(
    api_version: Seq<char>,
    namespace: Seq<char>,
    plural: Seq<char>,
    name: Seq<char>,
) -> Seq<char> {
    if namespace.len() == 0 {
        "api/"@ + api_version + "/"@ + plural + "/"@ + name
    } else {
        "api/"@ + api_version + "/namespaces/"@ + namespace + "/"@ + plural + "/"@ + name
    }
}

/// The path of a target object, relative to the control plane's address.
pub fn target_object_uri(target: &TargetObject, plural: &str) -> (r: String)
    ensures
        r@ == target_uri_of(target.api_version@, target.namespace@, plural@, target.name@),
{
    proof {
        reveal_strlit("api/");
        reveal_strlit("/");
        reveal_strlit("/namespaces/");
    }
    let mut r = String::from_str("api/");
    r.append(target.api_version.as_str());
    if !target.namespace.as_str().is_empty() {
        r.append("/namespaces/");
        r.append(target.namespace.as_str());
    }
    r.append("/");
    r.append(plural);
    r.append("/");
    r.append(target.name.as_str());
    proof {
        if target.namespace@.len() == 0 {
            assert(r@ =~= target_uri_of(target.api_version@, target.namespace@, plural@, target.name@));
        } else {
            assert(r@ =~= target_uri_of(target.api_version@, target.namespace@, plural@, target.name@));
        }
    }
    r
}

/// The object a valid ResourcePatch is about: its path and its full URL.
pub struct PatchTarget {
    pub uri: String,
    pub url: String,
}

/// Validates one ResourcePatch and resolves the object it targets. Nothing is
/// requested from the control plane for an item that fails validation.
pub fn work_on_subitem(subitem: &ResourcePatch, cluster: &Cluster, api_resources: &KindMap) -> (r:
    Result<PatchTarget, ValidationError>)
    ensures
        match r {
            Ok(t) => {
                &&& validation_of(*subitem) is None
                &&& t.uri@ == target_uri_of(
                    subitem.spec.target_obj.api_version@,
                    subitem.spec.target_obj.namespace@,
                    plural_of(api_resources@, subitem.spec.target_obj.kind@),
                    subitem.spec.target_obj.name@,
                )
                &&& t.url@ == joined(cluster.address@, t.uri@)
            },
            Err(e) => validation_of(*subitem) == Some(e),
        },
{
    match validate(subitem) {
        Err(e) => Err(e),
        Ok(_) => {
            let target = &subitem.spec.target_obj;
            let plural = resolve_plural(api_resources, &target.kind);
            let uri = target_object_uri(target, plural.as_str());
            let url = join_url(cluster.address.as_str(), uri.as_str());
            Ok(PatchTarget { uri, url })
        },
    }
}


/// What came back from a request for an object: the transport failed, the
/// reply could not be read as an object, or the object's current state.
pub enum Fetched {
    Failed(String),
    Unreadable(String),
    Current(GenericItem),
}

/// Content type of every patch this controller sends.
pub open spec fn merge_patch_type() -> Seq<char> {
    "application/strategic-merge-patch+json"@
}

/// A merge patch ready to be sent.
pub struct PatchRequest {
    pub url: String,
    pub body: String,
    pub content_type: String,
    pub before_version: String,
}

/// The request that follows the fetch of a target, or the message of the
/// failure that ends the work on it. No patch is made unless the target was
/// fetched and read and its patch body converts to JSON.
pub fn work_on_item_contents(target: &PatchTarget, fetched: Fetched, patch: &str) -> (r: Result<
    PatchRequest,
    String,
>)
    ensures
        match fetched {
            Fetched::Failed(e) => r is Err && r->Err_0@ == in_context("Unable to get target contents for "@ + target.uri@, e@),
            Fetched::Unreadable(e) => r is Err && r->Err_0@ == in_context("Unable to parse current object to generic object for "@ + target.uri@, e@),
            Fetched::Current(item) => match r {
                Ok(req) => {
                    &&& json_of_yaml(patch@) == Some(req.body@)
                    &&& req.url@ == target.url@
                    &&& req.content_type@ == merge_patch_type()
                    &&& req.before_version@ == item.metadata.resource_version@
                },
                Err(msg) => {
                    &&& json_of_yaml(patch@) is None
                    &&& exists|c: Seq<char>| msg@ == in_context("Unable to parse patch from YAML for "@ + target.uri@, c)
                },
            },
        },
{
    match fetched {
        Fetched::Failed(e) => Err(fail_for(&target.uri, "Unable to get target contents for ", e.as_str())),
        Fetched::Unreadable(e) => Err(fail_for(&target.uri, "Unable to parse current object to generic object for ", e.as_str())),
        Fetched::Current(item) => match yaml_to_json(patch) {
            Err(c) => Err(fail_for(&target.uri, "Unable to parse patch from YAML for ", c.as_str())),
            Ok(body) => {
                proof {
                    reveal_strlit("application/strategic-merge-patch+json");
                }
                Ok(PatchRequest {
                    url: target.url.clone(),
                    body,
                    content_type: String::from_str("application/strategic-merge-patch+json"),
                    before_version: item.metadata.resource_version,
                })
            },
        },
    }
}

/// `{what}{uri}: {cause}`.
fn fail_for(uri: &String, what: &str, cause: &str) -> (r: String)
    ensures
        r@ == in_context(what@ + uri@, cause@),
{
    let mut context = String::from_str(what);
    context.append(uri.as_str());
    with_context(context.as_str(), cause)
}

/// The line logged once a patch has been sent: the version change on
/// success, else the failure.
pub fn patch_outcome(target: &PatchTarget, before_version: &str, patched: Fetched) -> (r: Result<
    String,
    String,
>)
    ensures
        match patched {
            Fetched::Failed(e) => r is Err && r->Err_0@ == in_context("Unable to execute patch request for "@ + target.uri@, e@),
            Fetched::Unreadable(e) => r is Err && r->Err_0@ == in_context("Unable to parse result to generic object for "@ + target.uri@, e@),
            Fetched::Current(item) => r is Ok && r->Ok_0@ == "Successfully patched "@ + target.uri@
                + ": "@ + before_version@ + " -> "@ + item.metadata.resource_version@,
        },
{
    match patched {
        Fetched::Failed(e) => Err(fail_for(&target.uri, "Unable to execute patch request for ", e.as_str())),
        Fetched::Unreadable(e) => Err(fail_for(&target.uri, "Unable to parse result to generic object for ", e.as_str())),
        Fetched::Current(item) => {
            proof {
                reveal_strlit("Successfully patched ");
                reveal_strlit(": ");
                reveal_strlit(" -> ");
            }
            let mut line = String::from_str("Successfully patched ");
            line.append(target.uri.as_str());
            line.append(": ");
            line.append(before_version);
            line.append(" -> ");
            line.append(item.metadata.resource_version.as_str());
            Ok(line)
        },
    }
}

} // verus!
