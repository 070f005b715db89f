use resource_patcher::kinds::KindMap;
use resource_patcher::model::{Cluster, GenericItem, Metadata, ResourcePatch, Spec, TargetObject};
use resource_patcher::worker::{
    patch_outcome, resolve_plural, target_object_uri, validate, work_on_item_contents,
    work_on_subitem, Fetched, PatchTarget, ValidationError,
};

fn cluster() -> Cluster {
    Cluster {
        address: "https://cp.example:6443".to_string(),
        token: "t".to_string(),
        certificate: "c".to_string(),
    }
}

fn target(kind: &str, namespace: &str, name: &str, api_version: &str) -> TargetObject {
    TargetObject {
        name: name.to_string(),
        namespace: namespace.to_string(),
        kind: kind.to_string(),
        api_version: api_version.to_string(),
    }
}

fn resource_patch(kind: &str, t: TargetObject, patch: &str) -> ResourcePatch {
    ResourcePatch {
        api_version: "mmilev.io/v1alpha1".to_string(),
        kind: kind.to_string(),
        metadata: Metadata {
            name: "rp".to_string(),
            namespace: "default".to_string(),
            resource_version: "1".to_string(),
        },
        spec: Spec { target_obj: t, patch: patch.to_string() },
    }
}

fn item(version: &str) -> GenericItem {
    GenericItem {
        kind: "Pod".to_string(),
        metadata: Metadata {
            name: "foo".to_string(),
            namespace: "default".to_string(),
            resource_version: version.to_string(),
        },
    }
}

fn deployment_map() -> KindMap {
    let mut m = KindMap::new();
    m.insert("Deployment".to_string(), "deployments".to_string());
    m
}

#[test]
fn resolve_uses_mapped_plural() {
    let m = deployment_map();
    assert_eq!(resolve_plural(&m, &"Deployment".to_string()), "deployments");
}

#[test]
fn resolve_falls_back_to_lowercase() {
    let m = deployment_map();
    assert_eq!(resolve_plural(&m, &"ConfigMap".to_string()), "configmap");
    assert_eq!(resolve_plural(&KindMap::new(), &"Pod".to_string()), "pod");
}

#[test]
fn later_insert_replaces_plural() {
    let mut m = deployment_map();
    m.insert("Deployment".to_string(), "deploys".to_string());
    assert_eq!(m.get(&"Deployment".to_string()), Some(&"deploys".to_string()));
    assert_eq!(m.get(&"Pod".to_string()), None);
}

#[test]
fn rejects_wrong_kind() {
    let rp = resource_patch("Other", target("Pod", "default", "foo", "v1"), "a: 1");
    assert!(matches!(validate(&rp), Err(ValidationError::NotAResourcePatch)));
    let r = work_on_subitem(&rp, &cluster(), &KindMap::new());
    match r {
        Err(e) => assert_eq!(e.message(), "Item is not a ResourcePatch"),
        Ok(_) => panic!("accepted an item of another kind"),
    }
}

#[test]
fn rejects_empty_target_fields() {
    let m = KindMap::new();
    let rp = resource_patch("ResourcePatch", target("Pod", "default", "", "v1"), "a: 1");
    assert!(matches!(work_on_subitem(&rp, &cluster(), &m), Err(ValidationError::EmptyTargetName)));
    let rp = resource_patch("ResourcePatch", target("Pod", "default", "foo", ""), "a: 1");
    assert!(matches!(work_on_subitem(&rp, &cluster(), &m), Err(ValidationError::EmptyTargetApiVersion)));
    let rp = resource_patch("ResourcePatch", target("", "default", "foo", "v1"), "a: 1");
    assert!(matches!(work_on_subitem(&rp, &cluster(), &m), Err(ValidationError::EmptyTargetKind)));
    assert_eq!(ValidationError::EmptyTargetKind.message(), "Target object's kind may not be empty");
}

#[test]
fn uri_without_namespace() {
    let t = target("Node", "", "n1", "v1");
    assert_eq!(target_object_uri(&t, "nodes"), "api/v1/nodes/n1");
}

#[test]
fn uri_with_namespace() {
    let t = target("Pod", "kube-system", "p", "v1");
    assert_eq!(target_object_uri(&t, "pods"), "api/v1/namespaces/kube-system/pods/p");
}

#[test]
fn pod_patch_scenario() {
    let mut m = KindMap::new();
    m.insert("Pod".to_string(), "pods".to_string());
    let rp = resource_patch("ResourcePatch", target("Pod", "default", "foo", "v1"), "replicas: 3");
    let t = match work_on_subitem(&rp, &cluster(), &m) {
        Ok(t) => t,
        Err(_) => panic!("valid item refused"),
    };
    assert_eq!(t.uri, "api/v1/namespaces/default/pods/foo");
    assert_eq!(t.url, "https://cp.example:6443/api/v1/namespaces/default/pods/foo");
    let req = match work_on_item_contents(&t, Fetched::Current(item("41")), &rp.spec.patch) {
        Ok(r) => r,
        Err(e) => panic!("{}", e),
    };
    assert_eq!(req.url, t.url);
    assert_eq!(req.body, "{\"replicas\":3}");
    assert_eq!(req.content_type, "application/strategic-merge-patch+json");
    assert_eq!(req.before_version, "41");
}

#[test]
fn deployment_resolves_to_discovered_plural() {
    let rp = resource_patch("ResourcePatch", target("Deployment", "apps", "web", "v1"), "a: 1");
    let t = match work_on_subitem(&rp, &cluster(), &deployment_map()) {
        Ok(t) => t,
        Err(_) => panic!("valid item refused"),
    };
    assert_eq!(t.uri, "api/v1/namespaces/apps/deployments/web");
}

#[test]
fn nested_yaml_converts_to_json() {
    let t = PatchTarget { uri: "api/v1/x/y".to_string(), url: "h/api/v1/x/y".to_string() };
    let req = work_on_item_contents(&t, Fetched::Current(item("1")), "a:\n  b: 1\n");
    assert_eq!(req.ok().map(|r| r.body), Some("{\"a\":{\"b\":1}}".to_string()));
    let yaml = "s: text\nf: true\nl:\n  - 1\n  - two\nm:\n  k: null\n";
    let req = work_on_item_contents(&t, Fetched::Current(item("1")), yaml);
    assert_eq!(
        req.ok().map(|r| r.body),
        Some("{\"f\":true,\"l\":[1,\"two\"],\"m\":{\"k\":null},\"s\":\"text\"}".to_string())
    );
}

#[test]
fn bad_yaml_is_reported_with_uri() {
    let t = PatchTarget { uri: "api/v1/x/y".to_string(), url: "h/api/v1/x/y".to_string() };
    match work_on_item_contents(&t, Fetched::Current(item("1")), "a: [1, 2") {
        Err(e) => assert!(e.starts_with("Unable to parse patch from YAML for api/v1/x/y: ")),
        Ok(_) => panic!("malformed YAML accepted"),
    }
}

#[test]
fn failed_get_stops_before_patch() {
    let t = PatchTarget { uri: "api/v1/namespaces/default/pods/foo".to_string(), url: "h".to_string() };
    let r = work_on_item_contents(&t, Fetched::Failed("403 Forbidden".to_string()), "a: 1");
    match r {
        Err(e) => assert_eq!(
            e,
            "Unable to get target contents for api/v1/namespaces/default/pods/foo: 403 Forbidden"
        ),
        Ok(_) => panic!("patch planned after a failed fetch"),
    }
    let r = work_on_item_contents(&t, Fetched::Unreadable("eof".to_string()), "a: 1");
    assert_eq!(
        r.err(),
        Some("Unable to parse current object to generic object for api/v1/namespaces/default/pods/foo: eof".to_string())
    );
}

#[test]
fn patch_outcome_lines() {
    let t = PatchTarget { uri: "api/v1/pods/foo".to_string(), url: "h".to_string() };
    assert_eq!(
        patch_outcome(&t, "41", Fetched::Current(item("42"))),
        Ok("Successfully patched api/v1/pods/foo: 41 -> 42".to_string())
    );
    assert_eq!(
        patch_outcome(&t, "41", Fetched::Failed("boom".to_string())),
        Err("Unable to execute patch request for api/v1/pods/foo: boom".to_string())
    );
    assert_eq!(
        patch_outcome(&t, "41", Fetched::Unreadable("bad".to_string())),
        Err("Unable to parse result to generic object for api/v1/pods/foo: bad".to_string())
    );
}
