use vstd::prelude::*;

use crate::kinds::{kind_map_of, lemma_kind_map_same_pairs, pairs_functional, pairs_view, KindMap};
use crate::model::{ApiGroupList, ApiGroupListItem, ApiResourceList, ApiResourceListItem, PreferredVersion};
use crate::text::{in_context, join_url, joined, with_context};

verus! {

/// Whether a group entry is the legacy core group that the group listing
/// leaves out.
pub open spec fn is_core_group(g: ApiGroupListItem) -> bool {
    &&& g.name@ == "api"@
    &&& g.preferred_version.group_version@ == "v1"@
    &&& g.preferred_version.version@ == "v1"@
}

/// The legacy core group, served under `api/v1`.
pub fn core_group() -> (g: ApiGroupListItem)
    ensures
        is_core_group(g),
{
    proof {
        reveal_strlit("api");
        reveal_strlit("v1");
    }
    ApiGroupListItem {
        name: String::from_str("api"),
        preferred_version: PreferredVersion {
            group_version: String::from_str("v1"),
            version: String::from_str("v1"),
        },
    }
}

/// The groups that discovery walks: those listed, then the core group.
pub fn groups_with_core(list: ApiGroupList) -> (r: Vec<ApiGroupListItem>)
    ensures
        r@.len() == list.groups@.len() + 1,
        r@.take(list.groups@.len() as int) == list.groups@,
        is_core_group(r@.last()),
{
    let mut groups = list.groups;
    let ghost listed = groups@;
    groups.push(core_group());
    proof {
        assert(groups@.take(listed.len() as int) =~= listed);
    }
    groups
}

/// Where a group version lists its resources: the core version `v1` under
/// `api/`, every other one under `apis/`.
pub open spec fn discovery_path_of(group_version: Seq<char>) -> Seq<char> {
    if group_version == "v1"@ {
        "api/"@ + group_version
    } else {
        "apis/"@ + group_version
    }
}

/// The path, relative to the control plane's address, that lists the
/// resources of a group version.
pub fn group_discovery_path(group_version: &String) -> (r: String)
    ensures
        r@ == discovery_path_of(group_version@),
{
    proof {
        reveal_strlit("v1");
        reveal_strlit("api/");
        reveal_strlit("apis/");
    }
    let core = String::from_str("v1");
    let mut r = if *group_version == core {
        String::from_str("api/")
    } else {
        String::from_str("apis/")
    };
    r.append(group_version.as_str());
    r
}

/// The (kind, plural) pairs that a resource listing contributes, in order:
/// entries whose name holds a slash are subresources and are left out.
pub open spec fn served_pairs(items: Seq<ApiResourceListItem>) -> Seq<(Seq<char>, Seq<char>)>
    decreases items.len(),
{
    if items.len() == 0 {
        Seq::empty()
    } else {
        let rest = served_pairs(items.drop_last());
        let it = items.last();
        if it.name@.contains('/') {
            rest
        } else {
            rest.push((it.kind@, it.name@))
        }
    }
}

/// The (kind, plural) pairs of one group version's resource listing.
pub fn get_api_group_data(list: &ApiResourceList) -> (r: Vec<(String, String)>)
    ensures
        pairs_view(r@) == served_pairs(list.resources@),
{
    let mut r: Vec<(String, String)> = Vec::new();
    let mut i: usize = 0;
    while i < list.resources.len()
        invariant
            i <= list.resources@.len(),
            pairs_view(r@) == served_pairs(list.resources@.take(i as int)),
        decreases list.resources@.len() - i,
    {
        let item = &list.resources[i];
        proof {
            assert(list.resources@.take(i + 1).drop_last() =~= list.resources@.take(i as int));
        }
        if !crate::text::has_slash(item.name.as_str()) {
            r.push((item.kind.clone(), item.name.clone()));
            proof {
                assert(pairs_view(r@) =~= served_pairs(list.resources@.take(i as int)).push(
                    (item.kind@, item.name@),
                ));
            }
        }
        i = i + 1;
    }
    proof {
        assert(list.resources@.take(i as int) =~= list.resources@);
    }
    r
}

/// The URL of the top-level API group listing.
pub fn api_groups_url(address: &str) -> (r: String)
    ensures
        r@ == joined(address@, "apis"@),
{
    join_url(address, "apis")
}

/// What one group adds to the map: the pairs of its listing, or nothing
/// where the listing could not be fetched or read.
pub fn group_pairs(listing: &Result<ApiResourceList, String>) -> (r: Vec<(String, String)>)
    ensures
        match listing {
            Ok(l) => pairs_view(r@) == served_pairs(l.resources@),
            Err(_) => r@.len() == 0,
        },
{
    match listing {
        Ok(l) => get_api_group_data(l),
        Err(_) => Vec::new(),
    }
}

/// Every pair that the groups' listings gave, group after group.
pub open spec fn discovered(results: Seq<Result<Vec<(String, String)>, String>>) -> Seq<
    (Seq<char>, Seq<char>),
>
    decreases results.len(),
{
    if results.len() == 0 {
        Seq::empty()
    } else {
        let rest = discovered(results.drop_last());
        match results.last() {
            Ok(v) => rest + pairs_view(v@),
            Err(_) => rest,
        }
    }
}

/// Builds the kind map from the outcome of every group's discovery task.
/// Each task reports its pairs (an empty list where its group could not be
/// read); a task that did not run to completion fails the whole discovery.
pub fn assemble_kind_map(results: &Vec<Result<Vec<(String, String)>, String>>) -> (r: Result<
    KindMap,
    String,
>)
    ensures
        match r {
            Ok(m) => {
                &&& forall|i: int| 0 <= i < results@.len() ==> results@[i] is Ok
                &&& m@ == kind_map_of(discovered(results@))
            },
            Err(msg) => exists|i: int|
                {
                    &&& 0 <= i < results@.len()
                    &&& forall|j: int| 0 <= j < i ==> results@[j] is Ok
                    &&& results@[i] is Err
                    &&& msg@ == in_context(
                        "Invalid API resource item returned"@,
                        results@[i]->Err_0@,
                    )
                },
        },
{
    let mut m = KindMap::new();
    let mut i: usize = 0;
    while i < results.len()
        invariant
            i <= results@.len(),
            forall|j: int| 0 <= j < i ==> results@[j] is Ok,
            m@ == kind_map_of(discovered(results@.take(i as int))),
        decreases results@.len() - i,
    {
        proof {
            assert(results@.take(i + 1).drop_last() =~= results@.take(i as int));
        }
        match &results[i] {
            Err(e) => {
                proof {
                    reveal_strlit("Invalid API resource item returned");
                }
                return Err(with_context("Invalid API resource item returned", e.as_str()));
            },
            Ok(pairs) => {
                let ghost base = discovered(results@.take(i as int));
                let mut j: usize = 0;
                while j < pairs.len()
                    invariant
                        j <= pairs@.len(),
                        m@ == kind_map_of(base + pairs_view(pairs@.take(j as int))),
                    decreases pairs@.len() - j,
                {
                    let ghost prev = base + pairs_view(pairs@.take(j as int));
                    m.insert(pairs[j].0.clone(), pairs[j].1.clone());
                    proof {
                        let next = base + pairs_view(pairs@.take(j + 1));
                        assert(next.drop_last() =~= prev);
                    }
                    j = j + 1;
                }
                proof {
                    assert(pairs@.take(j as int) =~= pairs@);
                }
            },
        }
        i = i + 1;
    }
    proof {
        assert(results@.take(i as int) =~= results@);
    }
    Ok(m)
}

/// Discovery is repeatable: two runs whose group listings report the same
/// (kind, plural) pairs, in any order and grouping, build equal kind maps,
/// provided no kind is reported with two different plurals.
pub proof fn discovery_is_repeatable(
    first: Seq<Result<Vec<(String, String)>, String>>,
    second: Seq<Result<Vec<(String, String)>, String>>,
)
    requires
        forall|p: (Seq<char>, Seq<char>)| discovered(first).contains(p) <==> discovered(second).contains(p),
        pairs_functional(discovered(first)),
    ensures
        kind_map_of(discovered(first)) == kind_map_of(discovered(second)),
{
    lemma_kind_map_same_pairs(discovered(first), discovered(second));
}

} // verus!
