use vstd::prelude::*;

verus! {

/// The map that pairs of (kind, plural) give when they are inserted in order:
/// a later pair for the same kind replaces an earlier one.
pub open spec fn kind_map_of(pairs: Seq<(Seq<char>, Seq<char>)>) -> Map<Seq<char>, Seq<char>>
    decreases pairs.len(),
{
    if pairs.len() == 0 {
        Map::empty()
    } else {
        let last = pairs.last();
        kind_map_of(pairs.drop_last()).insert(last.0, last.1)
    }
}

/// The view of a list of string pairs.
pub open spec fn pairs_view(pairs: Seq<(String, String)>) -> Seq<(Seq<char>, Seq<char>)> {
    pairs.map_values(|p: (String, String)| (p.0@, p.1@))
}

/// Pairs past index `n` that name another kind leave that kind's entry as the
/// first `n` pairs made it.
proof fn lemma_kind_map_prefix(pairs: Seq<(Seq<char>, Seq<char>)>, n: int, k: Seq<char>)
    requires
        0 <= n <= pairs.len(),
        forall|j: int| n <= j < pairs.len() ==> pairs[j].0 != k,
    ensures
        kind_map_of(pairs).contains_key(k) == kind_map_of(pairs.take(n)).contains_key(k),
        kind_map_of(pairs).contains_key(k) ==> kind_map_of(pairs)[k] == kind_map_of(
            pairs.take(n),
        )[k],
    decreases pairs.len(),
{
    if pairs.len() > n {
        let shorter = pairs.drop_last();
        assert(shorter.take(n) =~= pairs.take(n));
        lemma_kind_map_prefix(shorter, n, k);
    } else {
        assert(pairs.take(n) =~= pairs);
    }
}

/// No kind is paired with two different plurals.
pub open spec fn pairs_functional(pairs: Seq<(Seq<char>, Seq<char>)>) -> bool {
    forall|i: int, j: int|
        0 <= i < pairs.len() && 0 <= j < pairs.len() && #[trigger] pairs[i].0 == #[trigger] pairs[j].0
            ==> pairs[i].1 == pairs[j].1
}

/// Where no kind has two plurals, the map holds exactly the listed kinds,
/// each with its plural.
pub(crate) proof fn lemma_kind_map_functional(pairs: Seq<(Seq<char>, Seq<char>)>)
    requires
        pairs_functional(pairs),
    ensures
        forall|k: Seq<char>|
            #[trigger] kind_map_of(pairs).contains_key(k) <==> exists|i: int|
                0 <= i < pairs.len() && pairs[i].0 == k,
        forall|i: int| 0 <= i < pairs.len() ==> kind_map_of(pairs)[#[trigger] pairs[i].0] == pairs[i].1,
    decreases pairs.len(),
{
    if pairs.len() > 0 {
        let shorter = pairs.drop_last();
        assert(pairs_functional(shorter)) by {
            assert forall|i: int, j: int|
                0 <= i < shorter.len() && 0 <= j < shorter.len() && #[trigger] shorter[i].0
                    == #[trigger] shorter[j].0 implies shorter[i].1 == shorter[j].1 by {
                assert(shorter[i] == pairs[i] && shorter[j] == pairs[j]);
            }
        }
        lemma_kind_map_functional(shorter);
        let last = pairs.last();
        assert forall|k: Seq<char>|
            #[trigger] kind_map_of(pairs).contains_key(k) <==> exists|i: int|
                0 <= i < pairs.len() && pairs[i].0 == k by {
            if kind_map_of(pairs).contains_key(k) {
                if k == last.0 {
                    assert(pairs[pairs.len() - 1].0 == k);
                } else {
                    assert(kind_map_of(shorter).contains_key(k));
                    let i = choose|i: int| 0 <= i < shorter.len() && shorter[i].0 == k;
                    assert(shorter[i] == pairs[i]);
                    assert(pairs[i].0 == k);
                }
            }
            if exists|i: int| 0 <= i < pairs.len() && pairs[i].0 == k {
                let i = choose|i: int| 0 <= i < pairs.len() && pairs[i].0 == k;
                if i < pairs.len() - 1 {
                    assert(shorter[i] == pairs[i]);
                    assert(shorter[i].0 == k);
                }
            }
        }
        assert forall|i: int| 0 <= i < pairs.len() implies kind_map_of(pairs)[#[trigger] pairs[i].0]
            == pairs[i].1 by {
            if pairs[i].0 != last.0 {
                assert(shorter[i] == pairs[i]);
            } else {
                assert(pairs[pairs.len() - 1].0 == pairs[i].0);
            }
        }
    }
}

/// Two lists holding the same (kind, plural) pairs, with no kind paired with
/// two plurals, give the same map whatever their order or repetitions.
pub(crate) proof fn lemma_kind_map_same_pairs(
    a: Seq<(Seq<char>, Seq<char>)>,
    b: Seq<(Seq<char>, Seq<char>)>,
)
    requires
        forall|p: (Seq<char>, Seq<char>)| a.contains(p) <==> b.contains(p),
        pairs_functional(a),
    ensures
        kind_map_of(a) == kind_map_of(b),
{
    assert(pairs_functional(b)) by {
        assert forall|i: int, j: int|
            0 <= i < b.len() && 0 <= j < b.len() && #[trigger] b[i].0 == #[trigger] b[j].0 implies b[i].1
                == b[j].1 by {
            assert(b.contains(b[i]) && b.contains(b[j]));
            let ia = choose|ia: int| 0 <= ia < a.len() && a[ia] == b[i];
            let ja = choose|ja: int| 0 <= ja < a.len() && a[ja] == b[j];
            assert(a[ia].0 == a[ja].0);
        }
    }
    lemma_kind_map_functional(a);
    lemma_kind_map_functional(b);
    assert forall|k: Seq<char>| kind_map_of(a).contains_key(k) implies kind_map_of(b).contains_key(k)
        && kind_map_of(a)[k] == kind_map_of(b)[k] by {
        let i = choose|i: int| 0 <= i < a.len() && a[i].0 == k;
        assert(a.contains(a[i]));
        let j = choose|j: int| 0 <= j < b.len() && b[j] == a[i];
        assert(b[j].0 == k);
    }
    assert forall|k: Seq<char>| kind_map_of(b).contains_key(k) implies kind_map_of(a).contains_key(k) by {
        let j = choose|j: int| 0 <= j < b.len() && b[j].0 == k;
        assert(b.contains(b[j]));
        let i = choose|i: int| 0 <= i < a.len() && a[i] == b[j];
        assert(a[i].0 == k);
    }
    assert(kind_map_of(a) =~= kind_map_of(b));
}

/// Mapping from a kind to the plural resource name that addresses it.
/// It keeps every inserted pair in order; the latest pair for a kind wins.
pub struct KindMap {
    entries: Vec<(String, String)>,
}

impl View for KindMap {
    type V = Map<Seq<char>, Seq<char>>;

    closed spec fn view(&self) -> Map<Seq<char>, Seq<char>> {
        kind_map_of(pairs_view(self.entries@))
    }
}

impl KindMap {
    /// A map with no kinds.
    pub fn new() -> (m: KindMap)
        ensures
            m@ == Map::<Seq<char>, Seq<char>>::empty(),
    {
        KindMap { entries: Vec::new() }
    }

    /// Maps `kind` to `plural`, replacing any earlier plural for that kind.
    pub fn insert(&mut self, kind: String, plural: String)
        ensures
            final(self)@ == old(self)@.insert(kind@, plural@),
    {
        let ghost before = self.entries@;
        self.entries.push((kind, plural));
        proof {
            assert(pairs_view(self.entries@).drop_last() =~= pairs_view(before));
        }
    }

    /// The plural recorded for `kind`, if there is one.
    pub fn get(&self, kind: &String) -> (r: Option<&String>)
        ensures
            match r {
                Some(p) => self@.contains_key(kind@) && p@ == self@[kind@],
                None => !self@.contains_key(kind@),
            },
    {
        let ghost pv = pairs_view(self.entries@);
        let mut i: usize = self.entries.len();
        while i > 0
            invariant
                i <= self.entries.len(),
                pv == pairs_view(self.entries@),
                forall|j: int| i <= j < pv.len() ==> pv[j].0 != kind@,
            decreases i,
        {
            let entry = &self.entries[i - 1];
            if entry.0 == *kind {
                proof {
                    lemma_kind_map_prefix(pv, i as int, kind@);
                    assert(pv.take(i as int).drop_last() =~= pv.take(i - 1));
                }
                return Some(&entry.1);
            }
            i = i - 1;
        }
        proof {
            lemma_kind_map_prefix(pv, 0, kind@);
        }
        None
    }
}

} // verus!
