//! The capsule registry: an owning map from canonical URI to capsule,
//! built once at startup and then only read.  Duplicate registration for
//! a URI silently overwrites: the last `add` wins.

use crate::capsule::{Capsule, CapsuleView};
use vstd::pervasive::VecAdditionalExecFns;
use vstd::prelude::*;

verus! {

/// The views of the stored capsules, in storage order.
pub open spec fn views_seq(s: Seq<Capsule>) -> Seq<CapsuleView> {
    s.map_values(|c: Capsule| c@)
}

/// No two capsules claim the same URI.
pub open spec fn uris_distinct(s: Seq<CapsuleView>) -> bool {
    forall|i: int, j: int| 0 <= i < j < s.len() ==> s[i].uri != s[j].uri
}

/// The map a sequence of capsules denotes: each one keyed by its URI,
/// later entries overriding earlier ones.
pub open spec fn caps_map(s: Seq<CapsuleView>) -> Map<Seq<char>, CapsuleView>
    decreases s.len(),
{
    if s.len() == 0 {
        Map::empty()
    } else {
        caps_map(s.drop_last()).insert(s.last().uri, s.last())
    }
}

/// What `caps_map` contains: exactly the URIs of the sequence, and under
/// distinct URIs each capsule is found under its own URI.
proof fn lemma_caps_map_props(s: Seq<CapsuleView>)
    ensures
        forall|i: int| 0 <= i < s.len() ==> caps_map(s).contains_key(#[trigger] s[i].uri),
        forall|u: Seq<char>|
            caps_map(s).contains_key(u) ==> exists|i: int| 0 <= i < s.len() && s[i].uri == u,
        uris_distinct(s) ==> forall|i: int|
            0 <= i < s.len() ==> caps_map(s)[#[trigger] s[i].uri] == s[i],
    decreases s.len(),
{
    if s.len() > 0 {
        lemma_caps_map_props(s.drop_last());
        assert(forall|i: int| 0 <= i < s.len() - 1 ==> s.drop_last()[i] == s[i]);
        assert forall|u: Seq<char>| caps_map(s).contains_key(u) implies exists|i: int|
            0 <= i < s.len() && s[i].uri == u by {
            if u == s.last().uri {
                assert(s[s.len() - 1].uri == u);
            } else {
                let i = choose|i: int| 0 <= i < s.len() - 1 && s.drop_last()[i].uri == u;
                assert(s[i].uri == u);
            }
        }
        if uris_distinct(s) {
            assert(uris_distinct(s.drop_last()));
            assert forall|i: int| 0 <= i < s.len() implies caps_map(s)[#[trigger] s[i].uri]
                == s[i] by {
                if i < s.len() - 1 {
                    assert(s.drop_last()[i] == s[i]);
                    assert(s[i].uri != s.last().uri);
                }
            }
        }
    }
}

/// Replacing the capsule at a URI's slot is, on the map, an insert at
/// that URI.
proof fn lemma_caps_map_update(s: Seq<CapsuleView>, i: int, v: CapsuleView)
    requires
        uris_distinct(s),
        0 <= i < s.len(),
        v.uri == s[i].uri,
    ensures
        caps_map(s.update(i, v)) == caps_map(s).insert(v.uri, v),
    decreases s.len(),
{
    let t = s.update(i, v);
    if i == s.len() - 1 {
        assert(t.drop_last() =~= s.drop_last());
        assert(t.last() == v);
        assert(caps_map(s.drop_last()).insert(s.last().uri, s.last()).insert(v.uri, v)
            =~= caps_map(s.drop_last()).insert(v.uri, v));
    } else {
        assert(forall|k: int| 0 <= k < s.len() - 1 ==> s.drop_last()[k] == s[k]);
        assert(uris_distinct(s.drop_last()));
        lemma_caps_map_update(s.drop_last(), i, v);
        assert(t.drop_last() =~= s.drop_last().update(i, v));
        assert(t.last() == s.last());
        assert(s[i].uri != s.last().uri);
        assert(caps_map(s.drop_last()).insert(v.uri, v).insert(s.last().uri, s.last())
            =~= caps_map(s.drop_last()).insert(s.last().uri, s.last()).insert(v.uri, v));
    }
}

/// Appending a capsule is, on the map, an insert at its URI.
proof fn lemma_caps_map_push(s: Seq<CapsuleView>, v: CapsuleView)
    ensures
        caps_map(s.push(v)) == caps_map(s).insert(v.uri, v),
{
    assert(s.push(v).drop_last() =~= s);
    assert(s.push(v).last() == v);
}

/// Overwriting: adding twice under one URI leaves only the second
/// capsule, whatever was in the registry before.
pub proof fn lemma_last_add_wins(
    m: Map<Seq<char>, CapsuleView>,
    a: CapsuleView,
    b: CapsuleView,
)
    requires
        a.uri == b.uri,
    ensures
        m.insert(a.uri, a).insert(b.uri, b) == m.insert(b.uri, b),
        m.insert(a.uri, a).insert(b.uri, b)[b.uri] == b,
{
    assert(m.insert(a.uri, a).insert(b.uri, b) =~= m.insert(b.uri, b));
}

/// The in-memory lookup table from canonical URI to capsule.
pub struct CapsuleRegistry {
    items: Vec<Capsule>,
}

impl View for CapsuleRegistry {
    type V = Map<Seq<char>, CapsuleView>;

    closed spec fn view(&self) -> Map<Seq<char>, CapsuleView> {
        caps_map(views_seq(self.items@))
    }
}

impl CapsuleRegistry {
    #[verifier::type_invariant]
    spec fn wf(self) -> bool {
        uris_distinct(views_seq(self.items@))
    }

    /// Inserts the capsule under its URI, overwriting a previous capsule
    /// registered under the same URI.
    pub fn add(&mut self, capsule: Capsule)
        ensures
            final(self)@ == old(self)@.insert(capsule@.uri, capsule@),
    {
        proof {
            use_type_invariant(&*self);
        }
        let ghost s0 = views_seq(self.items@);
        let ghost v = capsule@;
        let mut items: Vec<Capsule> = Vec::new();
        core::mem::swap(&mut items, &mut self.items);
        match find_uri(&items, &capsule.uri) {
            Some(i) => {
                items.set(i, capsule);
                proof {
                    assert(views_seq(items@) =~= s0.update(i as int, v));
                    lemma_caps_map_update(s0, i as int, v);
                }
            },
            None => {
                items.push(capsule);
                proof {
                    assert(views_seq(items@) =~= s0.push(v));
                    lemma_caps_map_push(s0, v);
                    lemma_caps_map_props(s0);
                }
            },
        }
        self.items = items;
    }

    /// Exact-string lookup: the capsule registered under this URI, if
    /// any.  No normalization happens here; that is the dispatcher's job.
    pub fn get(&self, uri: &String) -> (r: Option<&Capsule>)
        ensures
            match r {
                Some(c) => self@.contains_key(uri@) && c@ == self@[uri@],
                None => !self@.contains_key(uri@),
            },
    {
        proof {
            use_type_invariant(&*self);
            lemma_caps_map_props(views_seq(self.items@));
        }
        let n = self.items.len();
        let mut i: usize = 0;
        while i < n
            invariant
                n == self.items@.len(),
                i <= n,
                forall|j: int| 0 <= j < i as int ==> views_seq(self.items@)[j].uri != uri@,
            decreases n - i,
        {
            if self.items[i].uri == *uri {
                proof {
                    use_type_invariant(&*self);
                    let s = views_seq(self.items@);
                    lemma_caps_map_props(s);
                    assert(s[i as int].uri == uri@);
                    assert(caps_map(s)[s[i as int].uri] == s[i as int]);
                    assert(self.items@[i as int]@ == s[i as int]);
                }
                return Some(&self.items[i]);
            }
            i = i + 1;
        }
        proof {
            if self@.contains_key(uri@) {
                lemma_caps_map_props(views_seq(self.items@));
            }
        }
        None
    }

    /// Every registered capsule, each under its own URI, one per URI.
    pub fn all(&self) -> (r: &Vec<Capsule>)
        ensures
            forall|i: int|
                0 <= i < r@.len() ==> self@.contains_key(#[trigger] r@[i]@.uri) && self@[r@[i]@.uri]
                    == r@[i]@,
            forall|i: int, j: int| 0 <= i < j < r@.len() ==> r@[i]@.uri != r@[j]@.uri,
            forall|u: Seq<char>|
                self@.contains_key(u) ==> exists|i: int| 0 <= i < r@.len() && r@[i]@.uri == u,
    {
        proof {
            use_type_invariant(&*self);
            lemma_caps_map_props(views_seq(self.items@));
            assert(forall|i: int|
                0 <= i < self.items@.len() ==> views_seq(self.items@)[i] == #[trigger] self.items@[i]@);
        }
        &self.items
    }
}

/// The index of the capsule registered under the URI, if any.
fn find_uri(items: &Vec<Capsule>, uri: &String) -> (r: Option<usize>)
    ensures
        match r {
            Some(i) => i < items@.len() && views_seq(items@)[i as int].uri == uri@,
            None => forall|j: int| 0 <= j < items@.len() ==> views_seq(items@)[j].uri != uri@,
        },
{
    let n = items.len();
    let mut i: usize = 0;
    while i < n
        invariant
            n == items@.len(),
            i <= n,
            forall|j: int| 0 <= j < i as int ==> views_seq(items@)[j].uri != uri@,
        decreases n - i,
    {
        if items[i].uri == *uri {
            return Some(i);
        }
        i = i + 1;
    }
    None
}

impl Default for CapsuleRegistry {
    /// The empty registry.
    fn default() -> (r: Self)
        ensures
            r@ == Map::<Seq<char>, CapsuleView>::empty(),
    {
        let r = CapsuleRegistry { items: Vec::new() };
        proof {
            assert(views_seq(r.items@) =~= Seq::empty());
        }
        r
    }
}

} // verus!
