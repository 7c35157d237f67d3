//! The template side of the pipeline: deriving a render context from a
//! capsule, and the active set of compiled templates with its
//! all-or-nothing replacement discipline.
//!
//! Discovering and compiling template sources is filesystem work that an
//! outside binding performs; it hands this module either the full list of
//! compiled template names or the error, and [`TemplateStore::install`]
//! applies the outcome atomically.

use crate::capsule::{Capsule, CapsuleView, method_view};
use crate::json::{views_of_entries, JsonValue, JsonView};
use vstd::prelude::*;

verus! {

/// The entries of the context derived from a capsule: the four base
/// fields, in order, then the payload under `data`.
pub open spec fn context_entries(c: CapsuleView) -> Seq<(Seq<char>, JsonView)> {
    seq![
        ("name"@, JsonView::Str(c.name)),
        ("description"@, JsonView::Str(c.description)),
        ("uri"@, JsonView::Str(c.uri)),
        ("method"@, JsonView::Str(method_view(c.method))),
        ("data"@, c.data),
    ]
}

/// The context a capsule renders with.
pub open spec fn context_view(c: CapsuleView) -> JsonView {
    JsonView::Obj(context_entries(c))
}

/// Derives the render context from a capsule's current field values: an
/// object holding its name, description, URI, the method's name, and the
/// payload, nothing else.  Pure: the capsule is read, never changed.
pub fn context_for(capsule: &Capsule) -> (r: JsonValue)
    ensures
        r@ == context_view(capsule@),
{
    let mut entries: Vec<(String, JsonValue)> = Vec::new();
    entries.push(("name".to_owned(), JsonValue::Str(capsule.name.clone())));
    entries.push(("description".to_owned(), JsonValue::Str(capsule.description.clone())));
    entries.push(("uri".to_owned(), JsonValue::Str(capsule.uri.clone())));
    entries.push(("method".to_owned(), JsonValue::Str(capsule.method.as_str().to_owned())));
    entries.push(("data".to_owned(), capsule.data.clone()));
    let r = JsonValue::Obj(entries);
    proof {
        crate::json::lemma_views_of_entries(entries@);
        assert(views_of_entries(entries@) =~= context_entries(capsule@));
        assert(r@ =~= context_view(capsule@));
    }
    r
}

/// The context carries exactly the capsule's current values: each base
/// field is found under its key, the payload under `data`, and deriving
/// the context again after a payload change yields the new payload — the
/// context is computed fresh, never cached.
pub proof fn lemma_context_round_trip(c: CapsuleView, d: JsonView)
    ensures
        crate::json::obj_lookup(context_entries(c), "name"@) == Some(JsonView::Str(c.name)),
        crate::json::obj_lookup(context_entries(c), "description"@) == Some(
            JsonView::Str(c.description),
        ),
        crate::json::obj_lookup(context_entries(c), "uri"@) == Some(JsonView::Str(c.uri)),
        crate::json::obj_lookup(context_entries(c), "method"@) == Some(
            JsonView::Str(method_view(c.method)),
        ),
        crate::json::obj_lookup(context_entries(c), "data"@) == Some(c.data),
        context_view(CapsuleView { data: d, ..c }) == JsonView::Obj(
            context_entries(c).update(4, ("data"@, d)),
        ),
        crate::json::obj_lookup(context_entries(CapsuleView { data: d, ..c }), "data"@)
            == Some(d),
{
    reveal_with_fuel(crate::json::obj_lookup, 6);
    reveal_strlit("name");
    reveal_strlit("description");
    reveal_strlit("uri");
    reveal_strlit("method");
    reveal_strlit("data");
    assert(("name"@).len() == 4 && ("description"@).len() == 11 && ("uri"@).len() == 3
        && ("method"@).len() == 6 && ("data"@).len() == 4);
    assert(("name"@)[0] != ("data"@)[0]);
    assert("name"@ != "data"@ && "name"@ != "method"@ && "name"@ != "uri"@);
    assert("description"@ != "data"@ && "description"@ != "method"@ && "description"@
        != "uri"@);
    assert("uri"@ != "data"@ && "uri"@ != "method"@);
    assert("method"@ != "data"@);
    let es = context_entries(c);
    assert(es.drop_last() =~= context_entries(c).take(4));
    assert(crate::json::obj_lookup(es, "data"@) == Some(c.data));
    assert(crate::json::obj_lookup(es.drop_last(), "method"@) == Some(
        JsonView::Str(method_view(c.method)),
    ));
    assert(crate::json::obj_lookup(es.drop_last().drop_last(), "uri"@) == Some(
        JsonView::Str(c.uri),
    ));
    assert(crate::json::obj_lookup(es.drop_last().drop_last().drop_last(), "description"@)
        == Some(JsonView::Str(c.description)));
    assert(crate::json::obj_lookup(
        es.drop_last().drop_last().drop_last().drop_last(),
        "name"@,
    ) == Some(JsonView::Str(c.name)));
    assert(context_entries(CapsuleView { data: d, ..c }) =~= context_entries(c).update(
        4,
        ("data"@, d),
    ));
}

/// Why a template load failed: the discovery pattern was invalid, the
/// sources could not be read, or a template did not compile.
#[derive(Debug, Clone, PartialEq, Eq)]
pub enum LoadError {
    BadPattern(String),
    Unreadable(String),
    BadTemplate(String),
}

/// The names of the templates in the set, as a mathematical set.
pub open spec fn names_set(s: Seq<String>) -> Set<Seq<char>> {
    s.map_values(|n: String| n@).to_set()
}

/// The set an install outcome leaves active: a successful load replaces
/// the whole set, a failed one changes nothing.
pub open spec fn installed_set(
    cur: Set<Seq<char>>,
    outcome: Result<Seq<Seq<char>>, LoadError>,
) -> Set<Seq<char>> {
    match outcome {
        Ok(ns) => ns.to_set(),
        Err(_) => cur,
    }
}

/// The view of a load outcome: the compiled template names, or the error.
pub open spec fn outcome_view(outcome: Result<Vec<String>, LoadError>) -> Result<
    Seq<Seq<char>>,
    LoadError,
> {
    match outcome {
        Ok(names) => Ok(names.deep_view()),
        Err(e) => Err(e),
    }
}

/// The active set of compiled templates, replaced as a unit by each
/// successful load and left untouched by a failed one.
pub struct TemplateStore {
    names: Vec<String>,
}

impl View for TemplateStore {
    type V = Set<Seq<char>>;

    closed spec fn view(&self) -> Set<Seq<char>> {
        names_set(self.names@)
    }
}

impl TemplateStore {
    /// A store with nothing loaded yet.
    pub fn new() -> (r: Self)
        ensures
            r@ == Set::<Seq<char>>::empty(),
    {
        let r = TemplateStore { names: Vec::new() };
        proof {
            assert(r.names@.map_values(|n: String| n@) =~= Seq::empty());
            assert(r@ =~= Set::<Seq<char>>::empty());
        }
        r
    }

    /// Applies a load outcome: on success the new names replace the
    /// whole set and the previous set is discarded; on failure the
    /// previously active set stays as it was and the error is handed
    /// back.
    pub fn install(&mut self, outcome: Result<Vec<String>, LoadError>) -> (r: Result<
        (),
        LoadError,
    >)
        ensures
            final(self)@ == installed_set(old(self)@, outcome_view(outcome)),
            outcome matches Ok(_) ==> r is Ok,
            outcome matches Err(e) ==> r == Err::<(), LoadError>(e),
    {
        match outcome {
            Ok(names) => {
                self.names = names;
                proof {
                    assert(self.names@.map_values(|n: String| n@) =~= self.names.deep_view());
                }
                Ok(())
            },
            Err(e) => Err(e),
        }
    }

    /// Whether a template of this name is in the active set.
    pub fn contains(&self, name: &String) -> (r: bool)
        ensures
            r == self@.contains(name@),
    {
        let n = self.names.len();
        let mut i: usize = 0;
        while i < n
            invariant
                n == self.names@.len(),
                i <= n,
                forall|j: int| 0 <= j < i as int ==> self.names@[j]@ != name@,
            decreases n - i,
        {
            if self.names[i] == *name {
                proof {
                    let vs = self.names@.map_values(|m: String| m@);
                    assert(vs[i as int] == name@);
                    assert(vs.contains(name@));
                }
                return true;
            }
            i = i + 1;
        }
        proof {
            let vs = self.names@.map_values(|m: String| m@);
            if vs.contains(name@) {
                let j = choose|j: int| 0 <= j < vs.len() && vs[j] == name@;
                assert(self.names@[j]@ == name@);
            }
        }
        false
    }
}

/// Load atomicity: a failed load leaves the active set exactly as it
/// was; a following successful load replaces it wholly, so a name is
/// renderable afterwards exactly when the new load compiled it — names
/// only in the old set are gone.
pub proof fn lemma_load_atomicity(
    cur: Set<Seq<char>>,
    e: LoadError,
    ns: Seq<Seq<char>>,
    t: Seq<char>,
)
    ensures
        installed_set(cur, Err(e)) == cur,
        installed_set(installed_set(cur, Err(e)), Ok(ns)) == ns.to_set(),
        ns.to_set().contains(t) <==> ns.contains(t),
        cur.contains(t) && !ns.contains(t) ==> !installed_set(cur, Ok(ns)).contains(t),
{
}

} // verus!
