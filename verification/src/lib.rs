//! A minimal capsule-based content router.
//!
//! A *capsule* is a declarative route descriptor: a URI, a template name,
//! some metadata and a JSON-like payload.  A registry maps canonical URIs to
//! capsules; the dispatcher normalizes incoming request paths, looks the
//! registry up and produces a render plan (which template to render, with
//! which context), falling back to a not-found plan on a miss.

use vstd::prelude::*;

pub mod capsule;
pub mod dispatch;
pub mod engine;
pub mod json;
pub mod ops;
pub mod registry;
pub mod seo;
pub mod server;

verus! {

/// The canonical lookup key for a path: a single leading slash followed
/// by the segments joined with `/`.
pub open spec fn canonical_path_view(segments: Seq<Seq<char>>) -> Seq<char> {
    seq!['/'] + join_view(segments, "/"@)
}

/// The parts joined with the separator, in order, with nothing added
/// before the first or after the last.
pub open spec fn join_view(parts: Seq<Seq<char>>, sep: Seq<char>) -> Seq<char>
    decreases parts.len(),
{
    if parts.len() == 0 {
        Seq::empty()
    } else if parts.len() == 1 {
        parts[0]
    } else {
        join_view(parts.drop_last(), sep) + sep + parts.last()
    }
}

/// Joins the parts with the separator between each two neighbours.
pub fn join_with(parts: &Vec<String>, sep: &str) -> (r: String)
    ensures
        r@ == join_view(parts.deep_view(), sep@),
{
    let ghost dv = parts.deep_view();
    let mut out = String::new();
    let n = parts.len();
    let mut i: usize = 0;
    while i < n
        invariant
            i <= n,
            n == parts@.len(),
            dv == parts.deep_view(),
            out@ == join_view(dv.take(i as int), sep@),
        decreases n - i,
    {
        proof {
            assert(dv.take(i as int + 1).drop_last() =~= dv.take(i as int));
            assert(dv.take(i as int + 1).last() == dv[i as int]);
            assert(dv[i as int] == parts@[i as int]@);
        }
        if i > 0 {
            out.append(sep);
        }
        out.append(parts[i].as_str());
        proof {
            if i == 0 {
                assert(out@ == dv.take(1)[0]);
            }
        }
        i = i + 1;
    }
    proof {
        assert(dv.take(n as int) =~= dv);
    }
    out
}

} // verus!
