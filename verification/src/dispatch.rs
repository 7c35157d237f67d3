//! Request dispatch: normalizes an incoming path to its canonical form,
//! consults the registry, and produces a *render plan* — the name of the
//! template to render and the context to render it with.  A miss falls
//! back to the not-found template with only the attempted path in the
//! context.

use crate::canonical_path_view;
use crate::capsule::{Capsule, CapsuleView};
use crate::engine::{context_for, context_view};
use crate::join_view;
use crate::join_with;
use crate::json::{views_of_entries, JsonValue, JsonView};
use crate::registry::CapsuleRegistry;
use vstd::prelude::*;

verus! {

/// The mathematical content of a render plan.
#[verifier::ext_equal]
pub struct RenderPlanView {
    pub template: Seq<char>,
    pub context: JsonView,
}

/// What one request should render: a template name and the context to
/// hand the template engine.
#[derive(Debug, PartialEq, Eq)]
pub struct RenderPlan {
    pub template: String,
    pub context: JsonValue,
}

impl View for RenderPlan {
    type V = RenderPlanView;

    open spec fn view(&self) -> RenderPlanView {
        RenderPlanView { template: self.template@, context: self.context@ }
    }
}

/// The context of a miss: only the attempted path, under `path`.
pub open spec fn miss_plan_view(path: Seq<char>) -> RenderPlanView {
    RenderPlanView {
        template: "404"@,
        context: JsonView::Obj(seq![("path"@, JsonView::Str(path))]),
    }
}

/// The plan for a registered capsule: its own template, its context.
pub open spec fn hit_plan_view(c: CapsuleView) -> RenderPlanView {
    RenderPlanView { template: c.template, context: context_view(c) }
}

/// A GET-style request: render the capsule registered at the path, or
/// fall back to the not-found plan.
pub open spec fn get_plan_view(reg: Map<Seq<char>, CapsuleView>, path: Seq<char>)
    -> RenderPlanView {
    if reg.contains_key(path) {
        hit_plan_view(reg[path])
    } else {
        miss_plan_view(path)
    }
}

/// The capsule with its payload replaced — not merged — by an object
/// holding the raw request body under `body`.
pub open spec fn with_body(c: CapsuleView, body: Seq<char>) -> CapsuleView {
    CapsuleView {
        data: JsonView::Obj(seq![("body"@, JsonView::Str(body))]),
        ..c
    }
}

/// A POST-style request: like a GET hit, but rendering a copy of the
/// capsule whose payload is the request body.
pub open spec fn post_plan_view(
    reg: Map<Seq<char>, CapsuleView>,
    path: Seq<char>,
    body: Seq<char>,
) -> RenderPlanView {
    if reg.contains_key(path) {
        hit_plan_view(with_body(reg[path], body))
    } else {
        miss_plan_view(path)
    }
}

/// Rewrites captured path segments to the canonical lookup form: a
/// single leading slash, segments joined with `/`.
pub fn normalize_path(segments: &Vec<String>) -> (r: String)
    ensures
        r@ == canonical_path_view(segments.deep_view()),
{
    let mut out = "/".to_owned();
    let joined = join_with(segments, "/");
    out.append(joined.as_str());
    proof {
        reveal_strlit("/");
        assert(("/"@) =~= seq!['/']);
    }
    out
}

/// The plan that renders a capsule: its own template with its context.
pub fn render_plan_for(capsule: &Capsule) -> (r: RenderPlan)
    ensures
        r@ == hit_plan_view(capsule@),
{
    let ctx = context_for(capsule);
    RenderPlan { template: capsule.template.clone(), context: ctx }
}

/// The fallback plan of a miss, carrying the attempted path.
fn miss_plan(path: &String) -> (r: RenderPlan)
    ensures
        r@ == miss_plan_view(path@),
{
    let mut entries: Vec<(String, JsonValue)> = Vec::new();
    entries.push(("path".to_owned(), JsonValue::Str(path.clone())));
    let context = JsonValue::Obj(entries);
    proof {
        crate::json::lemma_views_of_entries(entries@);
        assert(views_of_entries(entries@) =~= seq![("path"@, JsonView::Str(path@))]);
    }
    RenderPlan { template: "404".to_owned(), context }
}

/// The plan of the catch-all fallback route and of the default error
/// catcher: the not-found template with an empty context.
pub fn not_found_plan() -> (r: RenderPlan)
    ensures
        r@ == (RenderPlanView {
            template: "404"@,
            context: JsonView::Obj(Seq::empty()),
        }),
{
    let entries: Vec<(String, JsonValue)> = Vec::new();
    let context = JsonValue::Obj(entries);
    proof {
        assert(views_of_entries(entries@) =~= Seq::empty());
    }
    RenderPlan { template: "404".to_owned(), context }
}

/// GET-style dispatch on an already canonical path: exact registry
/// lookup, then the capsule's plan on a hit or the miss plan on a miss.
pub fn dispatch_get(reg: &CapsuleRegistry, path: &String) -> (r: RenderPlan)
    ensures
        r@ == get_plan_view(reg@, path@),
{
    match reg.get(path) {
        Some(capsule) => render_plan_for(capsule),
        None => miss_plan(path),
    }
}

/// POST-style dispatch on an already canonical path: on a hit the
/// capsule is copied, its payload is replaced wholly by an object
/// holding the raw body under `body`, and the copy's plan is returned.
pub fn dispatch_post(reg: &CapsuleRegistry, path: &String, body: String) -> (r: RenderPlan)
    ensures
        r@ == post_plan_view(reg@, path@, body@),
{
    match reg.get(path) {
        Some(capsule) => {
            let mut copy = capsule.clone();
            let mut entries: Vec<(String, JsonValue)> = Vec::new();
            entries.push(("body".to_owned(), JsonValue::Str(body)));
            copy.data = JsonValue::Obj(entries);
            proof {
                crate::json::lemma_views_of_entries(entries@);
                assert(views_of_entries(entries@) =~= seq![("body"@, JsonView::Str(body@))]);
                assert(copy@ =~= with_body(reg@[path@], body@));
            }
            render_plan_for(&copy)
        },
        None => miss_plan(path),
    }
}

/// A GET request as it arrives: captured segments are normalized, then
/// dispatched.
pub fn handle_get(reg: &CapsuleRegistry, segments: &Vec<String>) -> (r: RenderPlan)
    ensures
        r@ == get_plan_view(reg@, canonical_path_view(segments.deep_view())),
{
    let path = normalize_path(segments);
    dispatch_get(reg, &path)
}

/// A POST request as it arrives: captured segments are normalized, then
/// dispatched with the raw body.
pub fn handle_post(reg: &CapsuleRegistry, segments: &Vec<String>, body: String) -> (r:
    RenderPlan)
    ensures
        r@ == post_plan_view(reg@, canonical_path_view(segments.deep_view()), body@),
{
    let path = normalize_path(segments);
    dispatch_post(reg, &path, body)
}

/// Normalizing and then looking up is exact-string lookup at `/` +
/// `join(segments, "/")`: the canonical key is that string, and dispatch
/// consults the registry at it and nowhere else.
pub proof fn lemma_normalize_then_lookup(
    reg: Map<Seq<char>, CapsuleView>,
    segments: Seq<Seq<char>>,
)
    ensures
        canonical_path_view(segments) == seq!['/'] + join_view(segments, "/"@),
        get_plan_view(reg, canonical_path_view(segments)) == get_plan_view(
            reg,
            seq!['/'] + join_view(segments, "/"@),
        ),
        reg.contains_key(canonical_path_view(segments)) <==> reg.contains_key(
            seq!['/'] + join_view(segments, "/"@),
        ),
{
}

/// A POST hit renders with the body object alone: whatever payload the
/// capsule carried is discarded, never merged into.
pub proof fn lemma_post_body_override(
    reg: Map<Seq<char>, CapsuleView>,
    path: Seq<char>,
    body: Seq<char>,
)
    requires
        reg.contains_key(path),
    ensures
        post_plan_view(reg, path, body).template == reg[path].template,
        post_plan_view(reg, path, body).context == context_view(with_body(reg[path], body)),
        with_body(reg[path], body).data == JsonView::Obj(
            seq![("body"@, JsonView::Str(body))],
        ),
{
}

/// A miss falls back: both GET and POST dispatch of an unregistered path
/// give the not-found template, and the context holds the attempted path
/// and nothing else — no capsule field leaks into it.
pub proof fn lemma_miss_fallback(
    reg: Map<Seq<char>, CapsuleView>,
    path: Seq<char>,
    body: Seq<char>,
)
    requires
        !reg.contains_key(path),
    ensures
        get_plan_view(reg, path) == miss_plan_view(path),
        post_plan_view(reg, path, body) == miss_plan_view(path),
        miss_plan_view(path).template == "404"@,
        miss_plan_view(path).context == JsonView::Obj(seq![("path"@, JsonView::Str(path))]),
{
}

} // verus!
