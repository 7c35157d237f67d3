//! Page metadata: a builder for the usual `<head>` fields, a merge with
//! precedence, site-wide fallbacks, a context fragment for the template
//! layer, and a renderer that emits the ready-to-inject HTML.

use crate::join_view;
use crate::join_with;
use crate::json::{views_of_values, JsonValue, JsonView};
use vstd::prelude::*;
use vstd::string::StrSliceExecFns;
use vstd::string::StringExecFns;

verus! {

/// The mathematical content of an [`Seo`] value.
#[verifier::ext_equal]
pub struct SeoView {
    pub title: Seq<char>,
    pub description: Seq<char>,
    pub keywords: Seq<Seq<char>>,
    pub author: Option<Seq<char>>,
    pub canonical_url: Option<Seq<char>>,
    pub lang: Option<Seq<char>>,
    pub updated: Option<Seq<char>>,
    pub og_image: Option<Seq<char>>,
    pub og_type: Option<Seq<char>>,
    pub twitter_card: Option<Seq<char>>,
    pub json_ld: Option<Seq<char>>,
    pub content_type: Option<Seq<char>>,
    pub slug: Option<Seq<char>>,
}

/// Metadata for one page: title and description, keywords, authorship,
/// canonical URL, language, social-card fields, optional JSON-LD, and
/// content classification.
#[derive(Debug)]
pub struct Seo {
    pub title: String,
    pub description: String,
    pub keywords: Vec<String>,
    pub author: Option<String>,
    pub canonical_url: Option<String>,
    pub lang: Option<String>,
    pub updated: Option<String>,
    pub og_image: Option<String>,
    pub og_type: Option<String>,
    pub twitter_card: Option<String>,
    pub json_ld: Option<String>,
    pub content_type: Option<String>,
    pub slug: Option<String>,
}

impl View for Seo {
    type V = SeoView;

    open spec fn view(&self) -> SeoView {
        SeoView {
            title: self.title@,
            description: self.description@,
            keywords: self.keywords.deep_view(),
            author: self.author.deep_view(),
            canonical_url: self.canonical_url.deep_view(),
            lang: self.lang.deep_view(),
            updated: self.updated.deep_view(),
            og_image: self.og_image.deep_view(),
            og_type: self.og_type.deep_view(),
            twitter_card: self.twitter_card.deep_view(),
            json_ld: self.json_ld.deep_view(),
            content_type: self.content_type.deep_view(),
            slug: self.slug.deep_view(),
        }
    }
}

/// The view of a freshly built value: everything empty or absent.
pub open spec fn default_seo_view() -> SeoView {
    SeoView {
        title: Seq::empty(),
        description: Seq::empty(),
        keywords: Seq::empty(),
        author: None,
        canonical_url: None,
        lang: None,
        updated: None,
        og_image: None,
        og_type: None,
        twitter_card: None,
        json_ld: None,
        content_type: None,
        slug: None,
    }
}

/// `other` laid over `base`: a field of `other` wins wherever it is set
/// — non-empty for the three collection-like fields, present for the
/// optional ones.
pub open spec fn merged_view(base: SeoView, other: SeoView) -> SeoView {
    SeoView {
        title: if other.title.len() > 0 { other.title } else { base.title },
        description: if other.description.len() > 0 { other.description } else {
            base.description
        },
        keywords: if other.keywords.len() > 0 { other.keywords } else { base.keywords },
        author: if other.author is Some { other.author } else { base.author },
        canonical_url: if other.canonical_url is Some { other.canonical_url } else {
            base.canonical_url
        },
        lang: if other.lang is Some { other.lang } else { base.lang },
        updated: if other.updated is Some { other.updated } else { base.updated },
        og_image: if other.og_image is Some { other.og_image } else { base.og_image },
        og_type: if other.og_type is Some { other.og_type } else { base.og_type },
        twitter_card: if other.twitter_card is Some { other.twitter_card } else {
            base.twitter_card
        },
        json_ld: if other.json_ld is Some { other.json_ld } else { base.json_ld },
        content_type: if other.content_type is Some { other.content_type } else {
            base.content_type
        },
        slug: if other.slug is Some { other.slug } else { base.slug },
    }
}

/// Site-wide fallbacks laid under a page's own metadata: empty title and
/// description fall back to the site's, a missing language to the
/// site's, and the social fields to their conventional defaults.
pub open spec fn with_defaults_view(s: SeoView, site: SiteSeoDefaultsView) -> SeoView {
    SeoView {
        title: if s.title.len() == 0 { site.site_title } else { s.title },
        description: if s.description.len() == 0 { site.site_desc } else { s.description },
        lang: if s.lang is None { Some(site.lang) } else { s.lang },
        og_type: if s.og_type is None { Some("website"@) } else { s.og_type },
        twitter_card: if s.twitter_card is None { Some("summary_large_image"@) } else {
            s.twitter_card
        },
        ..s
    }
}

/// Duplicates an optional string, preserving its view.
fn clone_opt(o: &Option<String>) -> (r: Option<String>)
    ensures
        r.deep_view() == o.deep_view(),
{
    match o {
        Some(s) => Some(s.clone()),
        None => None,
    }
}

impl Seo {
    /// Metadata with every field empty or absent.
    pub fn new() -> (r: Self)
        ensures
            r@ == default_seo_view(),
    {
        let r = Seo {
            title: String::new(),
            description: String::new(),
            keywords: Vec::new(),
            author: None,
            canonical_url: None,
            lang: None,
            updated: None,
            og_image: None,
            og_type: None,
            twitter_card: None,
            json_ld: None,
            content_type: None,
            slug: None,
        };
        proof {
            assert(r.keywords.deep_view() =~= Seq::<Seq<char>>::empty());
        }
        r
    }

    /// Sets the title.
    pub fn with_title(&mut self, t: String)
        ensures
            final(self)@ == (SeoView { title: t@, ..old(self)@ }),
    {
        self.title = t;
    }

    /// Sets the description.
    pub fn with_desc(&mut self, d: String)
        ensures
            final(self)@ == (SeoView { description: d@, ..old(self)@ }),
    {
        self.description = d;
    }

    /// Replaces the keyword list.
    pub fn with_keywords(&mut self, ks: Vec<String>)
        ensures
            final(self)@ == (SeoView { keywords: ks.deep_view(), ..old(self)@ }),
    {
        self.keywords = ks;
    }

    /// Sets the author.
    pub fn with_author(&mut self, a: String)
        ensures
            final(self)@ == (SeoView { author: Some(a@), ..old(self)@ }),
    {
        self.author = Some(a);
    }

    /// Sets the language tag.
    pub fn with_lang(&mut self, l: String)
        ensures
            final(self)@ == (SeoView { lang: Some(l@), ..old(self)@ }),
    {
        self.lang = Some(l);
    }

    /// Sets the last-updated stamp.
    pub fn with_updated(&mut self, u: String)
        ensures
            final(self)@ == (SeoView { updated: Some(u@), ..old(self)@ }),
    {
        self.updated = Some(u);
    }

    /// Sets the JSON-LD fragment.
    pub fn with_json_ld(&mut self, j: String)
        ensures
            final(self)@ == (SeoView { json_ld: Some(j@), ..old(self)@ }),
    {
        self.json_ld = Some(j);
    }

    /// Sets the content classification.
    pub fn with_content_type(&mut self, c: String)
        ensures
            final(self)@ == (SeoView { content_type: Some(c@), ..old(self)@ }),
    {
        self.content_type = Some(c);
    }

    /// Sets the canonical URL.
    pub fn with_canonical(&mut self, url: String)
        ensures
            final(self)@ == (SeoView { canonical_url: Some(url@), ..old(self)@ }),
    {
        self.canonical_url = Some(url);
    }

    /// Sets the slug.
    pub fn with_slug(&mut self, s: String)
        ensures
            final(self)@ == (SeoView { slug: Some(s@), ..old(self)@ }),
    {
        self.slug = Some(s);
    }

    /// Sets the social-card image.
    pub fn with_og_image(&mut self, img: String)
        ensures
            final(self)@ == (SeoView { og_image: Some(img@), ..old(self)@ }),
    {
        self.og_image = Some(img);
    }

    /// Sets the social-card object type.
    pub fn with_og_type(&mut self, t: String)
        ensures
            final(self)@ == (SeoView { og_type: Some(t@), ..old(self)@ }),
    {
        self.og_type = Some(t);
    }

    /// Sets the social-card style.
    pub fn with_twitter_card(&mut self, c: String)
        ensures
            final(self)@ == (SeoView { twitter_card: Some(c@), ..old(self)@ }),
    {
        self.twitter_card = Some(c);
    }

    /// Sets the social-card style to the plain summary card.
    pub fn twitter_summary(&mut self)
        ensures
            final(self)@ == (SeoView { twitter_card: Some("summary"@), ..old(self)@ }),
    {
        self.twitter_card = Some("summary".to_owned());
    }

    /// Merges `other` over `self`: a set field of `other` wins.
    pub fn merged_with(self, other: &Seo) -> (r: Self)
        ensures
            r@ == merged_view(self@, other@),
    {
        let ghost orig = self@;
        let mut merged = self;
        if !other.title.as_str().is_empty() {
            merged.title = other.title.clone();
        }
        if !other.description.as_str().is_empty() {
            merged.description = other.description.clone();
        }
        if other.keywords.len() > 0 {
            merged.keywords = clone_keywords(&other.keywords);
        }
        if other.author.is_some() {
            merged.author = clone_opt(&other.author);
        }
        if other.canonical_url.is_some() {
            merged.canonical_url = clone_opt(&other.canonical_url);
        }
        if other.lang.is_some() {
            merged.lang = clone_opt(&other.lang);
        }
        if other.updated.is_some() {
            merged.updated = clone_opt(&other.updated);
        }
        if other.og_image.is_some() {
            merged.og_image = clone_opt(&other.og_image);
        }
        if other.og_type.is_some() {
            merged.og_type = clone_opt(&other.og_type);
        }
        if other.twitter_card.is_some() {
            merged.twitter_card = clone_opt(&other.twitter_card);
        }
        if other.json_ld.is_some() {
            merged.json_ld = clone_opt(&other.json_ld);
        }
        if other.content_type.is_some() {
            merged.content_type = clone_opt(&other.content_type);
        }
        if other.slug.is_some() {
            merged.slug = clone_opt(&other.slug);
        }
        proof {
            assert(merged@ =~= merged_view(orig, other@));
        }
        merged
    }

    /// Fills unset fields from the site-wide defaults.
    pub fn with_defaults(self, site: &SiteSeoDefaults) -> (r: Self)
        ensures
            r@ == with_defaults_view(self@, site@),
    {
        let ghost orig = self@;
        let mut filled = self;
        if filled.title.as_str().is_empty() {
            filled.title = site.site_title.clone();
        }
        if filled.description.as_str().is_empty() {
            filled.description = site.site_desc.clone();
        }
        if filled.lang.is_none() {
            filled.lang = Some(site.lang.clone());
        }
        if filled.og_type.is_none() {
            filled.og_type = Some("website".to_owned());
        }
        if filled.twitter_card.is_none() {
            filled.twitter_card = Some("summary_large_image".to_owned());
        }
        proof {
            assert(filled@ =~= with_defaults_view(orig, site@));
        }
        filled
    }
}

/// Duplicates a keyword list, preserving its view.
fn clone_keywords(ks: &Vec<String>) -> (r: Vec<String>)
    ensures
        r.deep_view() == ks.deep_view(),
{
    let mut copies: Vec<String> = Vec::new();
    let mut i: usize = 0;
    while i < ks.len()
        invariant
            i <= ks.len(),
            copies@.len() == i as int,
            forall|j: int| 0 <= j < i as int ==> copies@[j]@ == ks@[j]@,
        decreases ks.len() - i,
    {
        copies.push(ks[i].clone());
        i = i + 1;
    }
    proof {
        assert(copies.deep_view() =~= ks.deep_view());
    }
    copies
}

/// What one character contributes to an escaped attribute value.
pub open spec fn escape_char_view(c: char) -> Seq<char> {
    if c == '&' {
        "&amp;"@
    } else if c == '<' {
        "&lt;"@
    } else if c == '>' {
        "&gt;"@
    } else if c == '"' {
        "&quot;"@
    } else if c == '\'' {
        "&#39;"@
    } else {
        seq![c]
    }
}

/// The text with every markup-significant character replaced by its
/// entity.
pub open spec fn escape_view(s: Seq<char>) -> Seq<char>
    decreases s.len(),
{
    if s.len() == 0 {
        Seq::empty()
    } else {
        escape_view(s.drop_last()) + escape_char_view(s.last())
    }
}

/// Relies on `String::push`: appends exactly the given character.
#[verifier::external_body]
fn push_char(out: &mut String, c: char)
    ensures
        final(out)@ == old(out)@.push(c),
{
    out.push(c);
}

/// Escapes a string for use inside an HTML attribute value: `&`, `<`,
/// `>`, `"` and `'` become entities, everything else is kept.
pub fn html_escape(s: &str) -> (out: String)
    ensures
        out@ == escape_view(s@),
{
    let n = s.unicode_len();
    let mut out = String::new();
    let mut i: usize = 0;
    while i < n
        invariant
            i <= n,
            n == s@.len(),
            out@ == escape_view(s@.take(i as int)),
        decreases n - i,
    {
        proof {
            assert(s@.take(i as int + 1).drop_last() =~= s@.take(i as int));
            assert(s@.take(i as int + 1).last() == s@[i as int]);
        }
        let c = s.get_char(i);
        if c == '&' {
            out.append("&amp;");
        } else if c == '<' {
            out.append("&lt;");
        } else if c == '>' {
            out.append("&gt;");
        } else if c == '"' {
            out.append("&quot;");
        } else if c == '\'' {
            out.append("&#39;");
        } else {
            push_char(&mut out, c);
            proof {
                assert(out@ =~= escape_view(s@.take(i as int)) + seq![c]);
            }
        }
        i = i + 1;
    }
    proof {
        assert(s@.take(n as int) =~= s@);
    }
    out
}

/// An optional string as a context value: the string, or null.
pub open spec fn opt_json(o: Option<Seq<char>>) -> JsonView {
    match o {
        Some(s) => JsonView::Str(s),
        None => JsonView::Null,
    }
}

/// The keyword list as a context value: an array of strings.
pub open spec fn keywords_json(ks: Seq<Seq<char>>) -> JsonView {
    JsonView::Arr(Seq::new(ks.len(), |i: int| JsonView::Str(ks[i])))
}

/// The context fragment a metadata value denotes: every field under its
/// own key, absent fields as null.
pub open spec fn ctx_entries(s: SeoView) -> Seq<(Seq<char>, JsonView)> {
    seq![
        ("title"@, JsonView::Str(s.title)),
        ("description"@, JsonView::Str(s.description)),
        ("keywords"@, keywords_json(s.keywords)),
        ("author"@, opt_json(s.author)),
        ("canonical_url"@, opt_json(s.canonical_url)),
        ("lang"@, opt_json(s.lang)),
        ("updated"@, opt_json(s.updated)),
        ("og_image"@, opt_json(s.og_image)),
        ("og_type"@, opt_json(s.og_type)),
        ("twitter_card"@, opt_json(s.twitter_card)),
        ("json_ld"@, opt_json(s.json_ld)),
        ("content_type"@, opt_json(s.content_type)),
        ("slug"@, opt_json(s.slug)),
    ]
}

/// The whole context fragment.
pub open spec fn ctx_view(s: SeoView) -> JsonView {
    JsonView::Obj(ctx_entries(s))
}

/// An optional string as a context value.
fn opt_value(o: &Option<String>) -> (r: JsonValue)
    ensures
        r@ == opt_json(o.deep_view()),
{
    match o {
        Some(s) => JsonValue::Str(s.clone()),
        None => JsonValue::Null,
    }
}

/// The keyword list as a context value.
fn keywords_value(ks: &Vec<String>) -> (r: JsonValue)
    ensures
        r@ == keywords_json(ks.deep_view()),
{
    let mut elems: Vec<JsonValue> = Vec::new();
    let mut i: usize = 0;
    while i < ks.len()
        invariant
            i <= ks.len(),
            elems@.len() == i as int,
            forall|j: int| 0 <= j < i as int ==> elems@[j]@ == JsonView::Str(ks@[j]@),
        decreases ks.len() - i,
    {
        elems.push(JsonValue::Str(ks[i].clone()));
        i = i + 1;
    }
    let r = JsonValue::Arr(elems);
    proof {
        crate::json::lemma_views_of_values(elems@);
        assert(views_of_values(elems@) =~= Seq::new(
            ks.deep_view().len(),
            |i: int| JsonView::Str(ks.deep_view()[i]),
        ));
    }
    r
}

/// The `<head>` a metadata value renders to: the charset and viewport
/// lines always; each optional line exactly when its field is set; the
/// description lines exactly when the description is non-empty; the
/// keyword line exactly when the joined keyword text is non-empty.  The
/// language and the JSON-LD fragment are emitted verbatim, everything
/// else is escaped.
pub open spec fn head_view(s: SeoView, site_name: Seq<char>) -> Seq<char> {
    let kw = if s.keywords.len() == 0 {
        Seq::<char>::empty()
    } else {
        join_view(s.keywords, ", "@)
    };
    let out = "<meta charset=\"utf-8\">\n"@;
    let out = if s.lang is Some {
        out + "<meta http-equiv=\"content-language\" content=\""@ + s.lang->0 + "\">\n"@
    } else {
        out
    };
    let out = out + "<meta name=\"viewport\" content=\"width=device-width, initial-scale=1\">\n"@;
    let out = if s.description.len() > 0 {
        out + "<meta name=\"description\" content=\""@ + escape_view(s.description) + "\">\n"@
    } else {
        out
    };
    let out = if kw.len() > 0 {
        out + "<meta name=\"keywords\" content=\""@ + escape_view(kw) + "\">\n"@
    } else {
        out
    };
    let out = if s.author is Some {
        out + "<meta name=\"author\" content=\""@ + escape_view(s.author->0) + "\">\n"@
    } else {
        out
    };
    let out = if s.canonical_url is Some {
        out + "<link rel=\"canonical\" href=\""@ + escape_view(s.canonical_url->0) + "\">\n"@
    } else {
        out
    };
    let out = out + "<meta property=\"og:title\" content=\""@ + escape_view(s.title) + "\">\n"@;
    let out = if s.description.len() > 0 {
        out + "<meta property=\"og:description\" content=\""@ + escape_view(s.description)
            + "\">\n"@
    } else {
        out
    };
    let out = if s.og_type is Some {
        out + "<meta property=\"og:type\" content=\""@ + escape_view(s.og_type->0) + "\">\n"@
    } else {
        out
    };
    let out = if s.og_image is Some {
        out + "<meta property=\"og:image\" content=\""@ + escape_view(s.og_image->0) + "\">\n"@
    } else {
        out
    };
    let out = out + "<meta property=\"og:site_name\" content=\""@ + escape_view(site_name)
        + "\">\n"@;
    let out = if s.twitter_card is Some {
        out + "<meta name=\"twitter:card\" content=\""@ + escape_view(s.twitter_card->0)
            + "\">\n"@
    } else {
        out
    };
    let out = out + "<meta name=\"twitter:title\" content=\""@ + escape_view(s.title) + "\">\n"@;
    let out = if s.description.len() > 0 {
        out + "<meta name=\"twitter:description\" content=\""@ + escape_view(s.description)
            + "\">\n"@
    } else {
        out
    };
    let out = if s.og_image is Some {
        out + "<meta name=\"twitter:image\" content=\""@ + escape_view(s.og_image->0) + "\">\n"@
    } else {
        out
    };
    let out = if s.json_ld is Some {
        out + "<script type=\"application/ld+json\">"@ + s.json_ld->0 + "</script>\n"@
    } else {
        out
    };
    out
}

impl Seo {
    /// The context fragment for the template layer: every field under
    /// its own key, absent fields as null.
    pub fn to_ctx(&self) -> (r: JsonValue)
        ensures
            r@ == ctx_view(self@),
    {
        let mut entries: Vec<(String, JsonValue)> = Vec::new();
        entries.push(("title".to_owned(), JsonValue::Str(self.title.clone())));
        entries.push(("description".to_owned(), JsonValue::Str(self.description.clone())));
        entries.push(("keywords".to_owned(), keywords_value(&self.keywords)));
        entries.push(("author".to_owned(), opt_value(&self.author)));
        entries.push(("canonical_url".to_owned(), opt_value(&self.canonical_url)));
        entries.push(("lang".to_owned(), opt_value(&self.lang)));
        entries.push(("updated".to_owned(), opt_value(&self.updated)));
        entries.push(("og_image".to_owned(), opt_value(&self.og_image)));
        entries.push(("og_type".to_owned(), opt_value(&self.og_type)));
        entries.push(("twitter_card".to_owned(), opt_value(&self.twitter_card)));
        entries.push(("json_ld".to_owned(), opt_value(&self.json_ld)));
        entries.push(("content_type".to_owned(), opt_value(&self.content_type)));
        entries.push(("slug".to_owned(), opt_value(&self.slug)));
        let r = JsonValue::Obj(entries);
        proof {
            crate::json::lemma_views_of_entries(entries@);
            assert(crate::json::views_of_entries(entries@) =~= ctx_entries(self@));
        }
        r
    }

    /// Renders the ready-to-inject `<head>` fragment.
    pub fn render_head(&self, site_name: &str) -> (out: String)
        ensures
            out@ == head_view(self@, site_name@),
    {
        let kw: String = if self.keywords.len() == 0 {
            String::new()
        } else {
            join_with(&self.keywords, ", ")
        };
        let mut out = "<meta charset=\"utf-8\">\n".to_owned();
        if let Some(l) = &self.lang {
            out.append("<meta http-equiv=\"content-language\" content=\"");
            out.append(l.as_str());
            out.append("\">\n");
        }
        out.append("<meta name=\"viewport\" content=\"width=device-width, initial-scale=1\">\n");
        if !self.description.as_str().is_empty() {
            out.append("<meta name=\"description\" content=\"");
            let e = html_escape(self.description.as_str());
            out.append(e.as_str());
            out.append("\">\n");
        }
        if !kw.as_str().is_empty() {
            out.append("<meta name=\"keywords\" content=\"");
            let e = html_escape(kw.as_str());
            out.append(e.as_str());
            out.append("\">\n");
        }
        if let Some(a) = &self.author {
            out.append("<meta name=\"author\" content=\"");
            let e = html_escape(a.as_str());
            out.append(e.as_str());
            out.append("\">\n");
        }
        if let Some(c) = &self.canonical_url {
            out.append("<link rel=\"canonical\" href=\"");
            let e = html_escape(c.as_str());
            out.append(e.as_str());
            out.append("\">\n");
        }
        out.append("<meta property=\"og:title\" content=\"");
        let e = html_escape(self.title.as_str());
        out.append(e.as_str());
        out.append("\">\n");
        if !self.description.as_str().is_empty() {
            out.append("<meta property=\"og:description\" content=\"");
            let e = html_escape(self.description.as_str());
            out.append(e.as_str());
            out.append("\">\n");
        }
        if let Some(t) = &self.og_type {
            out.append("<meta property=\"og:type\" content=\"");
            let e = html_escape(t.as_str());
            out.append(e.as_str());
            out.append("\">\n");
        }
        if let Some(img) = &self.og_image {
            out.append("<meta property=\"og:image\" content=\"");
            let e = html_escape(img.as_str());
            out.append(e.as_str());
            out.append("\">\n");
        }
        out.append("<meta property=\"og:site_name\" content=\"");
        let e = html_escape(site_name);
        out.append(e.as_str());
        out.append("\">\n");
        if let Some(card) = &self.twitter_card {
            out.append("<meta name=\"twitter:card\" content=\"");
            let e = html_escape(card.as_str());
            out.append(e.as_str());
            out.append("\">\n");
        }
        out.append("<meta name=\"twitter:title\" content=\"");
        let e = html_escape(self.title.as_str());
        out.append(e.as_str());
        out.append("\">\n");
        if !self.description.as_str().is_empty() {
            out.append("<meta name=\"twitter:description\" content=\"");
            let e = html_escape(self.description.as_str());
            out.append(e.as_str());
            out.append("\">\n");
        }
        if let Some(img) = &self.og_image {
            out.append("<meta name=\"twitter:image\" content=\"");
            let e = html_escape(img.as_str());
            out.append(e.as_str());
            out.append("\">\n");
        }
        if let Some(ld) = &self.json_ld {
            out.append("<script type=\"application/ld+json\">");
            out.append(ld.as_str());
            out.append("</script>\n");
        }
        out
    }
}

impl Clone for Seo {
    /// A deep copy whose view is the view of the original.
    fn clone(&self) -> (r: Self)
        ensures
            r@ == self@,
    {
        let r = Seo {
            title: self.title.clone(),
            description: self.description.clone(),
            keywords: clone_keywords(&self.keywords),
            author: clone_opt(&self.author),
            canonical_url: clone_opt(&self.canonical_url),
            lang: clone_opt(&self.lang),
            updated: clone_opt(&self.updated),
            og_image: clone_opt(&self.og_image),
            og_type: clone_opt(&self.og_type),
            twitter_card: clone_opt(&self.twitter_card),
            json_ld: clone_opt(&self.json_ld),
            content_type: clone_opt(&self.content_type),
            slug: clone_opt(&self.slug),
        };
        proof {
            assert(r@ =~= self@);
        }
        r
    }
}

impl Clone for SiteSeoDefaults {
    /// A deep copy whose view is the view of the original.
    fn clone(&self) -> (r: Self)
        ensures
            r@ == self@,
    {
        SiteSeoDefaults {
            site_title: self.site_title.clone(),
            site_desc: self.site_desc.clone(),
            lang: self.lang.clone(),
        }
    }
}

/// The mathematical content of [`SiteSeoDefaults`].
#[verifier::ext_equal]
pub struct SiteSeoDefaultsView {
    pub site_title: Seq<char>,
    pub site_desc: Seq<char>,
    pub lang: Seq<char>,
}

/// The site-wide fallback values `with_defaults` draws from.
#[derive(Debug)]
pub struct SiteSeoDefaults {
    pub site_title: String,
    pub site_desc: String,
    pub lang: String,
}

impl View for SiteSeoDefaults {
    type V = SiteSeoDefaultsView;

    open spec fn view(&self) -> SiteSeoDefaultsView {
        SiteSeoDefaultsView {
            site_title: self.site_title@,
            site_desc: self.site_desc@,
            lang: self.lang@,
        }
    }
}

impl SiteSeoDefaults {
    /// Bundles the site-wide fallback title, description and language.
    pub fn new(title: String, desc: String, lang: String) -> (r: Self)
        ensures
            r@ == (SiteSeoDefaultsView { site_title: title@, site_desc: desc@, lang: lang@ }),
    {
        SiteSeoDefaults { site_title: title, site_desc: desc, lang }
    }
}

} // verus!
