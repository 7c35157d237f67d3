use capsule_router::json::JsonValue;
use capsule_router::seo::{html_escape, Seo, SiteSeoDefaults};

fn null_entry(key: &str) -> (String, JsonValue) {
    (key.to_string(), JsonValue::Null)
}

fn joined(parts: &[&str]) -> String {
    parts.concat()
}

#[test]
fn new_seo_is_empty() {
    let s = Seo::new();
    assert_eq!(s.title, "");
    assert_eq!(s.description, "");
    assert!(s.keywords.is_empty());
    assert!(s.author.is_none());
    assert!(s.canonical_url.is_none());
    assert!(s.lang.is_none());
    assert!(s.updated.is_none());
    assert!(s.og_image.is_none());
    assert!(s.og_type.is_none());
    assert!(s.twitter_card.is_none());
    assert!(s.json_ld.is_none());
    assert!(s.content_type.is_none());
    assert!(s.slug.is_none());
}

#[test]
fn builders_set_their_fields() {
    let mut s = Seo::new();
    s.with_title("Title".to_string());
    s.with_desc("Desc".to_string());
    s.with_keywords(vec!["a".to_string(), "b".to_string()]);
    s.with_author("Ann".to_string());
    s.with_lang("fr".to_string());
    s.with_updated("2024-01-01".to_string());
    s.with_json_ld("{}".to_string());
    s.with_content_type("work".to_string());
    s.with_canonical("https://example.org/".to_string());
    s.with_slug("title".to_string());
    s.with_og_image("https://example.org/img.png".to_string());
    s.with_og_type("article".to_string());
    s.with_twitter_card("summary_large_image".to_string());
    assert_eq!(s.title, "Title");
    assert_eq!(s.description, "Desc");
    assert_eq!(s.keywords, vec!["a".to_string(), "b".to_string()]);
    assert_eq!(s.author.as_deref(), Some("Ann"));
    assert_eq!(s.lang.as_deref(), Some("fr"));
    assert_eq!(s.updated.as_deref(), Some("2024-01-01"));
    assert_eq!(s.json_ld.as_deref(), Some("{}"));
    assert_eq!(s.content_type.as_deref(), Some("work"));
    assert_eq!(s.canonical_url.as_deref(), Some("https://example.org/"));
    assert_eq!(s.slug.as_deref(), Some("title"));
    assert_eq!(s.og_image.as_deref(), Some("https://example.org/img.png"));
    assert_eq!(s.og_type.as_deref(), Some("article"));
    assert_eq!(s.twitter_card.as_deref(), Some("summary_large_image"));
}

#[test]
fn twitter_summary_sets_plain_card() {
    let mut s = Seo::new();
    s.twitter_summary();
    assert_eq!(s.twitter_card.as_deref(), Some("summary"));
}

#[test]
fn merge_prefers_set_fields_of_other() {
    let mut base = Seo::new();
    base.with_title("Base".to_string());
    base.with_author("Ann".to_string());
    base.with_keywords(vec!["base".to_string()]);
    let mut other = Seo::new();
    other.with_desc("Other desc".to_string());
    other.with_author("Bob".to_string());
    let merged = base.merged_with(&other);
    assert_eq!(merged.title, "Base");
    assert_eq!(merged.description, "Other desc");
    assert_eq!(merged.keywords, vec!["base".to_string()]);
    assert_eq!(merged.author.as_deref(), Some("Bob"));
    assert!(merged.lang.is_none());
}

#[test]
fn defaults_fill_only_unset_fields() {
    let site = SiteSeoDefaults::new(
        "Site".to_string(),
        "Site desc".to_string(),
        "fr".to_string(),
    );
    let mut s = Seo::new();
    s.with_title("Page".to_string());
    let filled = s.with_defaults(&site);
    assert_eq!(filled.title, "Page");
    assert_eq!(filled.description, "Site desc");
    assert_eq!(filled.lang.as_deref(), Some("fr"));
    assert_eq!(filled.og_type.as_deref(), Some("website"));
    assert_eq!(filled.twitter_card.as_deref(), Some("summary_large_image"));

    let mut set = Seo::new();
    set.with_lang("en".to_string());
    set.with_og_type("article".to_string());
    set.with_twitter_card("summary".to_string());
    let kept = set.with_defaults(&site);
    assert_eq!(kept.title, "Site");
    assert_eq!(kept.lang.as_deref(), Some("en"));
    assert_eq!(kept.og_type.as_deref(), Some("article"));
    assert_eq!(kept.twitter_card.as_deref(), Some("summary"));
}

#[test]
fn escape_replaces_markup_characters() {
    assert_eq!(html_escape("a&b<c>d\"e'f"), "a&amp;b&lt;c&gt;d&quot;e&#39;f");
    assert_eq!(html_escape(""), "");
    assert_eq!(html_escape("plain"), "plain");
    assert_eq!(html_escape("&&"), "&amp;&amp;");
}

#[test]
fn ctx_holds_every_field_under_its_key() {
    let mut s = Seo::new();
    s.with_title("T".to_string());
    s.with_desc("D".to_string());
    s.with_keywords(vec!["k1".to_string(), "k2".to_string()]);
    s.with_author("Ann".to_string());
    let ctx = s.to_ctx();
    let expected = JsonValue::Obj(vec![
        ("title".to_string(), JsonValue::Str("T".to_string())),
        ("description".to_string(), JsonValue::Str("D".to_string())),
        (
            "keywords".to_string(),
            JsonValue::Arr(vec![
                JsonValue::Str("k1".to_string()),
                JsonValue::Str("k2".to_string()),
            ]),
        ),
        ("author".to_string(), JsonValue::Str("Ann".to_string())),
        null_entry("canonical_url"),
        null_entry("lang"),
        null_entry("updated"),
        null_entry("og_image"),
        null_entry("og_type"),
        null_entry("twitter_card"),
        null_entry("json_ld"),
        null_entry("content_type"),
        null_entry("slug"),
    ]);
    assert_eq!(ctx, expected);
}

#[test]
fn empty_seo_renders_minimal_head() {
    let s = Seo::new();
    let head = s.render_head("My Site");
    let expected = joined(&[
        "<meta charset=\"utf-8\">\n",
        "<meta name=\"viewport\" content=\"width=device-width, initial-scale=1\">\n",
        "<meta property=\"og:title\" content=\"\">\n",
        "<meta property=\"og:site_name\" content=\"My Site\">\n",
        "<meta name=\"twitter:title\" content=\"\">\n",
    ]);
    assert_eq!(head, expected);
}

#[test]
fn full_seo_renders_every_line() {
    let mut s = Seo::new();
    s.with_title("A & B".to_string());
    s.with_desc("All about <tags>".to_string());
    s.with_keywords(vec!["one".to_string(), "two".to_string()]);
    s.with_author("Ann".to_string());
    s.with_lang("fr".to_string());
    s.with_canonical("https://example.org/".to_string());
    s.with_og_type("article".to_string());
    s.with_og_image("https://example.org/i.png".to_string());
    s.with_twitter_card("summary".to_string());
    s.with_json_ld("{\"@type\":\"Thing\"}".to_string());
    let head = s.render_head("Site \"X\"");
    let expected = joined(&[
        "<meta charset=\"utf-8\">\n",
        "<meta http-equiv=\"content-language\" content=\"fr\">\n",
        "<meta name=\"viewport\" content=\"width=device-width, initial-scale=1\">\n",
        "<meta name=\"description\" content=\"All about &lt;tags&gt;\">\n",
        "<meta name=\"keywords\" content=\"one, two\">\n",
        "<meta name=\"author\" content=\"Ann\">\n",
        "<link rel=\"canonical\" href=\"https://example.org/\">\n",
        "<meta property=\"og:title\" content=\"A &amp; B\">\n",
        "<meta property=\"og:description\" content=\"All about &lt;tags&gt;\">\n",
        "<meta property=\"og:type\" content=\"article\">\n",
        "<meta property=\"og:image\" content=\"https://example.org/i.png\">\n",
        "<meta property=\"og:site_name\" content=\"Site &quot;X&quot;\">\n",
        "<meta name=\"twitter:card\" content=\"summary\">\n",
        "<meta name=\"twitter:title\" content=\"A &amp; B\">\n",
        "<meta name=\"twitter:description\" content=\"All about &lt;tags&gt;\">\n",
        "<meta name=\"twitter:image\" content=\"https://example.org/i.png\">\n",
        "<script type=\"application/ld+json\">{\"@type\":\"Thing\"}</script>\n",
    ]);
    assert_eq!(head, expected);
}

#[test]
fn keywords_of_empty_strings_render_no_keyword_line() {
    let mut s = Seo::new();
    s.with_keywords(vec!["".to_string()]);
    let head = s.render_head("S");
    assert!(!head.contains("keywords"));
    let mut two = Seo::new();
    two.with_keywords(vec!["".to_string(), "".to_string()]);
    let joined = two.render_head("S");
    assert!(joined.contains("<meta name=\"keywords\" content=\", \">\n"));
}
