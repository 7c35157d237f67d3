use capsule_router::capsule::{Capsule, Method};
use capsule_router::dispatch::{
    dispatch_get, dispatch_post, handle_get, handle_post, normalize_path, not_found_plan,
    render_plan_for,
};
use capsule_router::engine::{context_for, LoadError, TemplateStore};
use capsule_router::join_with;
use capsule_router::json::JsonValue;
use capsule_router::registry::CapsuleRegistry;
use capsule_router::server::RocketTeraServer;

fn capsule(name: &str, uri: &str, template: &str, method: Method) -> Capsule {
    Capsule::new(
        name.to_string(),
        "about".to_string(),
        uri.to_string(),
        template.to_string(),
        method,
    )
}

fn str_entry(key: &str, value: &str) -> (String, JsonValue) {
    (key.to_string(), JsonValue::Str(value.to_string()))
}

fn base_context(name: &str, uri: &str, method: &str, data: JsonValue) -> JsonValue {
    JsonValue::Obj(vec![
        str_entry("name", name),
        str_entry("description", "about"),
        str_entry("uri", uri),
        str_entry("method", method),
        ("data".to_string(), data),
    ])
}

#[test]
fn new_capsule_starts_with_empty_object() {
    let c = capsule("home", "/", "home", Method::GET);
    assert_eq!(c.name, "home");
    assert_eq!(c.description, "about");
    assert_eq!(c.uri, "/");
    assert_eq!(c.template, "home");
    assert_eq!(c.data, JsonValue::Obj(vec![]));
}

#[test]
fn method_names() {
    assert_eq!(Method::GET.as_str(), "GET");
    assert_eq!(Method::POST.as_str(), "POST");
    assert_eq!(Method::PUT.as_str(), "PUT");
    assert_eq!(Method::DELETE.as_str(), "DELETE");
}

#[test]
fn registry_last_add_wins() {
    let mut reg = CapsuleRegistry::default();
    reg.add(capsule("first", "/x", "a", Method::GET));
    reg.add(capsule("second", "/x", "b", Method::GET));
    let hit = reg.get(&"/x".to_string()).expect("capsule registered at /x");
    assert_eq!(hit.name, "second");
    assert_eq!(hit.template, "b");
    assert_eq!(reg.all().len(), 1);
}

#[test]
fn registry_keeps_distinct_uris_apart() {
    let mut reg = CapsuleRegistry::default();
    reg.add(capsule("home", "/", "home", Method::GET));
    reg.add(capsule("blog", "/blog", "blog", Method::GET));
    assert_eq!(reg.all().len(), 2);
    assert_eq!(reg.get(&"/".to_string()).unwrap().name, "home");
    assert_eq!(reg.get(&"/blog".to_string()).unwrap().name, "blog");
}

#[test]
fn registry_miss_is_absent() {
    let reg = CapsuleRegistry::default();
    assert!(reg.get(&"/nope".to_string()).is_none());
    let mut reg = CapsuleRegistry::default();
    reg.add(capsule("home", "/", "home", Method::GET));
    assert!(reg.get(&"/nope".to_string()).is_none());
}

#[test]
fn join_with_separates_neighbours() {
    assert_eq!(join_with(&vec![], ", "), "");
    assert_eq!(join_with(&vec!["a".to_string()], ", "), "a");
    assert_eq!(join_with(&vec!["a".to_string(), "b".to_string()], ", "), "a, b");
}

#[test]
fn normalization_builds_canonical_key() {
    let segments = vec!["blog".to_string(), "post-1".to_string()];
    assert_eq!(normalize_path(&segments), "/blog/post-1");
    assert_eq!(normalize_path(&vec![]), "/");
    assert_eq!(normalize_path(&vec!["about".to_string()]), "/about");
}

#[test]
fn normalized_dispatch_equals_exact_lookup() {
    let mut reg = CapsuleRegistry::default();
    reg.add(capsule("post", "/blog/post-1", "post", Method::GET));
    let segments = vec!["blog".to_string(), "post-1".to_string()];
    let through_segments = handle_get(&reg, &segments);
    let through_key = dispatch_get(&reg, &"/blog/post-1".to_string());
    assert_eq!(through_segments, through_key);
    assert_eq!(through_segments.template, "post");
}

#[test]
fn context_carries_the_four_base_fields_and_data() {
    let c = capsule("home", "/", "home", Method::GET);
    let ctx = context_for(&c);
    assert_eq!(ctx, base_context("home", "/", "GET", JsonValue::Obj(vec![])));
}

#[test]
fn context_reflects_a_data_change() {
    let mut c = capsule("home", "/", "home", Method::PUT);
    let before = context_for(&c);
    c.data = JsonValue::Int(7);
    let after = context_for(&c);
    assert_eq!(before, base_context("home", "/", "PUT", JsonValue::Obj(vec![])));
    assert_eq!(after, base_context("home", "/", "PUT", JsonValue::Int(7)));
}

#[test]
fn get_hit_renders_the_capsule_template() {
    let mut reg = CapsuleRegistry::default();
    reg.add(capsule("home", "/", "home", Method::GET));
    let plan = dispatch_get(&reg, &"/".to_string());
    assert_eq!(plan.template, "home");
    assert_eq!(plan.context, base_context("home", "/", "GET", JsonValue::Obj(vec![])));
}

#[test]
fn post_body_overrides_data_wholly() {
    let mut reg = CapsuleRegistry::default();
    let mut echo = capsule("echo", "/echo", "echo", Method::POST);
    echo.data = JsonValue::Obj(vec![("x".to_string(), JsonValue::Int(1))]);
    reg.add(echo);
    let plan = dispatch_post(&reg, &"/echo".to_string(), "hello".to_string());
    assert_eq!(plan.template, "echo");
    let body_object = JsonValue::Obj(vec![str_entry("body", "hello")]);
    assert_eq!(plan.context, base_context("echo", "/echo", "POST", body_object));
}

#[test]
fn post_through_segments_matches_exact_key() {
    let mut reg = CapsuleRegistry::default();
    reg.add(capsule("echo", "/echo", "echo", Method::POST));
    let by_segments = handle_post(&reg, &vec!["echo".to_string()], "hi".to_string());
    let by_key = dispatch_post(&reg, &"/echo".to_string(), "hi".to_string());
    assert_eq!(by_segments, by_key);
}

#[test]
fn miss_renders_not_found_with_only_the_path() {
    let reg = CapsuleRegistry::default();
    let expected = JsonValue::Obj(vec![str_entry("path", "/nope")]);
    let get_plan = dispatch_get(&reg, &"/nope".to_string());
    assert_eq!(get_plan.template, "404");
    assert_eq!(get_plan.context, expected);
    let post_plan = dispatch_post(&reg, &"/nope".to_string(), "ignored".to_string());
    assert_eq!(post_plan.template, "404");
    assert_eq!(post_plan.context, expected);
}

#[test]
fn miss_does_not_leak_capsule_fields() {
    let mut reg = CapsuleRegistry::default();
    reg.add(capsule("home", "/", "home", Method::GET));
    let plan = handle_get(&reg, &vec!["nope".to_string()]);
    assert_eq!(plan.template, "404");
    assert_eq!(plan.context, JsonValue::Obj(vec![str_entry("path", "/nope")]));
}

#[test]
fn fallback_plan_has_empty_context() {
    let plan = not_found_plan();
    assert_eq!(plan.template, "404");
    assert_eq!(plan.context, JsonValue::Obj(vec![]));
}

#[test]
fn render_plan_uses_capsule_template_and_context() {
    let c = capsule("home", "/", "home", Method::DELETE);
    let plan = render_plan_for(&c);
    assert_eq!(plan.template, "home");
    assert_eq!(plan.context, base_context("home", "/", "DELETE", JsonValue::Obj(vec![])));
}

#[test]
fn fresh_store_is_empty() {
    let store = TemplateStore::new();
    assert!(!store.contains(&"404".to_string()));
}

#[test]
fn successful_load_installs_all_names() {
    let mut store = TemplateStore::new();
    let loaded = store.install(Ok(vec!["home".to_string(), "404".to_string()]));
    assert!(loaded.is_ok());
    assert!(store.contains(&"home".to_string()));
    assert!(store.contains(&"404".to_string()));
    assert!(!store.contains(&"blog".to_string()));
}

#[test]
fn failed_load_keeps_previous_set() {
    let mut store = TemplateStore::new();
    store.install(Ok(vec!["home".to_string()])).unwrap();
    let err = store.install(Err(LoadError::BadTemplate("broken.html.tera".to_string())));
    assert_eq!(err, Err(LoadError::BadTemplate("broken.html.tera".to_string())));
    assert!(store.contains(&"home".to_string()));
}

#[test]
fn later_load_replaces_the_whole_set() {
    let mut store = TemplateStore::new();
    store.install(Ok(vec!["home".to_string(), "blog".to_string()])).unwrap();
    store.install(Ok(vec!["404".to_string()])).unwrap();
    assert!(store.contains(&"404".to_string()));
    assert!(!store.contains(&"home".to_string()));
    assert!(!store.contains(&"blog".to_string()));
}

#[test]
fn load_error_variants_come_back_unchanged() {
    let mut store = TemplateStore::new();
    let bad_pattern = store.install(Err(LoadError::BadPattern("[".to_string())));
    assert_eq!(bad_pattern, Err(LoadError::BadPattern("[".to_string())));
    let unreadable = store.install(Err(LoadError::Unreadable("templates".to_string())));
    assert_eq!(unreadable, Err(LoadError::Unreadable("templates".to_string())));
}

#[test]
fn server_remembers_its_template_directory() {
    let server = RocketTeraServer::new("templates".to_string());
    assert_eq!(server.templates_dir(), "templates");
}
