use polybar_title_module::capitalize::CapitalizeMode;
use polybar_title_module::config::{template, Config};
use polybar_title_module::filter::{Filter, Options};
use polybar_title_module::identifier::{WindowIdentifier, WindowIdentifierKind};
use polybar_title_module::resolver::Resolver;

fn key(kind: WindowIdentifierKind, value: &str) -> WindowIdentifier {
    WindowIdentifier { kind, value: value.to_string() }
}

fn capitalizing(mode: CapitalizeMode) -> Option<Options> {
    Some(Options { capitalize: Some(mode) })
}

#[test]
fn new_name_rule_on_class() {
    let mut r = Resolver::new(None, None);
    r.insert_filter(key(WindowIdentifierKind::Class, "firefox"), Filter::NewName("Browser".to_string()));
    assert_eq!(r.resolve("firefox", "Mozilla Firefox"), "Browser");
}

#[test]
fn empty_table_all_words() {
    let r = Resolver::new(capitalizing(CapitalizeMode::AllWords), None);
    assert_eq!(r.resolve("code editor", "whatever"), "Code Editor");
}

#[test]
fn class_rule_precedes_name_rule() {
    let mut r = Resolver::new(None, None);
    r.insert_filter(key(WindowIdentifierKind::Name, "Terminal"), Filter::NewName("Shell".to_string()));
    r.insert_filter(key(WindowIdentifierKind::Class, "kitty"), Filter::NewName("Kitty".to_string()));
    assert_eq!(r.resolve("kitty", "Terminal"), "Kitty");
    assert_eq!(r.resolve("alacritty", "Terminal"), "Shell");
}

#[test]
fn name_rule_applies_to_class_value() {
    let mut r = Resolver::new(None, None);
    r.insert_filter(
        key(WindowIdentifierKind::Name, "Terminal"),
        Filter::Options(Options { capitalize: Some(CapitalizeMode::FirstLetter) }),
    );
    assert_eq!(r.resolve("alacritty", "Terminal"), "Alacritty");
}

#[test]
fn global_options_apply_when_nothing_matches() {
    let mut r = Resolver::new(capitalizing(CapitalizeMode::FirstLetter), None);
    r.insert_filter(key(WindowIdentifierKind::Class, "other"), Filter::NewName("Other".to_string()));
    assert_eq!(r.resolve("firefox", "Mozilla Firefox"), "Firefox");
}

#[test]
fn no_options_leaves_class_unchanged() {
    let r = Resolver::new(None, None);
    assert_eq!(r.resolve("firefox", "Mozilla Firefox"), "firefox");
    let r = Resolver::new(Some(Options { capitalize: None }), None);
    assert_eq!(r.resolve("firefox", "Mozilla Firefox"), "firefox");
}

#[test]
fn new_name_ignores_window_values() {
    let f = Filter::NewName("Foo".to_string());
    assert_eq!(f.resolve("anything"), "Foo");
    assert_eq!(f.resolve(""), "Foo");
}

#[test]
fn options_filter_transforms_value() {
    let f = Filter::Options(Options { capitalize: Some(CapitalizeMode::AllWords) });
    assert_eq!(f.resolve("visual studio code"), "Visual Studio Code");
    assert_eq!(Options { capitalize: None }.resolve("raw"), "raw");
}

#[test]
fn insert_filter_replaces_same_key() {
    let mut r = Resolver::new(None, None);
    r.insert_filter(key(WindowIdentifierKind::Class, "firefox"), Filter::NewName("Old".to_string()));
    r.insert_filter(key(WindowIdentifierKind::Class, "firefox"), Filter::NewName("New".to_string()));
    assert_eq!(r.filters.len(), 1);
    assert_eq!(r.resolve("firefox", ""), "New");
    assert!(r.rule(WindowIdentifierKind::Class, "firefox").is_some());
    assert!(r.rule(WindowIdentifierKind::Name, "firefox").is_none());
}

#[test]
fn class_lookup_is_exact() {
    let mut r = Resolver::new(None, None);
    r.insert_filter(key(WindowIdentifierKind::Class, "firefox"), Filter::NewName("Browser".to_string()));
    assert_eq!(r.resolve("Firefox", ""), "Firefox");
}

#[test]
fn desktop_label() {
    assert_eq!(Resolver::default().desktop(), "Desktop");
    assert_eq!(Resolver::new(None, None).desktop(), "");
}

#[test]
fn default_resolver_capitalizes_first_letter() {
    let r = Resolver::default();
    assert_eq!(r.resolve("firefox", "Mozilla Firefox"), "Firefox");
    assert!(r.filters.is_empty());
}

#[test]
fn default_config() {
    let c = Config::default();
    assert!(c.display_name.is_none());
    assert_eq!(c.template, "{{ name }}");
    assert_eq!(template(), "{{ name }}");
    assert_eq!(c.resolver.desktop_name.as_deref(), Some("Desktop"));
}
