use duat_catppuccin::{Registry, Style};

fn registered_names(registry: &Registry) -> Vec<String> {
    registry.entries().iter().map(|(name, _)| name.clone()).collect()
}

#[test]
fn a_new_registry_is_empty() {
    let registry = Registry::new();
    assert_eq!(registry.len(), 0);
    assert!(registry.entries().is_empty());
    assert_eq!(registry.get("Default"), None);
}

#[test]
fn set_appends_a_new_name() {
    let mut registry = Registry::new();
    registry.set("a", Style::new().bold());
    registry.set("b", Style::new().italic());
    assert_eq!(registry.len(), 2);
    assert_eq!(registered_names(&registry), vec!["a".to_string(), "b".to_string()]);
    assert_eq!(registry.get("a"), Some(Style::new().bold()));
    assert_eq!(registry.get("b"), Some(Style::new().italic()));
    assert_eq!(registry.get("c"), None);
}

#[test]
fn set_replaces_a_known_name_in_place() {
    let mut registry = Registry::new();
    registry.set("a", Style::new().bold());
    registry.set("b", Style::new().italic());
    registry.set("a", Style::new().with("#112233"));
    assert_eq!(registry.len(), 2);
    assert_eq!(registered_names(&registry), vec!["a".to_string(), "b".to_string()]);
    assert_eq!(registry.get("a"), Some(Style::new().with("#112233")));
    assert_eq!(registry.get("b"), Some(Style::new().italic()));
}

#[test]
fn set_many_is_one_set_after_the_other() {
    let items = vec![
        ("a".to_string(), Style::new().bold()),
        ("b".to_string(), Style::new().italic()),
        ("a".to_string(), Style::new().reverse()),
        ("c".to_string(), Style::new()),
    ];
    let mut many = Registry::new();
    many.set("z", Style::new().reset());
    many.set_many(&items);
    let mut one_by_one = Registry::new();
    one_by_one.set("z", Style::new().reset());
    for (name, style) in &items {
        one_by_one.set(name, *style);
    }
    assert_eq!(many.entries(), one_by_one.entries());
    assert_eq!(
        registered_names(&many),
        vec!["z".to_string(), "a".to_string(), "b".to_string(), "c".to_string()]
    );
    assert_eq!(many.get("a"), Some(Style::new().reverse()));
}

#[test]
fn set_many_twice_is_set_many_once() {
    let items = vec![
        ("a".to_string(), Style::new().bold()),
        ("a".to_string(), Style::new().reverse()),
        ("b".to_string(), Style::new().italic()),
    ];
    let mut once = Registry::new();
    once.set("b", Style::new());
    once.set_many(&items);
    let mut twice = Registry::new();
    twice.set("b", Style::new());
    twice.set_many(&items);
    twice.set_many(&items);
    assert_eq!(once.entries(), twice.entries());
}

#[test]
fn names_are_told_apart_exactly() {
    let mut registry = Registry::new();
    registry.set("markup", Style::new().bold());
    registry.set("markup.list", Style::new().italic());
    registry.set("Markup", Style::new().reverse());
    assert_eq!(registry.len(), 3);
    assert_eq!(registry.get("markup"), Some(Style::new().bold()));
    assert_eq!(registry.get("markup.list"), Some(Style::new().italic()));
    assert_eq!(registry.get("Markup"), Some(Style::new().reverse()));
    assert_eq!(registry.get("markup."), None);
    assert_eq!(registry.get(""), None);
}
