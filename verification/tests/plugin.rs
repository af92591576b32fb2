use duat_catppuccin::palette::lookup;
use duat_catppuccin::plugin::no_modifications;
use duat_catppuccin::{Catppuccin, Colors, Flavour, Registry, Style};

fn red_delimiters(colors: Colors) -> Vec<(String, Style)> {
    vec![("punctuation.delimiter".to_string(), Style::new().with(colors.red))]
}

fn the_four() -> Vec<Flavour> {
    vec![Flavour::Latte, Flavour::Frappe, Flavour::Macchiato, Flavour::Mocha]
}

#[test]
fn a_new_plugin_sets_the_background_and_modifies_nothing() {
    let plugin = Catppuccin::<(), ()>::new();
    assert!(!plugin.no_background);
    for flavour in the_four() {
        assert!((plugin.modifications)(lookup(flavour)).is_empty());
    }
}

#[test]
fn no_modifications_returns_no_style() {
    for flavour in the_four() {
        assert_eq!(no_modifications(lookup(flavour)), Vec::new());
    }
}

#[test]
fn no_background_leaves_the_background_alone() {
    let plugin = Catppuccin::<(), ()>::new().no_background();
    assert!(plugin.no_background);
    assert!(plugin.no_background().no_background);
}

#[test]
fn modify_keeps_the_background_choice() {
    let plugin = Catppuccin::<(), ()>::new().modify(red_delimiters);
    assert!(!plugin.no_background);
    let plugin = Catppuccin::<(), ()>::new().no_background().modify(red_delimiters);
    assert!(plugin.no_background);
    let plugin = Catppuccin::<(), ()>::new().modify(red_delimiters).no_background();
    assert!(plugin.no_background);
    assert_eq!(
        (plugin.modifications)(lookup(Flavour::Mocha)),
        vec![("punctuation.delimiter".to_string(), Style::new().with("#f38ba8"))]
    );
}

#[test]
fn a_later_modify_replaces_an_earlier_one() {
    let plugin = Catppuccin::<(), ()>::new()
        .modify(red_delimiters)
        .modify(|colors: Colors| vec![("keyword".to_string(), Style::new().with(colors.blue))]);
    assert_eq!(
        (plugin.modifications)(lookup(Flavour::Latte)),
        vec![("keyword".to_string(), Style::new().with("#1e66f5"))]
    );
}

#[test]
fn the_four_schemes_share_the_choices() {
    let plugin = Catppuccin::<(), ()>::new().no_background().modify(red_delimiters);
    for flavour in the_four() {
        let scheme = plugin.scheme(flavour);
        assert_eq!(scheme.flavour, flavour);
        assert!(scheme.no_background);
        assert!(std::sync::Arc::ptr_eq(&scheme.modifications, &plugin.modifications));
        let mut registry = Registry::new();
        scheme.apply(&mut registry);
        let colors = lookup(flavour);
        assert_eq!(registry.get("Default"), Some(Style::new().with(colors.text)));
        assert_eq!(registry.get("punctuation.delimiter"), Some(Style::new().with(colors.red)));
        assert_eq!(
            registry.get("punctuation.bracket"),
            Some(Style::new().with(colors.subtext0))
        );
    }
}

#[test]
fn scheme_with_background() {
    let plugin = Catppuccin::<(), ()>::new();
    let scheme = plugin.scheme(Flavour::Mocha);
    assert!(!scheme.no_background);
    assert_eq!(scheme.name(), "catppuccin-mocha");
    let mut registry = Registry::new();
    scheme.apply(&mut registry);
    assert_eq!(registry.get("Default"), Some(Style::new().with("#cdd6f4").on("#1e1e2e")));
}
