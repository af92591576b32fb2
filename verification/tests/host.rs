use std::sync::Arc;

use duat_catppuccin::host::{add_colorscheme, to_form, to_pairs, with_style};
use duat_catppuccin::{Catppuccin, ColorScheme, Colors, Registry, Style};
use duat_core::form::Form;

fn no_styles(_colors: Colors) -> Vec<(String, Style)> {
    Vec::new()
}

fn form_named(pairs: &[(String, Form)], name: &str) -> Form {
    let found: Vec<&(String, Form)> = pairs.iter().filter(|(n, _)| n == name).collect();
    assert_eq!(found.len(), 1);
    found[0].1
}

#[test]
fn to_form_of_nothing_is_the_plain_form() {
    assert!(to_form(&Style::new()) == Form::new());
}

#[test]
fn to_form_sets_the_foreground() {
    let form = to_form(&Style::new().with("#cba6f7"));
    assert!(form == Form::new().with("#cba6f7"));
    assert!(form != Form::new());
    assert!(form != Form::new().on("#cba6f7"));
    assert!(form != Form::new().with("#cba6f8"));
}

#[test]
fn to_form_sets_the_background() {
    let form = to_form(&Style::new().on("#1e1e2e"));
    assert!(form == Form::new().on("#1e1e2e"));
    assert!(form != Form::new());
    assert!(form != Form::new().with("#1e1e2e"));
}

#[test]
fn to_form_sets_each_attribute() {
    assert!(to_form(&Style::new().bold()) == Form::new().bold());
    assert!(to_form(&Style::new().italic()) == Form::new().italic());
    assert!(to_form(&Style::new().underlined()) == Form::new().underlined());
    assert!(to_form(&Style::new().reverse()) == Form::new().reverse());
    assert!(to_form(&Style::new().crossed_out()) == Form::new().crossed_out());
    assert!(to_form(&Style::new().reset()) == Form::new().reset());
    assert!(to_form(&Style::new().bold()) != Form::new());
    assert!(to_form(&Style::new().italic()) != Form::new());
    assert!(to_form(&Style::new().underlined()) != Form::new());
    assert!(to_form(&Style::new().reverse()) != Form::new());
    assert!(to_form(&Style::new().crossed_out()) != Form::new());
    assert!(to_form(&Style::new().reset()) != Form::new());
    assert!(to_form(&Style::new().italic()) != Form::new().bold());
    assert!(to_form(&Style::new().underlined()) != Form::new().italic());
    assert!(to_form(&Style::new().reverse()) != Form::new().underlined());
    assert!(to_form(&Style::new().crossed_out()) != Form::new().reverse());
    assert!(to_form(&Style::new().reset()) != Form::new().crossed_out());
}

#[test]
fn to_form_sets_colors_and_attributes_together() {
    let style = Style::new().with("#89b4fa").on("#1e1e2e").bold().underlined();
    assert!(to_form(&style) == Form::new().with("#89b4fa").on("#1e1e2e").bold().underlined());
    assert!(to_form(&style) != Form::new().with("#89b4fa").on("#1e1e2e").bold());
}

#[test]
fn to_form_reads_upper_case_digits() {
    assert!(to_form(&Style::new().with("#ABCDEF")) == Form::new().with("#abcdef"));
}

#[test]
fn to_pairs_keeps_names_and_order() {
    let mut registry = Registry::new();
    registry.set("b", Style::new().with("#010203"));
    registry.set("a", Style::new().italic());
    registry.set("b", Style::new().on("#040506"));
    let pairs = to_pairs(&registry);
    assert_eq!(pairs.len(), 2);
    assert_eq!(pairs[0].0, "b");
    assert!(pairs[0].1 == Form::new().on("#040506"));
    assert_eq!(pairs[1].0, "a");
    assert!(pairs[1].1 == Form::new().italic());
}

#[test]
fn pairs_of_mocha() {
    let scheme = ColorScheme::mocha(Arc::new(no_styles));
    let pairs = scheme.pairs();
    assert_eq!(pairs.len(), 58);
    assert_eq!(pairs[0].0, "Default");
    assert!(pairs[0].1 == Form::new().with("#cdd6f4").on("#1e1e2e"));
    assert!(form_named(&pairs, "keyword") == Form::new().with("#cba6f7"));
    assert!(form_named(&pairs, "AccentOk") == Form::new().with("#89dceb").bold());
    assert!(form_named(&pairs, "MainCursor") == Form::new().reverse());
    assert!(form_named(&pairs, "type") == Form::new().with("#f9e2af").italic());
    assert!(form_named(&pairs, "function") == Form::new().with("#89b4fa").reset());
    assert!(form_named(&pairs, "markup") == Form::new());
    assert!(form_named(&pairs, "markup.strikethrough") == Form::new().crossed_out());
    assert!(form_named(&pairs, "markup.link") == Form::new().with("#b4befe").underlined());
    assert!(form_named(&pairs, "Frame") == Form::new().with("#a6adc8").on("#1e1e2e"));
    assert_eq!(pairs[57].0, "Frame");
}

#[test]
fn pairs_of_latte_without_background() {
    let scheme = ColorScheme::latte(Arc::new(no_styles)).no_bg(true);
    let pairs = scheme.pairs();
    assert!(form_named(&pairs, "Default") == Form::new().with("#4c4f69"));
    assert!(form_named(&pairs, "Frame") == Form::new().with("#6c6f85").on("#eff1f5"));
}

#[test]
fn pairs_hold_the_modifications() {
    let scheme = ColorScheme::mocha(Arc::new(|colors: Colors| {
        vec![("punctuation.delimiter".to_string(), Style::new().with(colors.red))]
    }));
    let pairs = scheme.pairs();
    assert_eq!(pairs.len(), 58);
    assert!(form_named(&pairs, "punctuation.delimiter") == Form::new().with("#f38ba8"));
    assert!(form_named(&pairs, "punctuation.bracket") == Form::new().with("#a6adc8"));
}

#[test]
fn add_colorscheme_lists_the_scheme() {
    add_colorscheme(ColorScheme::frappe(Arc::new(no_styles)));
    let listed = duat_core::form::colorscheme_list();
    assert!(listed.contains(&"catppuccin-frappe".to_string()));
}

#[test]
fn plug_lists_the_four_schemes() {
    Catppuccin::<(), ()>::new().no_background().plug();
    let listed = duat_core::form::colorscheme_list();
    for name in
        ["catppuccin-latte", "catppuccin-frappe", "catppuccin-macchiato", "catppuccin-mocha"]
    {
        assert!(listed.contains(&name.to_string()));
    }
}

#[test]
fn a_selected_scheme_reaches_the_editor() {
    Catppuccin::<(), ()>::new()
        .modify(|colors: Colors| {
            vec![("punctuation.delimiter".to_string(), Style::new().with(colors.red))]
        })
        .plug();
    duat_core::form::set_colorscheme("catppuccin-mocha");
    let form_of = |name: &str| duat_core::form::from_id(duat_core::form::id_of_non_static(name));
    assert!(form_of("Default") == Form::new().with("#cdd6f4").on("#1e1e2e"));
    assert!(form_of("keyword") == Form::new().with("#cba6f7"));
    assert!(form_of("punctuation.delimiter") == Form::new().with("#f38ba8"));
    assert!(form_of("punctuation.bracket") == Form::new().with("#a6adc8"));
    assert!(form_of("markup.heading") == Form::new().with("#89b4fa").bold());
    duat_core::form::set_colorscheme("catppuccin-latte");
    assert!(form_of("Default") == Form::new().with("#4c4f69").on("#eff1f5"));
    assert!(form_of("punctuation.delimiter") == Form::new().with("#d20f39"));
}

#[test]
fn with_style_keeps_what_the_style_does_not_set() {
    let start = Form::new().on("#1e1e2e").italic();
    let changed = with_style(start, &Style::new().with("#cba6f7").bold());
    assert!(changed == Form::new().on("#1e1e2e").italic().with("#cba6f7").bold());
    assert!(changed != start);
    assert!(changed != Form::new().with("#cba6f7").bold());
    assert!(with_style(start, &Style::new()) == start);
}

#[test]
fn with_style_replaces_what_the_style_sets() {
    let start = Form::new().with("#111111").on("#222222");
    let changed = with_style(start, &Style::new().with("#333333").on("#444444"));
    assert!(changed == Form::new().with("#333333").on("#444444"));
}

#[test]
fn to_form_is_with_style_on_the_plain_form() {
    let style = Style::new().with("#89b4fa").on("#1e1e2e").underlined().reset();
    assert!(to_form(&style) == with_style(Form::new(), &style));
}
