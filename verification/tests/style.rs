use duat_catppuccin::Style;

#[test]
fn a_new_style_sets_nothing() {
    let style = Style::new();
    assert_eq!(style.fg(), None);
    assert_eq!(style.bg(), None);
    assert!(!style.is_bold());
    assert!(!style.is_italic());
    assert!(!style.is_underlined());
    assert!(!style.is_reverse());
    assert!(!style.is_crossed_out());
    assert!(!style.is_reset());
}

#[test]
fn with_sets_the_foreground_only() {
    let style = Style::new().with("#cba6f7");
    assert_eq!(style.fg(), Some("#cba6f7"));
    assert_eq!(style.bg(), None);
    assert_eq!(style, Style::new().with("#cba6f7"));
    assert_ne!(style, Style::new());
    assert_ne!(style, Style::new().on("#cba6f7"));
}

#[test]
fn on_sets_the_background_only() {
    let style = Style::new().on("#1e1e2e");
    assert_eq!(style.fg(), None);
    assert_eq!(style.bg(), Some("#1e1e2e"));
}

#[test]
fn a_later_color_replaces_an_earlier_one() {
    let style = Style::new().with("#111111").on("#222222").with("#333333").on("#444444");
    assert_eq!(style.fg(), Some("#333333"));
    assert_eq!(style.bg(), Some("#444444"));
}

#[test]
fn each_attribute_sets_its_own_flag() {
    let bold = Style::new().bold();
    assert!(bold.is_bold() && !bold.is_italic() && !bold.is_underlined());
    assert!(!bold.is_reverse() && !bold.is_crossed_out() && !bold.is_reset());
    let italic = Style::new().italic();
    assert!(!italic.is_bold() && italic.is_italic() && !italic.is_underlined());
    let underlined = Style::new().underlined();
    assert!(underlined.is_underlined() && !underlined.is_italic() && !underlined.is_reverse());
    let reverse = Style::new().reverse();
    assert!(reverse.is_reverse() && !reverse.is_crossed_out() && !reverse.is_bold());
    let crossed = Style::new().crossed_out();
    assert!(crossed.is_crossed_out() && !crossed.is_reset() && !crossed.is_reverse());
    let reset = Style::new().reset();
    assert!(reset.is_reset() && !reset.is_crossed_out() && !reset.is_bold());
}

#[test]
fn attributes_and_colors_keep_each_other() {
    let style = Style::new().with("#89b4fa").bold().on("#1e1e2e").italic();
    assert_eq!(style.fg(), Some("#89b4fa"));
    assert_eq!(style.bg(), Some("#1e1e2e"));
    assert!(style.is_bold());
    assert!(style.is_italic());
    assert!(!style.is_underlined());
}
