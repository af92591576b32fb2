//! Styles: what a named form looks like.
//!
//! A [`Style`] holds an optional foreground colour, an optional background colour
//! and six attribute flags. Its colours are always written as `#rrggbb`, so a
//! style can be handed to the editor as it is.
use vstd::prelude::*;

use crate::palette::hex_color;

verus! {

/// The mathematical view of a [`Style`].
pub ghost struct StyleView {
    pub fg: Option<Seq<char>>,
    pub bg: Option<Seq<char>>,
    pub bold: bool,
    pub italic: bool,
    pub underlined: bool,
    pub reverse: bool,
    pub crossed_out: bool,
    pub reset: bool,
}

impl StyleView {
    /// The style that sets no colour and no attribute.
    pub open spec fn new() -> StyleView {
        StyleView {
            fg: None,
            bg: None,
            bold: false,
            italic: false,
            underlined: false,
            reverse: false,
            crossed_out: false,
            reset: false,
        }
    }

    /// This style with the foreground `color`.
    pub open spec fn with(self, color: Seq<char>) -> StyleView {
        StyleView { fg: Some(color), ..self }
    }

    /// This style with the background `color`.
    pub open spec fn on(self, color: Seq<char>) -> StyleView {
        StyleView { bg: Some(color), ..self }
    }

    pub open spec fn bold(self) -> StyleView {
        StyleView { bold: true, ..self }
    }

    pub open spec fn italic(self) -> StyleView {
        StyleView { italic: true, ..self }
    }

    pub open spec fn underlined(self) -> StyleView {
        StyleView { underlined: true, ..self }
    }

    pub open spec fn reverse(self) -> StyleView {
        StyleView { reverse: true, ..self }
    }

    pub open spec fn crossed_out(self) -> StyleView {
        StyleView { crossed_out: true, ..self }
    }

    pub open spec fn reset(self) -> StyleView {
        StyleView { reset: true, ..self }
    }

    /// Each colour that is present is written as `#rrggbb`.
    pub open spec fn well_formed(self) -> bool {
        &&& self.fg matches Some(color) ==> hex_color(color)
        &&& self.bg matches Some(color) ==> hex_color(color)
    }
}

/// The view of a colour that may be absent.
pub open spec fn color_view(color: Option<&'static str>) -> Option<Seq<char>> {
    match color {
        Some(c) => Some(c@),
        None => None,
    }
}

/// A style: colours and attributes for one named form.
///
/// Built from [`Style::new`] by chained calls, as in
/// `Style::new().with("#cba6f7").bold()`.
#[derive(Clone, Copy, Debug, PartialEq, Eq)]
pub struct Style {
    fg: Option<&'static str>,
    bg: Option<&'static str>,
    bold: bool,
    italic: bool,
    underlined: bool,
    reverse: bool,
    crossed_out: bool,
    reset: bool,
}

impl View for Style {
    type V = StyleView;

    closed spec fn view(&self) -> StyleView {
        StyleView {
            fg: color_view(self.fg),
            bg: color_view(self.bg),
            bold: self.bold,
            italic: self.italic,
            underlined: self.underlined,
            reverse: self.reverse,
            crossed_out: self.crossed_out,
            reset: self.reset,
        }
    }
}

impl Style {
    #[verifier::type_invariant]
    pub closed spec fn colors_well_formed(self) -> bool {
        self@.well_formed()
    }

    /// A style that sets nothing.
    pub fn new() -> (style: Style)
        ensures
            style@ == StyleView::new(),
    {
        Style {
            fg: None,
            bg: None,
            bold: false,
            italic: false,
            underlined: false,
            reverse: false,
            crossed_out: false,
            reset: false,
        }
    }

    /// Sets the foreground colour, written as `#rrggbb`.
    pub fn with(self, color: &'static str) -> (style: Style)
        requires
            hex_color(color@),
        ensures
            style@ == self@.with(color@),
    {
        proof {
            use_type_invariant(&self);
        }
        Style { fg: Some(color), ..self }
    }

    /// Sets the background colour, written as `#rrggbb`.
    pub fn on(self, color: &'static str) -> (style: Style)
        requires
            hex_color(color@),
        ensures
            style@ == self@.on(color@),
    {
        proof {
            use_type_invariant(&self);
        }
        Style { bg: Some(color), ..self }
    }

    /// Adds the bold attribute.
    pub fn bold(self) -> (style: Style)
        ensures
            style@ == self@.bold(),
    {
        proof {
            use_type_invariant(&self);
        }
        Style { bold: true, ..self }
    }

    /// Adds the italic attribute.
    pub fn italic(self) -> (style: Style)
        ensures
            style@ == self@.italic(),
    {
        proof {
            use_type_invariant(&self);
        }
        Style { italic: true, ..self }
    }

    /// Adds the underlined attribute.
    pub fn underlined(self) -> (style: Style)
        ensures
            style@ == self@.underlined(),
    {
        proof {
            use_type_invariant(&self);
        }
        Style { underlined: true, ..self }
    }

    /// Adds the reverse-video attribute.
    pub fn reverse(self) -> (style: Style)
        ensures
            style@ == self@.reverse(),
    {
        proof {
            use_type_invariant(&self);
        }
        Style { reverse: true, ..self }
    }

    /// Adds the crossed-out attribute.
    pub fn crossed_out(self) -> (style: Style)
        ensures
            style@ == self@.crossed_out(),
    {
        proof {
            use_type_invariant(&self);
        }
        Style { crossed_out: true, ..self }
    }

    /// Adds the attribute that clears the attributes inherited from the
    /// surrounding text, leaving its colours alone.
    pub fn reset(self) -> (style: Style)
        ensures
            style@ == self@.reset(),
    {
        proof {
            use_type_invariant(&self);
        }
        Style { reset: true, ..self }
    }

    /// The foreground colour, if one is set.
    pub fn fg(&self) -> (color: Option<&'static str>)
        ensures
            color_view(color) == self@.fg,
            color matches Some(c) ==> hex_color(c@),
    {
        proof {
            use_type_invariant(self);
        }
        self.fg
    }

    /// The background colour, if one is set.
    pub fn bg(&self) -> (color: Option<&'static str>)
        ensures
            color_view(color) == self@.bg,
            color matches Some(c) ==> hex_color(c@),
    {
        proof {
            use_type_invariant(self);
        }
        self.bg
    }

    pub fn is_bold(&self) -> (flag: bool)
        ensures
            flag == self@.bold,
    {
        self.bold
    }

    pub fn is_italic(&self) -> (flag: bool)
        ensures
            flag == self@.italic,
    {
        self.italic
    }

    pub fn is_underlined(&self) -> (flag: bool)
        ensures
            flag == self@.underlined,
    {
        self.underlined
    }

    pub fn is_reverse(&self) -> (flag: bool)
        ensures
            flag == self@.reverse,
    {
        self.reverse
    }

    pub fn is_crossed_out(&self) -> (flag: bool)
        ensures
            flag == self@.crossed_out,
    {
        self.crossed_out
    }

    pub fn is_reset(&self) -> (flag: bool)
        ensures
            flag == self@.reset,
    {
        self.reset
    }
}

} // verus!
