//! The plugin: the user's choices, and the four schemes made from them.
use std::marker::PhantomData;
use std::sync::Arc;
use vstd::prelude::*;

use crate::host::add_colorscheme;
use crate::palette::{palette, Colors, Flavour};
use crate::scheme::ColorScheme;
use crate::style::Style;

verus! {

/// The Catppuccin plugin for an editor with the user interface `U`.
///
/// Plugging it adds four colour schemes to the editor: `catppuccin-latte`,
/// `catppuccin-frappe`, `catppuccin-macchiato` and `catppuccin-mocha`.
pub struct Catppuccin<U, F> {
    pub no_background: bool,
    pub modifications: Arc<F>,
    pub _u: PhantomData<U>,
}

/// The modifications of a plugin that modifies nothing: no style, whatever
/// the colours.
pub fn no_modifications(_colors: Colors) -> (styles: Vec<(String, Style)>)
    ensures
        styles@.len() == 0,
{
    Vec::new()
}

impl<U> Catppuccin<U, ()> {
    /// The plugin as it is before any choice: it sets the background, and
    /// modifies nothing.
    pub fn new() -> (plugin: Catppuccin<U, impl Fn(Colors) -> Vec<(String, Style)>>)
        ensures
            !plugin.no_background,
            forall|colors: Colors| call_requires(*plugin.modifications, (colors,)),
            forall|colors: Colors, styles: Vec<(String, Style)>|
                call_ensures(*plugin.modifications, (colors,), styles) ==> styles@.len() == 0,
    {
        Catppuccin {
            no_background: false,
            modifications: Arc::new(no_modifications),
            _u: PhantomData,
        }
    }
}

impl<U, F: Fn(Colors) -> Vec<(String, Style)>> Catppuccin<U, F> {
    /// Leaves the background colour alone, which allows for a transparent
    /// terminal.
    pub fn no_background(self) -> (plugin: Self)
        ensures
            plugin.no_background,
            plugin.modifications == self.modifications,
    {
        Catppuccin { no_background: true, ..self }
    }

    /// Sets the modifications: a function from the colours of a flavour to the
    /// styles that are registered on top of the scheme's own. To have red
    /// delimiters, for one:
    ///
    /// ```text
    /// plugin.modify(|colors| {
    ///     vec![("punctuation.delimiter".to_string(), Style::new().with(colors.red))]
    /// })
    /// ```
    pub fn modify<G>(self, modifications: G) -> (plugin: Catppuccin<U, G>) where
        G: Fn(Colors) -> Vec<(String, Style)> + Send + Sync + 'static,

        ensures
            plugin.no_background == self.no_background,
            *plugin.modifications == modifications,
    {
        Catppuccin {
            no_background: self.no_background,
            modifications: Arc::new(modifications),
            _u: PhantomData,
        }
    }

    /// The scheme of `flavour` under this plugin's choices. The four schemes
    /// share the modifications.
    pub fn scheme(&self, flavour: Flavour) -> (scheme: ColorScheme<F>)
        ensures
            scheme == (ColorScheme {
                flavour,
                no_background: self.no_background,
                modifications: self.modifications,
            }),
    {
        let modifications = self.modifications.clone();
        let scheme = match flavour {
            Flavour::Latte => ColorScheme::latte(modifications),
            Flavour::Frappe => ColorScheme::frappe(modifications),
            Flavour::Macchiato => ColorScheme::macchiato(modifications),
            Flavour::Mocha => ColorScheme::mocha(modifications),
        };
        scheme.no_bg(self.no_background)
    }

    /// Adds the four schemes to the editor: Latte, Frappe, Macchiato and
    /// Mocha, each with this plugin's choices.
    pub fn plug(self) where F: Send + Sync + 'static
        requires
            forall|flavour: Flavour| call_requires(*self.modifications, (palette(flavour),)),
    {
        add_colorscheme(self.scheme(Flavour::Latte));
        add_colorscheme(self.scheme(Flavour::Frappe));
        add_colorscheme(self.scheme(Flavour::Macchiato));
        add_colorscheme(self.scheme(Flavour::Mocha));
    }
}

} // verus!
