//! Colour schemes: the styles of one flavour, and how they reach a registry.
//!
//! Applying a scheme registers its styles in a fixed order, `"Default"` first,
//! and then whatever the scheme's modifications return for the flavour's
//! colours. Later registrations replace earlier ones of the same name, so a
//! modification always has the last word.
use std::sync::Arc;
use vstd::prelude::*;

use crate::palette::{lookup, palette, Colors, Flavour};
use crate::registry::{
    assignments, distinct_names, find, has_name, index_of, last_assigned, lemma_index_of_unique,
    lemma_last_assigned, lemma_last_assigned_distinct, lemma_upsert_all, lemma_upsert_all_concat,
    lemma_upsert_all_idempotent, lemma_upsert_all_names, names, upsert_all, Entry, Registry,
};
use crate::style::{Style, StyleView};

verus! {

/// The name under which the scheme of `flavour` is offered to the editor.
pub open spec fn scheme_name(flavour: Flavour) -> Seq<char> {
    match flavour {
        Flavour::Latte => "catppuccin-latte"@,
        Flavour::Frappe => "catppuccin-frappe"@,
        Flavour::Macchiato => "catppuccin-macchiato"@,
        Flavour::Mocha => "catppuccin-mocha"@,
    }
}

/// The style of `"Default"`: the text colour, on the base colour unless the
/// background is left alone.
pub open spec fn default_style(c: Colors, no_background: bool) -> StyleView {
    if no_background {
        StyleView::new().with(c.text@)
    } else {
        StyleView::new().with(c.text@).on(c.base@)
    }
}

/// The styles of a scheme with the colours `c`, in the order in which they are
/// registered. Only `"Default"` depends on `no_background`: `"Frame"` keeps its
/// background either way.
pub open spec fn base_table(c: Colors, no_background: bool) -> Seq<Entry> {
    seq![
        ("Default"@, default_style(c, no_background)),
        // Messages, cursors and selections.
        ("DefaultOk"@, StyleView::new().with(c.sapphire@)),
        ("AccentOk"@, StyleView::new().with(c.sky@).bold()),
        ("DefaultErr"@, StyleView::new().with(c.maroon@)),
        ("AccentErr"@, StyleView::new().with(c.red@).bold()),
        ("DefaultHint"@, StyleView::new().with(c.text@)),
        ("AccentHint"@, StyleView::new().with(c.subtext0@).bold()),
        ("MainCursor"@, StyleView::new().reverse()),
        ("ExtraCursor"@, StyleView::new().reverse()),
        ("MainSelection"@, StyleView::new().with(c.base@).on(c.overlay1@)),
        ("ExtraSelection"@, StyleView::new().with(c.base@).on(c.overlay0@)),
        ("Inactive"@, StyleView::new().with(c.overlay2@)),
        // Line numbers and the status line.
        ("LineNum"@, StyleView::new().with(c.overlay2@)),
        ("MainLineNum"@, StyleView::new().with(c.yellow@)),
        ("WrappedLineNum"@, StyleView::new().with(c.teal@)),
        ("File"@, StyleView::new().with(c.yellow@)),
        ("Selections"@, StyleView::new().with(c.blue@)),
        ("Coord"@, StyleView::new().with(c.peach@)),
        ("Separator"@, StyleView::new().with(c.teal@)),
        ("Mode"@, StyleView::new().with(c.green@)),
        // Syntax.
        ("type"@, StyleView::new().with(c.yellow@).italic()),
        ("type.builtin"@, StyleView::new().with(c.yellow@).reset()),
        ("function"@, StyleView::new().with(c.blue@).reset()),
        ("comment"@, StyleView::new().with(c.overlay1@)),
        ("comment.documentation"@, StyleView::new().with(c.overlay1@).bold()),
        ("punctuation.bracket"@, StyleView::new().with(c.subtext0@)),
        ("punctuation.delimiter"@, StyleView::new().with(c.subtext0@)),
        ("constant"@, StyleView::new().with(c.overlay1@)),
        ("constant.builtin"@, StyleView::new().with(c.peach@)),
        ("character"@, StyleView::new().with(c.peach@)),
        ("number"@, StyleView::new().with(c.peach@)),
        ("variable.parameter"@, StyleView::new().italic()),
        ("variable.builtin"@, StyleView::new().with(c.peach@)),
        ("label"@, StyleView::new().with(c.green@)),
        ("keyword"@, StyleView::new().with(c.mauve@)),
        ("string"@, StyleView::new().with(c.green@)),
        ("escape"@, StyleView::new().with(c.peach@)),
        ("attribute"@, StyleView::new().with(c.mauve@)),
        ("operator"@, StyleView::new().with(c.sapphire@)),
        ("constructor"@, StyleView::new().with(c.peach@)),
        ("module"@, StyleView::new().with(c.blue@).italic()),
        // Markup.
        ("markup"@, StyleView::new()),
        ("markup.strong"@, StyleView::new().with(c.maroon@).bold()),
        ("markup.italic"@, StyleView::new().with(c.maroon@).italic()),
        ("markup.strikethrough"@, StyleView::new().crossed_out()),
        ("markup.underline"@, StyleView::new().underlined()),
        ("markup.heading"@, StyleView::new().with(c.blue@).bold()),
        ("markup.math"@, StyleView::new().with(c.yellow@)),
        ("markup.quote"@, StyleView::new().with(c.maroon@).bold()),
        ("markup.environment"@, StyleView::new().with(c.pink@)),
        ("markup.environment.name"@, StyleView::new().with(c.blue@)),
        ("markup.link"@, StyleView::new().with(c.lavender@).underlined()),
        ("markup.raw"@, StyleView::new().with(c.teal@)),
        ("markup.list"@, StyleView::new().with(c.yellow@)),
        ("markup.list.checked"@, StyleView::new().with(c.green@)),
        ("markup.list.unchecked"@, StyleView::new().with(c.overlay1@)),
        // Rules and frames.
        ("VertRule"@, StyleView::new().with(c.subtext0@)),
        ("Frame"@, StyleView::new().with(c.subtext0@).on(c.base@)),
    ]
}

/// Builds the styles of `flavour`, in the order in which they are registered.
pub fn base_forms(flavour: Flavour, no_background: bool) -> (forms: Vec<(String, Style)>)
    ensures
        assignments(forms@) == base_table(palette(flavour), no_background),
{
    let c = lookup(flavour);
    let mut forms: Vec<(String, Style)> = Vec::new();
    if no_background {
        forms.push(("Default".to_owned(), Style::new().with(c.text)));
    } else {
        forms.push(("Default".to_owned(), Style::new().with(c.text).on(c.base)));
    }
    // Messages, cursors and selections.
    forms.push(("DefaultOk".to_owned(), Style::new().with(c.sapphire)));
    forms.push(("AccentOk".to_owned(), Style::new().with(c.sky).bold()));
    forms.push(("DefaultErr".to_owned(), Style::new().with(c.maroon)));
    forms.push(("AccentErr".to_owned(), Style::new().with(c.red).bold()));
    forms.push(("DefaultHint".to_owned(), Style::new().with(c.text)));
    forms.push(("AccentHint".to_owned(), Style::new().with(c.subtext0).bold()));
    forms.push(("MainCursor".to_owned(), Style::new().reverse()));
    forms.push(("ExtraCursor".to_owned(), Style::new().reverse()));
    forms.push(("MainSelection".to_owned(), Style::new().with(c.base).on(c.overlay1)));
    forms.push(("ExtraSelection".to_owned(), Style::new().with(c.base).on(c.overlay0)));
    forms.push(("Inactive".to_owned(), Style::new().with(c.overlay2)));
    // Line numbers and the status line.
    forms.push(("LineNum".to_owned(), Style::new().with(c.overlay2)));
    forms.push(("MainLineNum".to_owned(), Style::new().with(c.yellow)));
    forms.push(("WrappedLineNum".to_owned(), Style::new().with(c.teal)));
    forms.push(("File".to_owned(), Style::new().with(c.yellow)));
    forms.push(("Selections".to_owned(), Style::new().with(c.blue)));
    forms.push(("Coord".to_owned(), Style::new().with(c.peach)));
    forms.push(("Separator".to_owned(), Style::new().with(c.teal)));
    forms.push(("Mode".to_owned(), Style::new().with(c.green)));
    // Syntax.
    forms.push(("type".to_owned(), Style::new().with(c.yellow).italic()));
    forms.push(("type.builtin".to_owned(), Style::new().with(c.yellow).reset()));
    forms.push(("function".to_owned(), Style::new().with(c.blue).reset()));
    forms.push(("comment".to_owned(), Style::new().with(c.overlay1)));
    forms.push(("comment.documentation".to_owned(), Style::new().with(c.overlay1).bold()));
    forms.push(("punctuation.bracket".to_owned(), Style::new().with(c.subtext0)));
    forms.push(("punctuation.delimiter".to_owned(), Style::new().with(c.subtext0)));
    forms.push(("constant".to_owned(), Style::new().with(c.overlay1)));
    forms.push(("constant.builtin".to_owned(), Style::new().with(c.peach)));
    forms.push(("character".to_owned(), Style::new().with(c.peach)));
    forms.push(("number".to_owned(), Style::new().with(c.peach)));
    forms.push(("variable.parameter".to_owned(), Style::new().italic()));
    forms.push(("variable.builtin".to_owned(), Style::new().with(c.peach)));
    forms.push(("label".to_owned(), Style::new().with(c.green)));
    forms.push(("keyword".to_owned(), Style::new().with(c.mauve)));
    forms.push(("string".to_owned(), Style::new().with(c.green)));
    forms.push(("escape".to_owned(), Style::new().with(c.peach)));
    forms.push(("attribute".to_owned(), Style::new().with(c.mauve)));
    forms.push(("operator".to_owned(), Style::new().with(c.sapphire)));
    forms.push(("constructor".to_owned(), Style::new().with(c.peach)));
    forms.push(("module".to_owned(), Style::new().with(c.blue).italic()));
    // Markup.
    forms.push(("markup".to_owned(), Style::new()));
    forms.push(("markup.strong".to_owned(), Style::new().with(c.maroon).bold()));
    forms.push(("markup.italic".to_owned(), Style::new().with(c.maroon).italic()));
    forms.push(("markup.strikethrough".to_owned(), Style::new().crossed_out()));
    forms.push(("markup.underline".to_owned(), Style::new().underlined()));
    forms.push(("markup.heading".to_owned(), Style::new().with(c.blue).bold()));
    forms.push(("markup.math".to_owned(), Style::new().with(c.yellow)));
    forms.push(("markup.quote".to_owned(), Style::new().with(c.maroon).bold()));
    forms.push(("markup.environment".to_owned(), Style::new().with(c.pink)));
    forms.push(("markup.environment.name".to_owned(), Style::new().with(c.blue)));
    forms.push(("markup.link".to_owned(), Style::new().with(c.lavender).underlined()));
    forms.push(("markup.raw".to_owned(), Style::new().with(c.teal)));
    forms.push(("markup.list".to_owned(), Style::new().with(c.yellow)));
    forms.push(("markup.list.checked".to_owned(), Style::new().with(c.green)));
    forms.push(("markup.list.unchecked".to_owned(), Style::new().with(c.overlay1)));
    // Rules and frames.
    forms.push(("VertRule".to_owned(), Style::new().with(c.subtext0)));
    forms.push(("Frame".to_owned(), Style::new().with(c.subtext0).on(c.base)));
    assert(assignments(forms@) =~= base_table(c, no_background));
    forms
}

/// What a registry holds once a scheme has been applied to it: the styles of
/// the flavour are registered first, then `overrides`.
pub open spec fn resolved(
    entries: Seq<Entry>,
    flavour: Flavour,
    no_background: bool,
    overrides: Seq<Entry>,
) -> Seq<Entry> {
    upsert_all(upsert_all(entries, base_table(palette(flavour), no_background)), overrides)
}

/// Registers the styles of `flavour`, `"Default"` first and the others in
/// their fixed order.
pub fn register_base(registry: &mut Registry, flavour: Flavour, no_background: bool)
    ensures
        final(registry)@ == upsert_all(
            old(registry)@,
            base_table(palette(flavour), no_background),
        ),
        distinct_names(final(registry)@),
{
    let forms = base_forms(flavour, no_background);
    registry.set_many(&forms);
}

/// One flavour, ready to be applied: whether it leaves the background alone,
/// and the modifications that its user asked for.
///
/// The modifications are a function from the flavour's colours to the styles
/// that are to be registered on top of the scheme's own.
pub struct ColorScheme<F> {
    pub flavour: Flavour,
    pub no_background: bool,
    pub modifications: Arc<F>,
}

impl<F: Fn(Colors) -> Vec<(String, Style)>> ColorScheme<F> {
    /// The scheme in the Latte flavour.
    pub fn latte(modifications: Arc<F>) -> (scheme: Self)
        ensures
            scheme == (ColorScheme {
                flavour: Flavour::Latte,
                no_background: false,
                modifications,
            }),
    {
        ColorScheme { flavour: Flavour::Latte, no_background: false, modifications }
    }

    /// The scheme in the Frappe flavour.
    pub fn frappe(modifications: Arc<F>) -> (scheme: Self)
        ensures
            scheme == (ColorScheme {
                flavour: Flavour::Frappe,
                no_background: false,
                modifications,
            }),
    {
        ColorScheme { flavour: Flavour::Frappe, no_background: false, modifications }
    }

    /// The scheme in the Macchiato flavour.
    pub fn macchiato(modifications: Arc<F>) -> (scheme: Self)
        ensures
            scheme == (ColorScheme {
                flavour: Flavour::Macchiato,
                no_background: false,
                modifications,
            }),
    {
        ColorScheme { flavour: Flavour::Macchiato, no_background: false, modifications }
    }

    /// The scheme in the Mocha flavour.
    pub fn mocha(modifications: Arc<F>) -> (scheme: Self)
        ensures
            scheme == (ColorScheme {
                flavour: Flavour::Mocha,
                no_background: false,
                modifications,
            }),
    {
        ColorScheme { flavour: Flavour::Mocha, no_background: false, modifications }
    }

    /// Chooses whether the scheme leaves the background colour alone, which
    /// allows for a transparent terminal.
    pub fn no_bg(self, no_background: bool) -> (scheme: Self)
        ensures
            scheme == (ColorScheme { no_background, ..self }),
    {
        ColorScheme { no_background, ..self }
    }

    /// The name under which the editor lists this scheme.
    pub fn name(&self) -> (name: &'static str)
        ensures
            name@ == scheme_name(self.flavour),
    {
        match self.flavour {
            Flavour::Latte => "catppuccin-latte",
            Flavour::Frappe => "catppuccin-frappe",
            Flavour::Macchiato => "catppuccin-macchiato",
            Flavour::Mocha => "catppuccin-mocha",
        }
    }

    /// The modifications can be called with the colours of this scheme's
    /// flavour.
    pub open spec fn accepts_palette(&self) -> bool {
        call_requires(*self.modifications, (palette(self.flavour),))
    }

    /// Applies the scheme to `registry`: registers the styles of the flavour,
    /// then calls the modifications once, with the flavour's colours, and
    /// registers what they return.
    pub fn apply(&self, registry: &mut Registry)
        requires
            self.accepts_palette(),
        ensures
            exists|overrides: Vec<(String, Style)>|
                {
                    &&& #[trigger] call_ensures(
                        *self.modifications,
                        (palette(self.flavour),),
                        overrides,
                    )
                    &&& final(registry)@ == resolved(
                        old(registry)@,
                        self.flavour,
                        self.no_background,
                        assignments(overrides@),
                    )
                },
            distinct_names(final(registry)@),
    {
        register_base(registry, self.flavour, self.no_background);
        let overrides = (self.modifications)(lookup(self.flavour));
        registry.set_many(&overrides);
    }
}

/// The length, the first and the last character of a name: together they tell
/// the style names of a scheme apart.
spec fn fingerprint(name: Seq<char>) -> (nat, char, char) {
    (name.len(), name.first(), name.last())
}

/// Each style name of a scheme occurs once in its table.
pub proof fn lemma_base_names_distinct(c: Colors, no_background: bool)
    ensures
        base_table(c, no_background).len() == 58,
        distinct_names(base_table(c, no_background)),
{
    reveal_strlit("Default");
    assert(fingerprint("Default"@) == (7nat, 'D', 't'));
    reveal_strlit("DefaultOk");
    assert(fingerprint("DefaultOk"@) == (9nat, 'D', 'k'));
    reveal_strlit("AccentOk");
    assert(fingerprint("AccentOk"@) == (8nat, 'A', 'k'));
    reveal_strlit("DefaultErr");
    assert(fingerprint("DefaultErr"@) == (10nat, 'D', 'r'));
    reveal_strlit("AccentErr");
    assert(fingerprint("AccentErr"@) == (9nat, 'A', 'r'));
    reveal_strlit("DefaultHint");
    assert(fingerprint("DefaultHint"@) == (11nat, 'D', 't'));
    reveal_strlit("AccentHint");
    assert(fingerprint("AccentHint"@) == (10nat, 'A', 't'));
    reveal_strlit("MainCursor");
    assert(fingerprint("MainCursor"@) == (10nat, 'M', 'r'));
    reveal_strlit("ExtraCursor");
    assert(fingerprint("ExtraCursor"@) == (11nat, 'E', 'r'));
    reveal_strlit("MainSelection");
    assert(fingerprint("MainSelection"@) == (13nat, 'M', 'n'));
    reveal_strlit("ExtraSelection");
    assert(fingerprint("ExtraSelection"@) == (14nat, 'E', 'n'));
    reveal_strlit("Inactive");
    assert(fingerprint("Inactive"@) == (8nat, 'I', 'e'));
    reveal_strlit("LineNum");
    assert(fingerprint("LineNum"@) == (7nat, 'L', 'm'));
    reveal_strlit("MainLineNum");
    assert(fingerprint("MainLineNum"@) == (11nat, 'M', 'm'));
    reveal_strlit("WrappedLineNum");
    assert(fingerprint("WrappedLineNum"@) == (14nat, 'W', 'm'));
    reveal_strlit("File");
    assert(fingerprint("File"@) == (4nat, 'F', 'e'));
    reveal_strlit("Selections");
    assert(fingerprint("Selections"@) == (10nat, 'S', 's'));
    reveal_strlit("Coord");
    assert(fingerprint("Coord"@) == (5nat, 'C', 'd'));
    reveal_strlit("Separator");
    assert(fingerprint("Separator"@) == (9nat, 'S', 'r'));
    reveal_strlit("Mode");
    assert(fingerprint("Mode"@) == (4nat, 'M', 'e'));
    reveal_strlit("type");
    assert(fingerprint("type"@) == (4nat, 't', 'e'));
    reveal_strlit("type.builtin");
    assert(fingerprint("type.builtin"@) == (12nat, 't', 'n'));
    reveal_strlit("function");
    assert(fingerprint("function"@) == (8nat, 'f', 'n'));
    reveal_strlit("comment");
    assert(fingerprint("comment"@) == (7nat, 'c', 't'));
    reveal_strlit("comment.documentation");
    assert(fingerprint("comment.documentation"@) == (21nat, 'c', 'n'));
    reveal_strlit("punctuation.bracket");
    assert(fingerprint("punctuation.bracket"@) == (19nat, 'p', 't'));
    reveal_strlit("punctuation.delimiter");
    assert(fingerprint("punctuation.delimiter"@) == (21nat, 'p', 'r'));
    reveal_strlit("constant");
    assert(fingerprint("constant"@) == (8nat, 'c', 't'));
    reveal_strlit("constant.builtin");
    assert(fingerprint("constant.builtin"@) == (16nat, 'c', 'n'));
    reveal_strlit("character");
    assert(fingerprint("character"@) == (9nat, 'c', 'r'));
    reveal_strlit("number");
    assert(fingerprint("number"@) == (6nat, 'n', 'r'));
    reveal_strlit("variable.parameter");
    assert(fingerprint("variable.parameter"@) == (18nat, 'v', 'r'));
    reveal_strlit("variable.builtin");
    assert(fingerprint("variable.builtin"@) == (16nat, 'v', 'n'));
    reveal_strlit("label");
    assert(fingerprint("label"@) == (5nat, 'l', 'l'));
    reveal_strlit("keyword");
    assert(fingerprint("keyword"@) == (7nat, 'k', 'd'));
    reveal_strlit("string");
    assert(fingerprint("string"@) == (6nat, 's', 'g'));
    reveal_strlit("escape");
    assert(fingerprint("escape"@) == (6nat, 'e', 'e'));
    reveal_strlit("attribute");
    assert(fingerprint("attribute"@) == (9nat, 'a', 'e'));
    reveal_strlit("operator");
    assert(fingerprint("operator"@) == (8nat, 'o', 'r'));
    reveal_strlit("constructor");
    assert(fingerprint("constructor"@) == (11nat, 'c', 'r'));
    reveal_strlit("module");
    assert(fingerprint("module"@) == (6nat, 'm', 'e'));
    reveal_strlit("markup");
    assert(fingerprint("markup"@) == (6nat, 'm', 'p'));
    reveal_strlit("markup.strong");
    assert(fingerprint("markup.strong"@) == (13nat, 'm', 'g'));
    reveal_strlit("markup.italic");
    assert(fingerprint("markup.italic"@) == (13nat, 'm', 'c'));
    reveal_strlit("markup.strikethrough");
    assert(fingerprint("markup.strikethrough"@) == (20nat, 'm', 'h'));
    reveal_strlit("markup.underline");
    assert(fingerprint("markup.underline"@) == (16nat, 'm', 'e'));
    reveal_strlit("markup.heading");
    assert(fingerprint("markup.heading"@) == (14nat, 'm', 'g'));
    reveal_strlit("markup.math");
    assert(fingerprint("markup.math"@) == (11nat, 'm', 'h'));
    reveal_strlit("markup.quote");
    assert(fingerprint("markup.quote"@) == (12nat, 'm', 'e'));
    reveal_strlit("markup.environment");
    assert(fingerprint("markup.environment"@) == (18nat, 'm', 't'));
    reveal_strlit("markup.environment.name");
    assert(fingerprint("markup.environment.name"@) == (23nat, 'm', 'e'));
    reveal_strlit("markup.link");
    assert(fingerprint("markup.link"@) == (11nat, 'm', 'k'));
    reveal_strlit("markup.raw");
    assert(fingerprint("markup.raw"@) == (10nat, 'm', 'w'));
    reveal_strlit("markup.list");
    assert(fingerprint("markup.list"@) == (11nat, 'm', 't'));
    reveal_strlit("markup.list.checked");
    assert(fingerprint("markup.list.checked"@) == (19nat, 'm', 'd'));
    reveal_strlit("markup.list.unchecked");
    assert(fingerprint("markup.list.unchecked"@) == (21nat, 'm', 'd'));
    reveal_strlit("VertRule");
    assert(fingerprint("VertRule"@) == (8nat, 'V', 'e'));
    reveal_strlit("Frame");
    assert(fingerprint("Frame"@) == (5nat, 'F', 'e'));
}

/// Every colour of `style` is one of the colours `c`.
pub open spec fn colors_from(style: StyleView, c: Colors) -> bool {
    &&& style.fg matches Some(color) ==> c.holds(color)
    &&& style.bg matches Some(color) ==> c.holds(color)
}

/// A scheme uses no colour but those of its palette.
pub proof fn lemma_base_colors_from_palette(c: Colors, no_background: bool)
    ensures
        forall|i: int|
            0 <= i < base_table(c, no_background).len() ==> colors_from(
                (#[trigger] base_table(c, no_background)[i]).1,
                c,
            ),
{
}

/// The style that a scheme gives to `name`, if it has one of that name.
pub open spec fn base_style(flavour: Flavour, no_background: bool, name: Seq<char>) -> Option<
    StyleView,
> {
    find(base_table(palette(flavour), no_background), name)
}

/// The style found under a name once a scheme has been applied: the one that
/// the modifications assign to it last; failing that, the scheme's own;
/// failing that, the one that was registered before.
pub proof fn lemma_resolved(
    entries: Seq<Entry>,
    flavour: Flavour,
    no_background: bool,
    overrides: Seq<Entry>,
    name: Seq<char>,
)
    requires
        distinct_names(entries),
    ensures
        distinct_names(resolved(entries, flavour, no_background, overrides)),
        find(resolved(entries, flavour, no_background, overrides), name) == if has_name(
            overrides,
            name,
        ) {
            last_assigned(overrides, name)
        } else if base_style(flavour, no_background, name) is Some {
            base_style(flavour, no_background, name)
        } else {
            find(entries, name)
        },
{
    let table = base_table(palette(flavour), no_background);
    let based = upsert_all(entries, table);
    let after = upsert_all(based, overrides);
    lemma_base_names_distinct(palette(flavour), no_background);
    lemma_upsert_all(entries, table);
    lemma_upsert_all(based, overrides);
    lemma_last_assigned(overrides, name);
    lemma_last_assigned(table, name);
    assert(find(after, name) == if last_assigned(overrides, name) is Some {
        last_assigned(overrides, name)
    } else {
        find(based, name)
    });
    assert(find(based, name) == if last_assigned(table, name) is Some {
        last_assigned(table, name)
    } else {
        find(entries, name)
    });
    if has_name(table, name) {
        let i = index_of(table, name);
        lemma_last_assigned_distinct(table, i);
        lemma_index_of_unique(table, i);
    }
}

/// A modification wins: whatever style the modifications assign to a name
/// last, `"Default"` included, is the style found under that name afterwards,
/// whatever the scheme itself and the registry held for it.
pub proof fn lemma_override_wins(
    entries: Seq<Entry>,
    flavour: Flavour,
    no_background: bool,
    overrides: Seq<Entry>,
    name: Seq<char>,
    style: StyleView,
)
    requires
        distinct_names(entries),
        last_assigned(overrides, name) == Some(style),
    ensures
        find(resolved(entries, flavour, no_background, overrides), name) == Some(style),
{
    lemma_last_assigned(overrides, name);
    lemma_resolved(entries, flavour, no_background, overrides, name);
}

/// After a scheme has been applied there is one entry called `"Default"`, and
/// no second, since no name stands twice. Unless a modification assigns to
/// that name, its style is the flavour's text colour, and it has a background,
/// the flavour's base colour, exactly when the background is not left alone.
pub proof fn lemma_default_entry(
    entries: Seq<Entry>,
    flavour: Flavour,
    no_background: bool,
    overrides: Seq<Entry>,
)
    requires
        distinct_names(entries),
    ensures
        distinct_names(resolved(entries, flavour, no_background, overrides)),
        has_name(resolved(entries, flavour, no_background, overrides), "Default"@),
        base_style(flavour, no_background, "Default"@) == Some(
            default_style(palette(flavour), no_background),
        ),
        default_style(palette(flavour), no_background).fg == Some(palette(flavour).text@),
        default_style(palette(flavour), no_background).bg == if no_background {
            None
        } else {
            Some(palette(flavour).base@)
        },
        !has_name(overrides, "Default"@) ==> find(
            resolved(entries, flavour, no_background, overrides),
            "Default"@,
        ) == Some(default_style(palette(flavour), no_background)),
{
    let table = base_table(palette(flavour), no_background);
    lemma_base_names_distinct(palette(flavour), no_background);
    assert(table[0] == ("Default"@, default_style(palette(flavour), no_background)));
    lemma_index_of_unique(table, 0);
    lemma_resolved(entries, flavour, no_background, overrides, "Default"@);
    lemma_last_assigned(overrides, "Default"@);
}

/// The style names of a scheme, and their order, are the same in every
/// flavour and with either choice for the background.
pub proof fn lemma_base_names_flavour_invariant(
    a: Colors,
    a_no_background: bool,
    b: Colors,
    b_no_background: bool,
)
    ensures
        names(base_table(a, a_no_background)) == names(base_table(b, b_no_background)),
{
    assert(names(base_table(a, a_no_background)) =~= names(base_table(b, b_no_background)));
}

/// Which names a registry holds after a scheme has been applied does not
/// depend on the flavour: two flavours applied to the same registry, with
/// modifications that assign the same names, leave the same names in the same
/// order. Only styles differ.
pub proof fn lemma_names_flavour_invariant(
    entries: Seq<Entry>,
    a: Flavour,
    a_no_background: bool,
    a_overrides: Seq<Entry>,
    b: Flavour,
    b_no_background: bool,
    b_overrides: Seq<Entry>,
)
    requires
        distinct_names(entries),
        names(a_overrides) == names(b_overrides),
    ensures
        names(resolved(entries, a, a_no_background, a_overrides)) == names(
            resolved(entries, b, b_no_background, b_overrides),
        ),
{
    let ta = base_table(palette(a), a_no_background);
    let tb = base_table(palette(b), b_no_background);
    lemma_base_names_flavour_invariant(palette(a), a_no_background, palette(b), b_no_background);
    lemma_upsert_all_concat(entries, ta, a_overrides);
    lemma_upsert_all_concat(entries, tb, b_overrides);
    assert(names(ta + a_overrides) =~= names(ta) + names(a_overrides));
    assert(names(tb + b_overrides) =~= names(tb) + names(b_overrides));
    lemma_upsert_all_names(entries, ta + a_overrides, tb + b_overrides);
}

/// Applying a scheme a second time, with the same modifications, changes
/// nothing.
pub proof fn lemma_resolved_idempotent(
    entries: Seq<Entry>,
    flavour: Flavour,
    no_background: bool,
    overrides: Seq<Entry>,
)
    requires
        distinct_names(entries),
    ensures
        resolved(
            resolved(entries, flavour, no_background, overrides),
            flavour,
            no_background,
            overrides,
        ) == resolved(entries, flavour, no_background, overrides),
{
    let table = base_table(palette(flavour), no_background);
    let once = resolved(entries, flavour, no_background, overrides);
    lemma_upsert_all_concat(entries, table, overrides);
    lemma_upsert_all_concat(once, table, overrides);
    lemma_upsert_all_idempotent(entries, table + overrides);
}

} // verus!
