//! The editor's side: styles as the editor holds them, and its list of colour
//! schemes.
//!
//! What is stated here of the editor's own functions is taken on trust. The
//! editor's style type is opaque, so what one of its functions returns is known
//! by name only: `form_with(form, color)` is what `Form::with` returns for that
//! form and that colour, whatever that is. The conversions built on them are
//! verified: they say which of the editor's functions a [`Style`] goes through,
//! in which order, and a style never hands the editor a colour that it cannot
//! read.
use vstd::prelude::*;

use duat_core::form::Form;

use crate::palette::{hex_color, palette, Colors};
use crate::registry::{assignments, names, Entry, Registry};
use crate::scheme::{resolved, ColorScheme};
use crate::style::{Style, StyleView};

verus! {

/// The editor's own style type, `duat_core::form::Form`. Nothing is stated of
/// what a value of it holds.
#[verifier::external_type_specification]
#[verifier::external_body]
pub struct ExForm(duat_core::form::Form);

/// `duat_core::form::Form::new`, the style that sets nothing. Taken on trust:
/// the call returns. It takes no argument, so its result has no name, and
/// nothing is claimed of the form that comes back.
pub assume_specification[ duat_core::form::Form::new ]() -> (form: Form)
;

/// The form that `Form::with` returns for `form` and the foreground `color`.
pub uninterp spec fn form_with(form: Form, color: Seq<char>) -> Form;

/// `duat_core::form::Form::with`, which sets the foreground colour. It panics
/// on a colour that it cannot read. Taken on trust: a `#` followed by six
/// hexadecimal digits is a colour that it can read, so that the call returns;
/// and what it returns depends on the form and on the colour's text alone.
pub assume_specification[ duat_core::form::Form::with ](form: Form, color: &str) -> (changed: Form)
    requires
        hex_color(color@),
    ensures
        changed == form_with(form, color@),
;

/// The form that `Form::on` returns for `form` and the background `color`.
pub uninterp spec fn form_on(form: Form, color: Seq<char>) -> Form;

/// `duat_core::form::Form::on`, which sets the background colour and reads
/// its argument as `Form::with` does. Taken on trust: the call returns on a `#`
/// followed by six hexadecimal digits; and what it returns depends on the form
/// and on the colour's text alone.
pub assume_specification[ duat_core::form::Form::on ](form: Form, color: &str) -> (changed: Form)
    requires
        hex_color(color@),
    ensures
        changed == form_on(form, color@),
;

/// The form that `Form::bold` returns for `form`.
pub uninterp spec fn form_bold(form: Form) -> Form;

/// `duat_core::form::Form::bold`, which adds the bold attribute. Taken on
/// trust: the call returns, and what it returns depends on the form alone.
pub assume_specification[ duat_core::form::Form::bold ](form: Form) -> (changed: Form)
    ensures
        changed == form_bold(form),
;

/// The form that `Form::italic` returns for `form`.
pub uninterp spec fn form_italic(form: Form) -> Form;

/// `duat_core::form::Form::italic`, which adds the italic attribute. Taken on
/// trust: the call returns, and what it returns depends on the form alone.
pub assume_specification[ duat_core::form::Form::italic ](form: Form) -> (changed: Form)
    ensures
        changed == form_italic(form),
;

/// The form that `Form::underlined` returns for `form`.
pub uninterp spec fn form_underlined(form: Form) -> Form;

/// `duat_core::form::Form::underlined`, which adds the underlined attribute.
/// Taken on trust: the call returns, and what it returns depends on the form
/// alone.
pub assume_specification[ duat_core::form::Form::underlined ](form: Form) -> (changed: Form)
    ensures
        changed == form_underlined(form),
;

/// The form that `Form::reverse` returns for `form`.
pub uninterp spec fn form_reverse(form: Form) -> Form;

/// `duat_core::form::Form::reverse`, which adds the reverse-video attribute.
/// Taken on trust: the call returns, and what it returns depends on the form
/// alone.
pub assume_specification[ duat_core::form::Form::reverse ](form: Form) -> (changed: Form)
    ensures
        changed == form_reverse(form),
;

/// The form that `Form::crossed_out` returns for `form`.
pub uninterp spec fn form_crossed_out(form: Form) -> Form;

/// `duat_core::form::Form::crossed_out`, which adds the crossed-out attribute.
/// Taken on trust: the call returns, and what it returns depends on the form
/// alone.
pub assume_specification[ duat_core::form::Form::crossed_out ](form: Form) -> (changed: Form)
    ensures
        changed == form_crossed_out(form),
;

/// The form that `Form::reset` returns for `form`.
pub uninterp spec fn form_reset(form: Form) -> Form;

/// `duat_core::form::Form::reset`, which adds the reset attribute. Taken on
/// trust: the call returns, and what it returns depends on the form alone.
pub assume_specification[ duat_core::form::Form::reset ](form: Form) -> (changed: Form)
    ensures
        changed == form_reset(form),
;

/// Hands `scheme` to `duat_core::form::add_colorscheme`, under `name`. The
/// editor keeps the scheme; each time a user selects it, the editor asks it for
/// its styles, by [`ColorScheme::pairs`], and registers them in their order.
/// Taken on trust: the call returns. The scheme must accept its palette,
/// because that is what `pairs` asks for whenever the editor calls it.
#[verifier::external_body]
fn host_add_colorscheme<F>(name: &'static str, scheme: ColorScheme<F>) where
    F: Fn(Colors) -> Vec<(String, Style)> + Send + Sync + 'static,

    requires
        scheme.accepts_palette(),
{
    duat_core::form::add_colorscheme(name, move || scheme.pairs());
}

/// `form` with the colours and the attributes of `style` set on it, by the
/// editor's own functions, in a fixed order: foreground, background, bold,
/// italic, underlined, reverse, crossed out, reset. What `style` does not set
/// is left as `form` has it.
pub open spec fn styled(form: Form, style: StyleView) -> Form {
    let form = match style.fg {
        Some(color) => form_with(form, color),
        None => form,
    };
    let form = match style.bg {
        Some(color) => form_on(form, color),
        None => form,
    };
    let form = if style.bold {
        form_bold(form)
    } else {
        form
    };
    let form = if style.italic {
        form_italic(form)
    } else {
        form
    };
    let form = if style.underlined {
        form_underlined(form)
    } else {
        form
    };
    let form = if style.reverse {
        form_reverse(form)
    } else {
        form
    };
    let form = if style.crossed_out {
        form_crossed_out(form)
    } else {
        form
    };
    if style.reset {
        form_reset(form)
    } else {
        form
    }
}

/// `form` is what the editor makes of `style`: one of its forms, with the
/// colours and the attributes of `style` set on it.
pub open spec fn form_of(form: Form, style: StyleView) -> bool {
    exists|start: Form| form == #[trigger] styled(start, style)
}

/// Sets the colours and the attributes of `style` on `form`.
pub fn with_style(form: Form, style: &Style) -> (changed: Form)
    ensures
        changed == styled(form, style@),
{
    let mut form = form;
    if let Some(color) = style.fg() {
        form = form.with(color);
    }
    if let Some(color) = style.bg() {
        form = form.on(color);
    }
    if style.is_bold() {
        form = form.bold();
    }
    if style.is_italic() {
        form = form.italic();
    }
    if style.is_underlined() {
        form = form.underlined();
    }
    if style.is_reverse() {
        form = form.reverse();
    }
    if style.is_crossed_out() {
        form = form.crossed_out();
    }
    if style.is_reset() {
        form = form.reset();
    }
    form
}

/// The style as the editor holds it: the form that `Form::new` returns, with
/// the colours and the attributes of `style` set on it.
pub fn to_form(style: &Style) -> (form: Form)
    ensures
        form_of(form, style@),
{
    let start = Form::new();
    let form = with_style(start, style);
    assert(form == styled(start, style@));
    form
}

/// The names of a list of the editor's styles, in order.
pub open spec fn pair_names(pairs: Seq<(String, Form)>) -> Seq<Seq<char>> {
    Seq::new(pairs.len(), |i: int| pairs[i].0@)
}

/// Each form of `pairs` is what the editor makes of the style at the same
/// place in `entries`.
pub open spec fn forms_of(pairs: Seq<(String, Form)>, entries: Seq<Entry>) -> bool {
    &&& pairs.len() == entries.len()
    &&& forall|i: int| 0 <= i < pairs.len() ==> form_of((#[trigger] pairs[i]).1, entries[i].1)
}

/// What a registry holds, as the editor takes it: each name with its style,
/// in the registry's order.
pub fn to_pairs(registry: &Registry) -> (pairs: Vec<(String, Form)>)
    ensures
        pair_names(pairs@) == names(registry@),
        forms_of(pairs@, registry@),
{
    let entries = registry.entries();
    let mut pairs: Vec<(String, Form)> = Vec::new();
    let mut i: usize = 0;
    while i < entries.len()
        invariant
            0 <= i <= entries.len(),
            assignments(entries@) == registry@,
            pairs@.len() == i,
            forall|j: int| 0 <= j < i ==> (#[trigger] pairs@[j]).0@ == registry@[j].0,
            forall|j: int| 0 <= j < i ==> form_of((#[trigger] pairs@[j]).1, registry@[j].1),
        decreases entries.len() - i,
    {
        assert(registry@[i as int] == (entries@[i as int].0@, entries@[i as int].1@));
        pairs.push((entries[i].0.clone(), to_form(&entries[i].1)));
        i += 1;
    }
    assert(pair_names(pairs@) =~= names(registry@));
    pairs
}

impl<F: Fn(Colors) -> Vec<(String, Style)>> ColorScheme<F> {
    /// The styles that this scheme registers, as the editor takes them: the
    /// scheme applied to an empty registry.
    pub fn pairs(&self) -> (pairs: Vec<(String, Form)>)
        requires
            self.accepts_palette(),
        ensures
            exists|overrides: Vec<(String, Style)>|
                {
                    &&& #[trigger] call_ensures(
                        *self.modifications,
                        (palette(self.flavour),),
                        overrides,
                    )
                    &&& pair_names(pairs@) == names(
                        resolved(
                            Seq::<Entry>::empty(),
                            self.flavour,
                            self.no_background,
                            assignments(overrides@),
                        ),
                    )
                    &&& forms_of(
                        pairs@,
                        resolved(
                            Seq::<Entry>::empty(),
                            self.flavour,
                            self.no_background,
                            assignments(overrides@),
                        ),
                    )
                },
    {
        let mut registry = Registry::new();
        self.apply(&mut registry);
        to_pairs(&registry)
    }
}

/// Adds `scheme` to the editor's colour schemes, under the scheme's name.
pub fn add_colorscheme<F>(scheme: ColorScheme<F>) where
    F: Fn(Colors) -> Vec<(String, Style)> + Send + Sync + 'static,

    requires
        scheme.accepts_palette(),
{
    let name = scheme.name();
    host_add_colorscheme(name, scheme);
}

} // verus!
