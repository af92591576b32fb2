//! The palette catalogue: twenty-six named colours for each of the four flavours.
//!
//! Every colour is written as `#rrggbb`. [`palette`] is the catalogue as a
//! mathematical table, [`lookup`] is the executable function that returns it, and
//! [`lemma_palette_well_formed`] shows that every slot of every flavour is a
//! well-formed colour.
use vstd::prelude::*;
use vstd::string::StrSliceExecFns;

verus! {

/// Whether `c` is one of the digits `0-9`, `a-f` or `A-F`.
pub open spec fn hex_digit(c: char) -> bool {
    ||| '0' <= c <= '9'
    ||| 'a' <= c <= 'f'
    ||| 'A' <= c <= 'F'
}

/// Whether `s` is a colour written as `#` followed by exactly six hexadecimal digits.
pub open spec fn hex_color(s: Seq<char>) -> bool {
    &&& s.len() == 7
    &&& s[0] == '#'
    &&& forall|i: int| 1 <= i < 7 ==> hex_digit(#[trigger] s[i])
}

/// Tells whether one character is a hexadecimal digit.
pub fn is_hex_digit(c: char) -> (ok: bool)
    ensures
        ok == hex_digit(c),
{
    ('0' <= c && c <= '9') || ('a' <= c && c <= 'f') || ('A' <= c && c <= 'F')
}

/// Tells whether `color` is written as `#rrggbb`.
pub fn is_hex_color(color: &str) -> (ok: bool)
    ensures
        ok == hex_color(color@),
{
    if color.unicode_len() != 7 {
        return false;
    }
    if color.get_char(0) != '#' {
        return false;
    }
    let mut i: usize = 1;
    while i < 7
        invariant
            1 <= i <= 7,
            color@.len() == 7,
            color@[0] == '#',
            forall|j: int| 1 <= j < i ==> hex_digit(#[trigger] color@[j]),
        decreases 7 - i,
    {
        if !is_hex_digit(color.get_char(i)) {
            return false;
        }
        i += 1;
    }
    true
}

/// The colours of one flavour, each written as `#rrggbb`.
#[derive(Clone, Copy, Debug, PartialEq, Eq)]
pub struct Colors {
    pub rosewater: &'static str,
    pub flamingo: &'static str,
    pub pink: &'static str,
    pub mauve: &'static str,
    pub red: &'static str,
    pub maroon: &'static str,
    pub peach: &'static str,
    pub yellow: &'static str,
    pub green: &'static str,
    pub teal: &'static str,
    pub sky: &'static str,
    pub sapphire: &'static str,
    pub blue: &'static str,
    pub lavender: &'static str,
    pub text: &'static str,
    pub subtext1: &'static str,
    pub subtext0: &'static str,
    pub overlay2: &'static str,
    pub overlay1: &'static str,
    pub overlay0: &'static str,
    pub surface2: &'static str,
    pub surface1: &'static str,
    pub surface0: &'static str,
    pub base: &'static str,
    pub mantle: &'static str,
    pub crust: &'static str,
}

impl Colors {
    /// Every one of the twenty-six slots holds a colour written as `#rrggbb`.
    pub open spec fn well_formed(self) -> bool {
        &&& hex_color(self.rosewater@)
        &&& hex_color(self.flamingo@)
        &&& hex_color(self.pink@)
        &&& hex_color(self.mauve@)
        &&& hex_color(self.red@)
        &&& hex_color(self.maroon@)
        &&& hex_color(self.peach@)
        &&& hex_color(self.yellow@)
        &&& hex_color(self.green@)
        &&& hex_color(self.teal@)
        &&& hex_color(self.sky@)
        &&& hex_color(self.sapphire@)
        &&& hex_color(self.blue@)
        &&& hex_color(self.lavender@)
        &&& hex_color(self.text@)
        &&& hex_color(self.subtext1@)
        &&& hex_color(self.subtext0@)
        &&& hex_color(self.overlay2@)
        &&& hex_color(self.overlay1@)
        &&& hex_color(self.overlay0@)
        &&& hex_color(self.surface2@)
        &&& hex_color(self.surface1@)
        &&& hex_color(self.surface0@)
        &&& hex_color(self.base@)
        &&& hex_color(self.mantle@)
        &&& hex_color(self.crust@)
    }

    /// `color` is the colour of one of the twenty-six slots.
    pub open spec fn holds(self, color: Seq<char>) -> bool {
        ||| color == self.rosewater@
        ||| color == self.flamingo@
        ||| color == self.pink@
        ||| color == self.mauve@
        ||| color == self.red@
        ||| color == self.maroon@
        ||| color == self.peach@
        ||| color == self.yellow@
        ||| color == self.green@
        ||| color == self.teal@
        ||| color == self.sky@
        ||| color == self.sapphire@
        ||| color == self.blue@
        ||| color == self.lavender@
        ||| color == self.text@
        ||| color == self.subtext1@
        ||| color == self.subtext0@
        ||| color == self.overlay2@
        ||| color == self.overlay1@
        ||| color == self.overlay0@
        ||| color == self.surface2@
        ||| color == self.surface1@
        ||| color == self.surface0@
        ||| color == self.base@
        ||| color == self.mantle@
        ||| color == self.crust@
    }
}

/// One of the four palette variants.
#[derive(Clone, Copy, Debug, PartialEq, Eq, Structural)]
pub enum Flavour {
    Latte,
    Frappe,
    Macchiato,
    Mocha,
}

impl Default for Flavour {
    /// Mocha is the flavour chosen when none is named.
    fn default() -> (flavour: Flavour)
        ensures
            flavour == Flavour::Mocha,
    {
        Flavour::Mocha
    }
}

/// The colours of Latte, the light flavour.
pub open spec fn latte() -> Colors {
    Colors {
        rosewater: "#dc8a78",
        flamingo: "#dd7878",
        pink: "#ea76cb",
        mauve: "#8839ef",
        red: "#d20f39",
        maroon: "#e64553",
        peach: "#fe640b",
        yellow: "#df8e1d",
        green: "#40a02b",
        teal: "#179299",
        sky: "#04a5e5",
        sapphire: "#209fb5",
        blue: "#1e66f5",
        lavender: "#7287fd",
        text: "#4c4f69",
        subtext1: "#5c5f77",
        subtext0: "#6c6f85",
        overlay2: "#7c7f93",
        overlay1: "#8c8fa1",
        overlay0: "#9ca0b0",
        surface2: "#acb0be",
        surface1: "#bcc0cc",
        surface0: "#ccd0da",
        base: "#eff1f5",
        mantle: "#e6e9ef",
        crust: "#dce0e8",
    }
}

/// The colours of Frappe, the lightest of the dark flavours.
pub open spec fn frappe() -> Colors {
    Colors {
        rosewater: "#f2d5cf",
        flamingo: "#eebebe",
        pink: "#f4b8e4",
        mauve: "#ca9ee6",
        red: "#e78284",
        maroon: "#ea999c",
        peach: "#ef9f76",
        yellow: "#e5c890",
        green: "#a6d189",
        teal: "#81c8be",
        sky: "#99d1db",
        sapphire: "#85c1dc",
        blue: "#8caaee",
        lavender: "#babbf1",
        text: "#c6d0f5",
        subtext1: "#b5bfe2",
        subtext0: "#a5adce",
        overlay2: "#949cbb",
        overlay1: "#838ba7",
        overlay0: "#737994",
        surface2: "#626880",
        surface1: "#51576d",
        surface0: "#414559",
        base: "#303446",
        mantle: "#292c3c",
        crust: "#232634",
    }
}

/// The colours of Macchiato, the medium dark flavour.
pub open spec fn macchiato() -> Colors {
    Colors {
        rosewater: "#f4dbd6",
        flamingo: "#f0c6c6",
        pink: "#f5bde6",
        mauve: "#c6a0f6",
        red: "#ed8796",
        maroon: "#ee99a0",
        peach: "#f5a97f",
        yellow: "#eed49f",
        green: "#a6da95",
        teal: "#8bd5ca",
        sky: "#91d7e3",
        sapphire: "#7dc4e4",
        blue: "#8aadf4",
        lavender: "#b7bdf8",
        text: "#cad3f5",
        subtext1: "#b8c0e0",
        subtext0: "#a5adcb",
        overlay2: "#939ab7",
        overlay1: "#8087a2",
        overlay0: "#6e738d",
        surface2: "#5b6078",
        surface1: "#494d64",
        surface0: "#363a4f",
        base: "#24273a",
        mantle: "#1e2030",
        crust: "#181926",
    }
}

/// The colours of Mocha, the darkest flavour.
pub open spec fn mocha() -> Colors {
    Colors {
        rosewater: "#f5e0dc",
        flamingo: "#f2cdcd",
        pink: "#f5c2e7",
        mauve: "#cba6f7",
        red: "#f38ba8",
        maroon: "#eba0ac",
        peach: "#fab387",
        yellow: "#f9e2af",
        green: "#a6e3a1",
        teal: "#94e2d5",
        sky: "#89dceb",
        sapphire: "#74c7ec",
        blue: "#89b4fa",
        lavender: "#b4befe",
        text: "#cdd6f4",
        subtext1: "#bac2de",
        subtext0: "#a6adc8",
        overlay2: "#9399b2",
        overlay1: "#7f849c",
        overlay0: "#6c7086",
        surface2: "#585b70",
        surface1: "#45475a",
        surface0: "#313244",
        base: "#1e1e2e",
        mantle: "#181825",
        crust: "#11111b",
    }
}

/// The catalogue: the colours that belong to `flavour`.
pub open spec fn palette(flavour: Flavour) -> Colors {
    match flavour {
        Flavour::Latte => latte(),
        Flavour::Frappe => frappe(),
        Flavour::Macchiato => macchiato(),
        Flavour::Mocha => mocha(),
    }
}

proof fn lemma_latte_well_formed()
    ensures
        latte().well_formed(),
{
    reveal_strlit("#dc8a78");
    reveal_strlit("#dd7878");
    reveal_strlit("#ea76cb");
    reveal_strlit("#8839ef");
    reveal_strlit("#d20f39");
    reveal_strlit("#e64553");
    reveal_strlit("#fe640b");
    reveal_strlit("#df8e1d");
    reveal_strlit("#40a02b");
    reveal_strlit("#179299");
    reveal_strlit("#04a5e5");
    reveal_strlit("#209fb5");
    reveal_strlit("#1e66f5");
    reveal_strlit("#7287fd");
    reveal_strlit("#4c4f69");
    reveal_strlit("#5c5f77");
    reveal_strlit("#6c6f85");
    reveal_strlit("#7c7f93");
    reveal_strlit("#8c8fa1");
    reveal_strlit("#9ca0b0");
    reveal_strlit("#acb0be");
    reveal_strlit("#bcc0cc");
    reveal_strlit("#ccd0da");
    reveal_strlit("#eff1f5");
    reveal_strlit("#e6e9ef");
    reveal_strlit("#dce0e8");
}

proof fn lemma_frappe_well_formed()
    ensures
        frappe().well_formed(),
{
    reveal_strlit("#f2d5cf");
    reveal_strlit("#eebebe");
    reveal_strlit("#f4b8e4");
    reveal_strlit("#ca9ee6");
    reveal_strlit("#e78284");
    reveal_strlit("#ea999c");
    reveal_strlit("#ef9f76");
    reveal_strlit("#e5c890");
    reveal_strlit("#a6d189");
    reveal_strlit("#81c8be");
    reveal_strlit("#99d1db");
    reveal_strlit("#85c1dc");
    reveal_strlit("#8caaee");
    reveal_strlit("#babbf1");
    reveal_strlit("#c6d0f5");
    reveal_strlit("#b5bfe2");
    reveal_strlit("#a5adce");
    reveal_strlit("#949cbb");
    reveal_strlit("#838ba7");
    reveal_strlit("#737994");
    reveal_strlit("#626880");
    reveal_strlit("#51576d");
    reveal_strlit("#414559");
    reveal_strlit("#303446");
    reveal_strlit("#292c3c");
    reveal_strlit("#232634");
}

proof fn lemma_macchiato_well_formed()
    ensures
        macchiato().well_formed(),
{
    reveal_strlit("#f4dbd6");
    reveal_strlit("#f0c6c6");
    reveal_strlit("#f5bde6");
    reveal_strlit("#c6a0f6");
    reveal_strlit("#ed8796");
    reveal_strlit("#ee99a0");
    reveal_strlit("#f5a97f");
    reveal_strlit("#eed49f");
    reveal_strlit("#a6da95");
    reveal_strlit("#8bd5ca");
    reveal_strlit("#91d7e3");
    reveal_strlit("#7dc4e4");
    reveal_strlit("#8aadf4");
    reveal_strlit("#b7bdf8");
    reveal_strlit("#cad3f5");
    reveal_strlit("#b8c0e0");
    reveal_strlit("#a5adcb");
    reveal_strlit("#939ab7");
    reveal_strlit("#8087a2");
    reveal_strlit("#6e738d");
    reveal_strlit("#5b6078");
    reveal_strlit("#494d64");
    reveal_strlit("#363a4f");
    reveal_strlit("#24273a");
    reveal_strlit("#1e2030");
    reveal_strlit("#181926");
}

proof fn lemma_mocha_well_formed()
    ensures
        mocha().well_formed(),
{
    reveal_strlit("#f5e0dc");
    reveal_strlit("#f2cdcd");
    reveal_strlit("#f5c2e7");
    reveal_strlit("#cba6f7");
    reveal_strlit("#f38ba8");
    reveal_strlit("#eba0ac");
    reveal_strlit("#fab387");
    reveal_strlit("#f9e2af");
    reveal_strlit("#a6e3a1");
    reveal_strlit("#94e2d5");
    reveal_strlit("#89dceb");
    reveal_strlit("#74c7ec");
    reveal_strlit("#89b4fa");
    reveal_strlit("#b4befe");
    reveal_strlit("#cdd6f4");
    reveal_strlit("#bac2de");
    reveal_strlit("#a6adc8");
    reveal_strlit("#9399b2");
    reveal_strlit("#7f849c");
    reveal_strlit("#6c7086");
    reveal_strlit("#585b70");
    reveal_strlit("#45475a");
    reveal_strlit("#313244");
    reveal_strlit("#1e1e2e");
    reveal_strlit("#181825");
    reveal_strlit("#11111b");
}

/// Every slot of every flavour is a well-formed colour: a `#` followed by six
/// hexadecimal digits.
pub proof fn lemma_palette_well_formed(flavour: Flavour)
    ensures
        palette(flavour).well_formed(),
{
    match flavour {
        Flavour::Latte => lemma_latte_well_formed(),
        Flavour::Frappe => lemma_frappe_well_formed(),
        Flavour::Macchiato => lemma_macchiato_well_formed(),
        Flavour::Mocha => lemma_mocha_well_formed(),
    }
}

/// Returns the colours of `flavour`. Total: every flavour has a palette.
pub fn lookup(flavour: Flavour) -> (colors: Colors)
    ensures
        colors == palette(flavour),
        colors.well_formed(),
{
    proof {
        lemma_palette_well_formed(flavour);
    }
    match flavour {
        Flavour::Latte => Colors {
            rosewater: "#dc8a78",
            flamingo: "#dd7878",
            pink: "#ea76cb",
            mauve: "#8839ef",
            red: "#d20f39",
            maroon: "#e64553",
            peach: "#fe640b",
            yellow: "#df8e1d",
            green: "#40a02b",
            teal: "#179299",
            sky: "#04a5e5",
            sapphire: "#209fb5",
            blue: "#1e66f5",
            lavender: "#7287fd",
            text: "#4c4f69",
            subtext1: "#5c5f77",
            subtext0: "#6c6f85",
            overlay2: "#7c7f93",
            overlay1: "#8c8fa1",
            overlay0: "#9ca0b0",
            surface2: "#acb0be",
            surface1: "#bcc0cc",
            surface0: "#ccd0da",
            base: "#eff1f5",
            mantle: "#e6e9ef",
            crust: "#dce0e8",
        },
        Flavour::Frappe => Colors {
            rosewater: "#f2d5cf",
            flamingo: "#eebebe",
            pink: "#f4b8e4",
            mauve: "#ca9ee6",
            red: "#e78284",
            maroon: "#ea999c",
            peach: "#ef9f76",
            yellow: "#e5c890",
            green: "#a6d189",
            teal: "#81c8be",
            sky: "#99d1db",
            sapphire: "#85c1dc",
            blue: "#8caaee",
            lavender: "#babbf1",
            text: "#c6d0f5",
            subtext1: "#b5bfe2",
            subtext0: "#a5adce",
            overlay2: "#949cbb",
            overlay1: "#838ba7",
            overlay0: "#737994",
            surface2: "#626880",
            surface1: "#51576d",
            surface0: "#414559",
            base: "#303446",
            mantle: "#292c3c",
            crust: "#232634",
        },
        Flavour::Macchiato => Colors {
            rosewater: "#f4dbd6",
            flamingo: "#f0c6c6",
            pink: "#f5bde6",
            mauve: "#c6a0f6",
            red: "#ed8796",
            maroon: "#ee99a0",
            peach: "#f5a97f",
            yellow: "#eed49f",
            green: "#a6da95",
            teal: "#8bd5ca",
            sky: "#91d7e3",
            sapphire: "#7dc4e4",
            blue: "#8aadf4",
            lavender: "#b7bdf8",
            text: "#cad3f5",
            subtext1: "#b8c0e0",
            subtext0: "#a5adcb",
            overlay2: "#939ab7",
            overlay1: "#8087a2",
            overlay0: "#6e738d",
            surface2: "#5b6078",
            surface1: "#494d64",
            surface0: "#363a4f",
            base: "#24273a",
            mantle: "#1e2030",
            crust: "#181926",
        },
        Flavour::Mocha => Colors {
            rosewater: "#f5e0dc",
            flamingo: "#f2cdcd",
            pink: "#f5c2e7",
            mauve: "#cba6f7",
            red: "#f38ba8",
            maroon: "#eba0ac",
            peach: "#fab387",
            yellow: "#f9e2af",
            green: "#a6e3a1",
            teal: "#94e2d5",
            sky: "#89dceb",
            sapphire: "#74c7ec",
            blue: "#89b4fa",
            lavender: "#b4befe",
            text: "#cdd6f4",
            subtext1: "#bac2de",
            subtext0: "#a6adc8",
            overlay2: "#9399b2",
            overlay1: "#7f849c",
            overlay0: "#6c7086",
            surface2: "#585b70",
            surface1: "#45475a",
            surface0: "#313244",
            base: "#1e1e2e",
            mantle: "#181825",
            crust: "#11111b",
        },
    }
}

} // verus!
