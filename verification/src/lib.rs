//! Catppuccin colour schemes for the Duat text editor.
//!
//! Four flavours (Latte, Frappe, Macchiato and Mocha), each a palette of
//! twenty-six colours mapped onto the editor's named styles.
//!
//! - [`palette`] holds the colours of each flavour.
//! - [`style`] describes what a named style looks like.
//! - [`registry`] holds named styles, each name once, the last one set winning.
//! - [`scheme`] maps a palette onto the style names and applies it to a
//!   registry, followed by the user's modifications.
//! - [`plugin`] gathers the user's choices and makes the four schemes.
//! - [`host`] hands styles and schemes to the editor.
pub mod host;
pub mod palette;
pub mod plugin;
pub mod registry;
pub mod scheme;
pub mod style;

pub use crate::palette::{Colors, Flavour};
pub use crate::plugin::Catppuccin;
pub use crate::registry::Registry;
pub use crate::scheme::ColorScheme;
pub use crate::style::Style;
