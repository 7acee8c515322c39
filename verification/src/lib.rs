//! Terminal convenience layer: colored strings, logical key decoding, and a
//! verified session model over a curses-style terminal backend.

pub mod color;
mod curses;
pub mod key;
pub mod terminal;

pub use key::Key;
pub use key::RawInput;
pub use color::Color;
pub use color::ColorString;
pub use color::Colorize;
pub use terminal::Terminal;
