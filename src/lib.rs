//! A bit that toggles between two glyphs on key presses and clicks, with a
//! cooldown between activations and a glyph corruption that grows likelier
//! with every click.

pub mod host;
pub mod mutator;
pub mod random;
pub mod text;
pub mod toggle;
