//! A live regular-expression validator: it holds a pattern text, whether that
//! text compiles, and a list of test strings, and reports for each test string
//! whether the current pattern matches it.

pub mod pattern;
pub mod engine;
pub mod presets;
