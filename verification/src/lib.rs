//! Chainable append helpers for `String`.
//!
//! Each helper appends to the end of a mutable string buffer and hands the
//! same buffer back, so calls can be chained left to right in one expression.
//! The buffer is append-only: no helper ever alters the content that was
//! already there.

mod debug_text;
mod writer;

pub use debug_text::DebugText;
pub use debug_text::char_repr;
pub use debug_text::decimal_digits;
pub use debug_text::digit_char;
pub use debug_text::escaped_char;
pub use debug_text::int_repr;
pub use debug_text::tuple_sep;
pub use writer::WriteDebugStringExt;
pub use writer::WriteLnDebugStringExt;
pub use writer::WriteLnStringExt;
pub use writer::WriteStringExt;
pub use writer::concat_all;
pub use writer::lemma_chain_associative;
pub use writer::lemma_write_write;
pub use writer::lemma_writeln_writeln;
pub use writer::newline;
pub use writer::write_all;
pub use writer::write_effect;
pub use writer::writeln_effect;
