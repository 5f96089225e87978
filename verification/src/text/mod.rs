//! Text helpers over the characters of strings: decimal numbers, lines,
//! trimming and searching.
pub mod chars;
pub mod lines;
pub mod number;
pub mod search;
