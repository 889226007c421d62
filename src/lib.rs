//! Counting of characters, words and lines in text, per source and in total.
//!
//! The counts keep the classic behaviour of this tool: `char_count` counts the
//! characters that are not white space, `word_count` counts the white-space
//! characters, and `line_count` counts the lines as a line reader returns them.
pub mod counts;
pub mod laws;
pub mod report;
pub mod run;
