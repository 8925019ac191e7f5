//! Small text and arithmetic utilities with machine-checked contracts.
//!
//! The centre of the crate is [`word_count`], a single-pass counter of lines,
//! words and characters over the UTF-8 bytes of a string.
pub mod counter;
pub mod fibonacci;
pub mod functions;
pub mod ownership;

pub use counter::word_count;
pub use fibonacci::fibonacci;
pub use functions::{five, plus_one};
pub use ownership::{
    calculate_length, change, first_word, gives_ownership, no_dangle, takes_and_gives_back,
};
