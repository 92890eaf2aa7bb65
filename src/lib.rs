//! A cursor over an in-memory sequence of characters, with character sets
//! that describe which characters to match.

pub mod csets;
pub mod scanner;

pub use scanner::Scanner;
