//! Validation of G-code files: each line is split into instruction tokens and its
//! leading command is classified as supported, known but unsupported, or invalid.
use vstd::prelude::*;

pub mod commands;
pub mod error;
pub mod parse;
pub mod system;
pub mod validate;

pub use error::{Error, PrintResult};
pub use parse::{divide_into_instructions, parse_line};
pub use system::SystemConfig;
pub use validate::validate;

verus! {

/// Sum of two unsigned integers; the sum must fit in a `u64`.
pub fn add(left: u64, right: u64) -> (r: u64)
    requires
        left + right <= u64::MAX,
    ensures
        r == left + right,
{
    left + right
}

} // verus!
