use vstd::prelude::*;

pub mod ansi_codes;
pub mod codegen;
pub mod commands;
pub mod decompress;
pub mod hash;
pub mod inspect;
pub mod inspector;
pub mod json;
pub mod primitive;
pub mod query;
pub mod stats;
pub mod symtab;
pub mod text;
pub mod validation;

verus! {

/// Adds two numbers.
pub fn add(left: usize, right: usize) -> (sum: usize)
    requires
        left + right <= usize::MAX,
    ensures
        sum == left + right,
{
    left + right
}

} // verus!
