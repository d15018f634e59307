//! Generator for synthetic delimited-text rows of the form `<city>;<value>`.
//!
//! A bounded pool of unique, ASCII-alphanumeric city names is built by
//! rejection sampling, and each emitted row pairs one city (sampled with
//! replacement) with a decimal value in [-99.9, 99.9] carrying exactly one
//! fractional digit.

pub mod city;
pub mod emit;
pub mod rng;
pub mod row;
pub mod value;

use vstd::prelude::*;

verus! {

/// The two failures the generator itself can produce. Invalid command-line
/// input and write failures are diagnosed by the caller.
#[derive(Debug, Clone, Copy, PartialEq, Eq, Structural)]
pub enum GenError {
    /// The city pool is empty, so no row can be sampled.
    EmptyPool,
    /// One pool slot rejected the maximum number of candidates in a row.
    PoolExhausted,
}

} // verus!
