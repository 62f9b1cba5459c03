//! Compiles a block of metric declarations into accessor and description functions.
//!
//! The input is a token stream (see [`tokens`]); the output is source text that records
//! each declared metric through the `metrics` crate's macros.
pub mod ast;
pub mod attrs;
pub mod emit;
pub mod laws;
pub mod literal;
pub mod parse;
pub mod tokens;

use vstd::prelude::*;
use crate::ast::ParseError;
use crate::emit::{expand_from_parsed, module_text};
use crate::parse::{parse_block, parse_module};
use crate::tokens::Tok;

verus! {

/// Compiles the tokens of one block into the generated source text, or returns the first
/// error found.
pub fn expand(ts: &Vec<Tok>) -> (r: Result<String, ParseError>)
    ensures
        match parse_module(ts@) {
            Ok(m) => r matches Ok(s) && s@ == module_text(m),
            Err(e) => r matches Err(x) && x@ == e,
        },
{
    match parse_block(ts) {
        Ok(m) => Ok(expand_from_parsed(&m)),
        Err(e) => Err(e),
    }
}

} // verus!
