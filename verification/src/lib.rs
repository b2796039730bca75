//! Front end of a small compiler: an arena-backed syntax tree and the
//! recursive-descent parser that fills it from a token sequence.
use std::sync::Arc;
use vstd::prelude::*;

pub mod ast;
pub mod lexer;
pub mod parser;

verus! {

/// `miette::NamedSource`: a named piece of source text. The library only
/// carries it from the caller into diagnostics and never looks inside.
#[verifier::external_type_specification]
#[verifier::external_body]
pub struct ExNamedSource(miette::NamedSource);

/// The shared, immutable source text of one source unit.
pub type Source = Arc<miette::NamedSource>;

} // verus!
