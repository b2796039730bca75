//! The result of parsing one source unit.
use vstd::prelude::*;

use crate::ast::component::Component;

verus! {

/// A parsed source unit: the arena that holds all of it.
#[derive(Debug)]
pub struct Module {
    pub component: Component,
}

} // verus!
