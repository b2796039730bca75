//! Statements and their handle.
use cranelift_entity::EntityRef;
use std::cmp::Ordering;
use vstd::prelude::*;
use vstd::std_specs::cmp::{PartialOrdSpec, PartialOrdSpecImpl};

use crate::ast::expressions::ExpressionId;
use crate::ast::types::{NameId, TypeId};

verus! {

/// Handle of one entry of the statement table of one arena. Handles are issued
/// in increasing order, starting at zero, and mean nothing in another arena.
#[derive(Copy, Clone, PartialEq, Eq, Structural, Hash, Ord, Debug)]
pub struct StatementId(u32);

impl PartialOrd for StatementId {
    /// Handles are ordered as their positions are.
    fn partial_cmp(&self, other: &Self) -> (order: Option<Ordering>) {
        if self.0 < other.0 {
            Some(Ordering::Less)
        } else if self.0 > other.0 {
            Some(Ordering::Greater)
        } else {
            Some(Ordering::Equal)
        }
    }
}

impl PartialOrdSpecImpl for StatementId {
    open spec fn obeys_partial_cmp_spec() -> bool {
        true
    }

    open spec fn partial_cmp_spec(&self, other: &Self) -> Option<Ordering> {
        if self@ < other@ {
            Some(Ordering::Less)
        } else if self@ > other@ {
            Some(Ordering::Greater)
        } else {
            Some(Ordering::Equal)
        }
    }
}

impl View for StatementId {
    type V = nat;

    /// The position in the table of the entry that the handle names.
    closed spec fn view(&self) -> nat {
        self.0 as nat
    }
}

impl StatementId {
    /// Whether `self` compares less than `other`: whether it was issued
    /// earlier by the same table.
    pub open spec fn precedes(self, other: StatementId) -> bool {
        PartialOrdSpec::partial_cmp_spec(&self, &other) == Some(Ordering::Less)
    }

    /// The handle of the entry at position `index`.
    pub closed spec fn nth(index: nat) -> StatementId {
        StatementId(index as u32)
    }

    /// Creates a handle from its position in the table.
    pub fn from_u32(x: u32) -> (id: Self)
        requires
            x < u32::MAX,
        ensures
            id == Self::nth(x as nat),
            id@ == x,
    {
        StatementId(x)
    }

    /// The position in the table of the entry that the handle names.
    pub fn as_u32(self) -> (x: u32)
        ensures
            x == self@,
    {
        self.0
    }

    /// A handle is determined by its position, which fits in 32 bits.
    pub broadcast proof fn lemma_view(id: StatementId)
        ensures
            #[trigger] id@ <= u32::MAX,
            StatementId::nth(id@) == id,
    {
    }

    /// The handle made for a position names that position.
    pub broadcast proof fn lemma_nth(index: nat)
        requires
            index <= u32::MAX,
        ensures
            #[trigger] StatementId::nth(index)@ == index,
    {
    }
}

impl EntityRef for StatementId {
    /// The handle of the entry at position `index`; what the tables call
    /// to make the handle of a new entry.
    fn new(index: usize) -> (id: Self)
        ensures
            index <= u32::MAX ==> id@ == index,
    {
        StatementId(#[verifier::truncate] (index as u32))
    }

    /// The position in the table of the entry that the handle names.
    fn index(self) -> (index: usize)
        ensures
            index == self@,
    {
        self.0 as usize
    }
}

/// One statement of a function body.
#[derive(Debug, PartialEq, Eq, Clone, Copy)]
pub enum Statement {
    Let(Let),
    Assign(Assign),
    Return(Return),
}

/// `let` binding: introduces `ident`, optionally typed, with an initial value.
#[derive(Debug, PartialEq, Eq, Clone, Copy)]
pub struct Let {
    pub mutable: bool,
    pub ident: NameId,
    pub annotation: Option<TypeId>,
    pub expression: ExpressionId,
}

/// Assignment of a new value to the place that `ident` names.
#[derive(Debug, PartialEq, Eq, Clone, Copy)]
pub struct Assign {
    pub ident: NameId,
    pub expression: ExpressionId,
}

/// `return` with the value to hand back.
#[derive(Debug, PartialEq, Eq, Clone, Copy)]
pub struct Return {
    pub expression: ExpressionId,
}

} // verus!
