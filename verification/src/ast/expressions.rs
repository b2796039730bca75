//! Expressions, their handle, and the nested arena that owns them.
use cranelift_entity::EntityRef;
use std::cmp::Ordering;
use std::collections::HashMap;
use vstd::prelude::*;
use vstd::std_specs::cmp::{PartialOrdSpec, PartialOrdSpecImpl};

use crate::ast::tables::{expression_entries, ExpressionTable};
use crate::ast::types::NameId;
use crate::ast::Span;

verus! {

/// Handle of one entry of the expression table of one arena. Handles are issued
/// in increasing order, starting at zero, and mean nothing in another arena.
#[derive(Copy, Clone, PartialEq, Eq, Structural, Hash, Ord, Debug)]
pub struct ExpressionId(u32);

impl PartialOrd for ExpressionId {
    /// Handles are ordered as their positions are.
    fn partial_cmp(&self, other: &Self) -> (order: Option<Ordering>) {
        if self.0 < other.0 {
            Some(Ordering::Less)
        } else if self.0 > other.0 {
            Some(Ordering::Greater)
        } else {
            Some(Ordering::Equal)
        }
    }
}

impl PartialOrdSpecImpl for ExpressionId {
    open spec fn obeys_partial_cmp_spec() -> bool {
        true
    }

    open spec fn partial_cmp_spec(&self, other: &Self) -> Option<Ordering> {
        if self@ < other@ {
            Some(Ordering::Less)
        } else if self@ > other@ {
            Some(Ordering::Greater)
        } else {
            Some(Ordering::Equal)
        }
    }
}

impl View for ExpressionId {
    type V = nat;

    /// The position in the table of the entry that the handle names.
    closed spec fn view(&self) -> nat {
        self.0 as nat
    }
}

impl ExpressionId {
    /// Whether `self` compares less than `other`: whether it was issued
    /// earlier by the same table.
    pub open spec fn precedes(self, other: ExpressionId) -> bool {
        PartialOrdSpec::partial_cmp_spec(&self, &other) == Some(Ordering::Less)
    }

    /// The handle of the entry at position `index`.
    pub closed spec fn nth(index: nat) -> ExpressionId {
        ExpressionId(index as u32)
    }

    /// Creates a handle from its position in the table.
    pub fn from_u32(x: u32) -> (id: Self)
        requires
            x < u32::MAX,
        ensures
            id == Self::nth(x as nat),
            id@ == x,
    {
        ExpressionId(x)
    }

    /// The position in the table of the entry that the handle names.
    pub fn as_u32(self) -> (x: u32)
        ensures
            x == self@,
    {
        self.0
    }

    /// A handle is determined by its position, which fits in 32 bits.
    pub broadcast proof fn lemma_view(id: ExpressionId)
        ensures
            #[trigger] id@ <= u32::MAX,
            ExpressionId::nth(id@) == id,
    {
    }

    /// The handle made for a position names that position.
    pub broadcast proof fn lemma_nth(index: nat)
        requires
            index <= u32::MAX,
        ensures
            #[trigger] ExpressionId::nth(index)@ == index,
    {
    }
}

impl EntityRef for ExpressionId {
    /// The handle of the entry at position `index`; what the tables call
    /// to make the handle of a new entry.
    fn new(index: usize) -> (id: Self)
        ensures
            index <= u32::MAX ==> id@ == index,
    {
        ExpressionId(#[verifier::truncate] (index as u32))
    }

    /// The position in the table of the entry that the handle names.
    fn index(self) -> (index: usize)
        ensures
            index == self@,
    {
        self.0 as usize
    }
}

/// The operator of a binary expression.
#[derive(Debug, PartialEq, Eq, Structural, Clone, Copy, Hash)]
pub enum BinaryOp {
    Multiply,
    Divide,
    Add,
    Subtract,
}

/// A literal value.
#[derive(Debug, PartialEq, Eq, Structural, Clone, Copy, Hash)]
pub enum Literal {
    Integer(u64),
}

/// One expression node. Operands are handles of nodes allocated earlier in
/// the same arena.
#[derive(Debug, PartialEq, Eq, Structural, Clone, Copy, Hash)]
pub enum Expression {
    Identifier(NameId),
    Literal(Literal),
    Binary { op: BinaryOp, left: ExpressionId, right: ExpressionId },
}

/// The nested arena of expression nodes: an append-only table and, beside
/// it, the span of each node.
#[derive(Debug)]
pub struct ExpressionData {
    pub expressions: ExpressionTable,
    pub expression_spans: HashMap<u32, Span>,
}

impl View for ExpressionData {
    type V = Seq<(Expression, Span)>;

    /// The nodes with their spans, in allocation order.
    open spec fn view(&self) -> Seq<(Expression, Span)> {
        Seq::new(
            expression_entries(self.expressions).len(),
            |i: int| (expression_entries(self.expressions)[i], self.expression_spans@[i as u32]),
        )
    }
}

impl ExpressionData {
    /// Every node has a span, and nothing else has one.
    pub open spec fn wf(&self) -> bool {
        &&& expression_entries(self.expressions).len() <= u32::MAX
        &&& forall|i: u32|
            self.expression_spans@.contains_key(i) <==> i < expression_entries(
                self.expressions,
            ).len()
    }

    pub fn new() -> (data: Self)
        ensures
            data.wf(),
            data@ == Seq::<(Expression, Span)>::empty(),
    {
        let data = ExpressionData {
            expressions: ExpressionTable::new(),
            expression_spans: HashMap::new(),
        };
        assert(data@ =~= Seq::<(Expression, Span)>::empty());
        data
    }

    /// Appends a node with its span and returns the handle issued for it:
    /// the number of nodes that were there before.
    pub fn new_expression(&mut self, expression: Expression, span: Span) -> (id: ExpressionId)
        requires
            old(self).wf(),
            old(self)@.len() < u32::MAX,
        ensures
            final(self).wf(),
            final(self)@ == old(self)@.push((expression, span)),
            id == ExpressionId::nth(old(self)@.len()),
            id@ == old(self)@.len(),
            forall|earlier: ExpressionId|
                earlier@ < old(self)@.len() ==> #[trigger] earlier.precedes(id),
    {
        broadcast use {ExpressionId::lemma_view, vstd::std_specs::hash::group_hash_axioms};

        let id = self.expressions.push(expression);
        self.expression_spans.insert(id.as_u32(), span);
        assert(self@ =~= old(self)@.push((expression, span)));
        id
    }

    /// Appends a reference to the name `ident`.
    pub fn alloc_identifier(&mut self, ident: NameId, span: Span) -> (id: ExpressionId)
        requires
            old(self).wf(),
            old(self)@.len() < u32::MAX,
        ensures
            final(self).wf(),
            final(self)@ == old(self)@.push((Expression::Identifier(ident), span)),
            id == ExpressionId::nth(old(self)@.len()),
            id@ == old(self)@.len(),
    {
        self.new_expression(Expression::Identifier(ident), span)
    }

    /// Appends a literal.
    pub fn alloc_literal(&mut self, literal: Literal, span: Span) -> (id: ExpressionId)
        requires
            old(self).wf(),
            old(self)@.len() < u32::MAX,
        ensures
            final(self).wf(),
            final(self)@ == old(self)@.push((Expression::Literal(literal), span)),
            id == ExpressionId::nth(old(self)@.len()),
            id@ == old(self)@.len(),
    {
        self.new_expression(Expression::Literal(literal), span)
    }

    /// Appends the application of `op` to two operands.
    pub fn alloc_binary(
        &mut self,
        op: BinaryOp,
        left: ExpressionId,
        right: ExpressionId,
        span: Span,
    ) -> (id: ExpressionId)
        requires
            old(self).wf(),
            old(self)@.len() < u32::MAX,
        ensures
            final(self).wf(),
            final(self)@ == old(self)@.push((Expression::Binary { op, left, right }, span)),
            id == ExpressionId::nth(old(self)@.len()),
            id@ == old(self)@.len(),
    {
        self.new_expression(Expression::Binary { op, left, right }, span)
    }

    /// The node that `id` names. The handle must have been issued by this arena.
    pub fn get_exp(&self, id: ExpressionId) -> (expression: &Expression)
        requires
            self.wf(),
            id@ < self@.len(),
        ensures
            *expression == self@[id@ as int].0,
    {
        self.expressions.get(id).unwrap()
    }

    /// The span recorded for `id`. The handle must have been issued by this arena.
    pub fn get_span(&self, id: ExpressionId) -> (span: Span)
        requires
            self.wf(),
            id@ < self@.len(),
        ensures
            span == self@[id@ as int].1,
    {
        broadcast use vstd::std_specs::hash::group_hash_axioms;

        *self.expression_spans.get(&id.as_u32()).unwrap()
    }

    /// The number of nodes allocated so far.
    pub fn len(&self) -> (count: usize)
        ensures
            count == self@.len(),
    {
        self.expressions.len()
    }
}

} // verus!
