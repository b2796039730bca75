//! What a handle stands for: the syntax tree read back from the tables of
//! an arena, and the proof that laying out a tree and reading it back
//! gives the tree.
use vstd::prelude::*;

use crate::ast::component::ArenaModel;
use crate::ast::expressions::{Expression, ExpressionId};
use crate::ast::statements::{Statement, StatementId};
use crate::ast::types::{NameId, TypeId};
use crate::parser::tree::{
    layout_expression, layout_name, layout_optional_type, layout_statement, ExprTree, NameTree,
    StatementTree, TypeTree,
};

verus! {

/// The identifier that `id` names, if the arena issued `id`.
pub open spec fn name_of(arena: ArenaModel, id: NameId) -> Option<NameTree> {
    if id@ < arena.names.len() {
        Some(NameTree { text: arena.names[id@ as int].0, span: arena.names[id@ as int].1 })
    } else {
        None
    }
}

/// The value type that `id` names, if the arena issued `id`.
pub open spec fn type_of(arena: ArenaModel, id: TypeId) -> Option<TypeTree> {
    if id@ < arena.types.len() {
        Some(TypeTree { valtype: arena.types[id@ as int].0, span: arena.types[id@ as int].1 })
    } else {
        None
    }
}

/// The value type that an optional handle names: `Some(None)` for no
/// handle, `None` for a handle that the arena did not issue.
pub open spec fn optional_type_of(arena: ArenaModel, id: Option<TypeId>) -> Option<
    Option<TypeTree>,
> {
    match id {
        None => Some(None),
        Some(id) => match type_of(arena, id) {
            Some(tree) => Some(Some(tree)),
            None => None,
        },
    }
}

/// The expression that `id` names, with all below it, if the arena issued
/// `id` and every handle below it, each operand before the node that
/// applies an operator to it.
pub open spec fn expression_of(arena: ArenaModel, id: ExpressionId) -> Option<ExprTree>
    decreases id@,
{
    if id@ < arena.expressions.len() {
        let span = arena.expressions[id@ as int].1;
        match arena.expressions[id@ as int].0 {
            Expression::Identifier(ident) => match name_of(arena, ident) {
                Some(name) => if name.span == span {
                    Some(ExprTree::Identifier { name })
                } else {
                    None
                },
                None => None,
            },
            Expression::Literal(literal) => Some(ExprTree::Literal { literal, span }),
            Expression::Binary { op, left, right } => if left@ < id@ && right@ < id@ {
                match (expression_of(arena, left), expression_of(arena, right)) {
                    (Some(left), Some(right)) => Some(
                        ExprTree::Binary { op, left: Box::new(left), right: Box::new(right), span },
                    ),
                    _ => None,
                }
            } else {
                None
            },
        }
    } else {
        None
    }
}

/// The statement that `id` names, with all below it, if the arena issued
/// `id` and every handle below it.
pub open spec fn statement_of(arena: ArenaModel, id: StatementId) -> Option<StatementTree> {
    if id@ < arena.statements.len() {
        let span = arena.statements[id@ as int].1;
        match arena.statements[id@ as int].0 {
            Statement::Let(node) => match (
                name_of(arena, node.ident),
                optional_type_of(arena, node.annotation),
                expression_of(arena, node.expression),
            ) {
                (Some(ident), Some(annotation), Some(expression)) => Some(
                    StatementTree::Let {
                        mutable: node.mutable,
                        ident,
                        annotation,
                        expression,
                        span,
                    },
                ),
                _ => None,
            },
            Statement::Assign(node) => match (
                name_of(arena, node.ident),
                expression_of(arena, node.expression),
            ) {
                (Some(ident), Some(expression)) => Some(
                    StatementTree::Assign { ident, expression, span },
                ),
                _ => None,
            },
            Statement::Return(node) => match expression_of(arena, node.expression) {
                Some(expression) => Some(StatementTree::Return { expression, span }),
                None => None,
            },
        }
    } else {
        None
    }
}

/// What a handle stands for never changes: an expression that can be read
/// from an arena reads the same from any arena that extends it.
pub proof fn lemma_expression_stays(earlier: ArenaModel, later: ArenaModel, id: ExpressionId)
    requires
        later.extends(earlier),
        expression_of(earlier, id) is Some,
    ensures
        expression_of(later, id) == expression_of(earlier, id),
    decreases id@,
{
    match earlier.expressions[id@ as int].0 {
        Expression::Binary { op, left, right } => {
            lemma_expression_stays(earlier, later, left);
            lemma_expression_stays(earlier, later, right);
        },
        _ => {},
    }
}

/// What a handle stands for never changes: a statement that can be read
/// from an arena reads the same from any arena that extends it.
pub proof fn lemma_statement_stays(earlier: ArenaModel, later: ArenaModel, id: StatementId)
    requires
        later.extends(earlier),
        statement_of(earlier, id) is Some,
    ensures
        statement_of(later, id) == statement_of(earlier, id),
{
    match earlier.statements[id@ as int].0 {
        Statement::Let(node) => {
            lemma_expression_stays(earlier, later, node.expression);
        },
        Statement::Assign(node) => {
            lemma_expression_stays(earlier, later, node.expression);
        },
        Statement::Return(node) => {
            lemma_expression_stays(earlier, later, node.expression);
        },
    }
}

/// Laying out an expression only appends.
pub proof fn lemma_expression_appends(arena: ArenaModel, tree: ExprTree)
    ensures
        layout_expression(arena, tree).0.extends(arena),
    decreases tree,
{
    match tree {
        ExprTree::Binary { op, left, right, span } => {
            lemma_expression_appends(arena, *left);
            let after_left = layout_expression(arena, *left).0;
            lemma_expression_appends(after_left, *right);
        },
        _ => {},
    }
}

/// An expression that was laid out reads back as it was: the handle that
/// the layout gives is the last of the expression table and stands for the
/// tree. The tables must still fit their 32-bit handles afterwards.
pub proof fn lemma_expression_reads_back(arena: ArenaModel, tree: ExprTree)
    requires
        layout_expression(arena, tree).0.room(0),
    ensures
        expression_of(layout_expression(arena, tree).0, layout_expression(arena, tree).1) == Some(
            tree,
        ),
        layout_expression(arena, tree).1@ + 1 == layout_expression(arena, tree).0.expressions.len(),
        layout_expression(arena, tree).0.extends(arena),
    decreases tree,
{
    broadcast use {ExpressionId::lemma_nth, NameId::lemma_nth};

    lemma_expression_appends(arena, tree);
    let (after, id) = layout_expression(arena, tree);
    match tree {
        ExprTree::Binary { op, left, right, span } => {
            let (after_left, left_id) = layout_expression(arena, *left);
            let (after_right, right_id) = layout_expression(after_left, *right);
            lemma_expression_appends(after_left, *right);
            lemma_expression_reads_back(arena, *left);
            lemma_expression_reads_back(after_left, *right);
            lemma_expression_stays(after_left, after, left_id);
            lemma_expression_stays(after_right, after, right_id);
        },
        _ => {},
    }
}

/// A statement that was laid out reads back as it was. The tables must
/// still fit their 32-bit handles afterwards.
pub proof fn lemma_statement_reads_back(arena: ArenaModel, tree: StatementTree)
    requires
        layout_statement(arena, tree).0.room(0),
    ensures
        statement_of(layout_statement(arena, tree).0, layout_statement(arena, tree).1) == Some(
            tree,
        ),
        layout_statement(arena, tree).0.extends(arena),
{
    broadcast use {
        ExpressionId::lemma_nth,
        NameId::lemma_nth,
        TypeId::lemma_nth,
        StatementId::lemma_nth,
    };

    let (after, id) = layout_statement(arena, tree);
    match tree {
        StatementTree::Let { mutable, ident, annotation, expression, span } => {
            let named = layout_name(arena, ident).0;
            let typed = layout_optional_type(named, annotation).0;
            let (valued, expression_id) = layout_expression(typed, expression);
            lemma_expression_appends(typed, expression);
            lemma_expression_reads_back(typed, expression);
            lemma_expression_stays(valued, after, expression_id);
            assert(name_of(after, layout_name(arena, ident).1) == Some(ident)) by {
                let at = arena.names.len() as int;
                assert(valued.names[at] == typed.names[at]);
            }
            assert(optional_type_of(after, layout_optional_type(named, annotation).1) == Some(
                annotation,
            )) by {
                if annotation is Some {
                    let at = named.types.len() as int;
                    assert(valued.types[at] == typed.types[at]);
                }
            }
        },
        StatementTree::Assign { ident, expression, span } => {
            let named = layout_name(arena, ident).0;
            let (valued, expression_id) = layout_expression(named, expression);
            lemma_expression_appends(named, expression);
            lemma_expression_reads_back(named, expression);
            lemma_expression_stays(valued, after, expression_id);
            assert(name_of(after, layout_name(arena, ident).1) == Some(ident)) by {
                let at = arena.names.len() as int;
                assert(valued.names[at] == named.names[at]);
            }
        },
        StatementTree::Return { expression, span } => {
            let (valued, expression_id) = layout_expression(arena, expression);
            lemma_expression_appends(arena, expression);
            lemma_expression_reads_back(arena, expression);
            lemma_expression_stays(valued, after, expression_id);
        },
    }
}

} // verus!
