//! What a parse means: the syntax tree of a token sequence as a value,
//! and the way such a tree is laid out in the tables of an arena.
use vstd::prelude::*;

use crate::ast::component::{
    ArenaModel, ExternalTypeModel, FunctionId, FunctionModel, FunctionSignatureModel, Global,
    GlobalId, ImportId, ImportModel,
};
use crate::ast::expressions::{BinaryOp, Expression, ExpressionId, Literal};
use crate::ast::statements::{Assign, Let, Return, Statement, StatementId};
use crate::ast::types::{FnTypeModel, NameId, TypeId, ValType};
use crate::ast::Span;

verus! {

/// An identifier where it occurs in the source text.
pub struct NameTree {
    pub text: Seq<char>,
    pub span: Span,
}

/// A value type where it is written in the source text.
pub struct TypeTree {
    pub valtype: ValType,
    pub span: Span,
}

/// An expression with everything below it.
pub enum ExprTree {
    Identifier { name: NameTree },
    Literal { literal: Literal, span: Span },
    Binary { op: BinaryOp, left: Box<ExprTree>, right: Box<ExprTree>, span: Span },
}

impl ExprTree {
    /// The region of source text that the expression was read from. A
    /// pair of parentheses round an expression is not part of it.
    pub open spec fn span(self) -> Span {
        match self {
            ExprTree::Identifier { name } => name.span,
            ExprTree::Literal { span, .. } => span,
            ExprTree::Binary { span, .. } => span,
        }
    }
}

/// A statement with everything below it.
pub enum StatementTree {
    Let {
        mutable: bool,
        ident: NameTree,
        annotation: Option<TypeTree>,
        expression: ExprTree,
        span: Span,
    },
    Assign { ident: NameTree, expression: ExprTree, span: Span },
    Return { expression: ExprTree, span: Span },
}

/// One parameter of a function.
pub struct ParamTree {
    pub ident: NameTree,
    pub valtype: TypeTree,
}

/// The name, the parameters and the return type of a function.
pub struct SignatureTree {
    pub ident: NameTree,
    pub params: Seq<ParamTree>,
    pub return_type: Option<TypeTree>,
}

/// A function with its body.
pub struct FunctionTree {
    pub exported: bool,
    pub signature: SignatureTree,
    pub body: Seq<StatementTree>,
}

/// A global with its initial value.
pub struct GlobalTree {
    pub exported: bool,
    pub mutable: bool,
    pub ident: NameTree,
    pub valtype: TypeTree,
    pub init_value: ExprTree,
}

/// A top-level item.
pub enum ItemTree {
    Import(SignatureTree),
    Global(GlobalTree),
    Function(FunctionTree),
}

/// Appends an identifier to the name table.
pub open spec fn layout_name(arena: ArenaModel, name: NameTree) -> (ArenaModel, NameId) {
    (arena.push_name(name.text, name.span), NameId::nth(arena.names.len()))
}

/// Appends a value type to the type table.
pub open spec fn layout_type(arena: ArenaModel, tree: TypeTree) -> (ArenaModel, TypeId) {
    (arena.push_type(tree.valtype, tree.span), TypeId::nth(arena.types.len()))
}

/// Appends a value type to the type table, where there is one.
pub open spec fn layout_optional_type(arena: ArenaModel, tree: Option<TypeTree>) -> (
    ArenaModel,
    Option<TypeId>,
) {
    match tree {
        Some(tree) => (layout_type(arena, tree).0, Some(layout_type(arena, tree).1)),
        None => (arena, None),
    }
}

/// Appends an expression: first what is below its left operand, then what
/// is below its right operand, then the node itself, which thereby gets a
/// greater handle than anything below it.
pub open spec fn layout_expression(arena: ArenaModel, tree: ExprTree) -> (
    ArenaModel,
    ExpressionId,
)
    decreases tree,
{
    match tree {
        ExprTree::Identifier { name } => {
            let (named, ident) = layout_name(arena, name);
            (
                named.push_expression(Expression::Identifier(ident), name.span),
                ExpressionId::nth(named.expressions.len()),
            )
        },
        ExprTree::Literal { literal, span } => (
            arena.push_expression(Expression::Literal(literal), span),
            ExpressionId::nth(arena.expressions.len()),
        ),
        ExprTree::Binary { op, left, right, span } => {
            let (after_left, left_id) = layout_expression(arena, *left);
            let (after_right, right_id) = layout_expression(after_left, *right);
            (
                after_right.push_expression(
                    Expression::Binary { op, left: left_id, right: right_id },
                    span,
                ),
                ExpressionId::nth(after_right.expressions.len()),
            )
        },
    }
}

/// Appends a statement: its identifier, its type annotation and its
/// expression, then the statement itself.
pub open spec fn layout_statement(arena: ArenaModel, tree: StatementTree) -> (
    ArenaModel,
    StatementId,
) {
    match tree {
        StatementTree::Let { mutable, ident, annotation, expression, span } => {
            let (named, ident_id) = layout_name(arena, ident);
            let (typed, annotation_id) = layout_optional_type(named, annotation);
            let (valued, expression_id) = layout_expression(typed, expression);
            (
                valued.push_statement(
                    Statement::Let(
                        Let {
                            mutable,
                            ident: ident_id,
                            annotation: annotation_id,
                            expression: expression_id,
                        },
                    ),
                    span,
                ),
                StatementId::nth(valued.statements.len()),
            )
        },
        StatementTree::Assign { ident, expression, span } => {
            let (named, ident_id) = layout_name(arena, ident);
            let (valued, expression_id) = layout_expression(named, expression);
            (
                valued.push_statement(
                    Statement::Assign(Assign { ident: ident_id, expression: expression_id }),
                    span,
                ),
                StatementId::nth(valued.statements.len()),
            )
        },
        StatementTree::Return { expression, span } => {
            let (valued, expression_id) = layout_expression(arena, expression);
            (
                valued.push_statement(
                    Statement::Return(Return { expression: expression_id }),
                    span,
                ),
                StatementId::nth(valued.statements.len()),
            )
        },
    }
}

/// Appends the statements of a body, first to last, and lists their
/// handles in the same order.
pub open spec fn layout_body(arena: ArenaModel, body: Seq<StatementTree>) -> (
    ArenaModel,
    Seq<StatementId>,
)
    decreases body.len(),
{
    if body.len() == 0 {
        (arena, Seq::empty())
    } else {
        let (before, ids) = layout_body(arena, body.drop_last());
        let (after, id) = layout_statement(before, body.last());
        (after, ids.push(id))
    }
}

/// Appends the name and the type of one parameter.
pub open spec fn layout_param(arena: ArenaModel, tree: ParamTree) -> (
    ArenaModel,
    (NameId, TypeId),
) {
    let (named, ident_id) = layout_name(arena, tree.ident);
    let (typed, type_id) = layout_type(named, tree.valtype);
    (typed, (ident_id, type_id))
}

/// Appends the names and types of a parameter list, first to last, and
/// lists the pairs of handles in the same order.
pub open spec fn layout_params(arena: ArenaModel, params: Seq<ParamTree>) -> (
    ArenaModel,
    Seq<(NameId, TypeId)>,
)
    decreases params.len(),
{
    if params.len() == 0 {
        (arena, Seq::empty())
    } else {
        let (before, ids) = layout_params(arena, params.drop_last());
        let (after, id) = layout_param(before, params.last());
        (after, ids.push(id))
    }
}

/// Appends what a signature names: the function's identifier, the
/// parameters, the return type.
pub open spec fn layout_signature(arena: ArenaModel, tree: SignatureTree) -> (
    ArenaModel,
    FunctionSignatureModel,
) {
    let (named, ident) = layout_name(arena, tree.ident);
    let (with_params, arguments) = layout_params(named, tree.params);
    let (typed, return_type) = layout_optional_type(with_params, tree.return_type);
    (typed, FunctionSignatureModel { ident, arguments, return_type })
}

/// Appends a function: its signature, its body, then the function itself.
pub open spec fn layout_function(arena: ArenaModel, tree: FunctionTree) -> (
    ArenaModel,
    FunctionId,
) {
    let (signed, signature) = layout_signature(arena, tree.signature);
    let (filled, body) = layout_body(signed, tree.body);
    (
        filled.push_function(FunctionModel { exported: tree.exported, signature, body }),
        FunctionId::nth(filled.functions.len()),
    )
}

/// Appends an import: what its signature names, then the import itself.
pub open spec fn layout_import(arena: ArenaModel, tree: SignatureTree) -> (ArenaModel, ImportId) {
    let (signed, signature) = layout_signature(arena, tree);
    (
        signed.push_import(
            ImportModel {
                ident: signature.ident,
                external_type: ExternalTypeModel::Function(
                    FnTypeModel {
                        arguments: signature.arguments,
                        return_type: signature.return_type,
                    },
                ),
            },
        ),
        ImportId::nth(signed.imports.len()),
    )
}

/// Appends a global: its identifier, its type and its initial value, then
/// the global itself.
pub open spec fn layout_global(arena: ArenaModel, tree: GlobalTree) -> (ArenaModel, GlobalId) {
    let (named, ident) = layout_name(arena, tree.ident);
    let (typed, type_id) = layout_type(named, tree.valtype);
    let (valued, init_value) = layout_expression(typed, tree.init_value);
    (
        valued.push_global(
            Global { exported: tree.exported, mutable: tree.mutable, ident, type_id, init_value },
        ),
        GlobalId::nth(valued.globals.len()),
    )
}

/// Appends one top-level item.
pub open spec fn layout_item(arena: ArenaModel, tree: ItemTree) -> ArenaModel {
    match tree {
        ItemTree::Import(import) => layout_import(arena, import).0,
        ItemTree::Global(global) => layout_global(arena, global).0,
        ItemTree::Function(function) => layout_function(arena, function).0,
    }
}

/// Appends the items of a source unit, first to last.
pub open spec fn layout_items(arena: ArenaModel, items: Seq<ItemTree>) -> ArenaModel
    decreases items.len(),
{
    if items.len() == 0 {
        arena
    } else {
        layout_item(layout_items(arena, items.drop_last()), items.last())
    }
}

} // verus!
