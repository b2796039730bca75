use std::cmp::Ordering;
use std::sync::Arc;

use miette::NamedSource;
use wrought::ast::component::{
    Component, ExternalType, FnTypeInfo, Function, FunctionId, FunctionSignature, Global,
    GlobalId, Import, ImportId,
};
use wrought::ast::expressions::{BinaryOp, Expression, ExpressionId, Literal};
use wrought::ast::statements::{Assign, Let, Return, Statement, StatementId};
use wrought::ast::types::{FnType, NameId, TypeId, ValType};
use wrought::ast::Span;

fn arena_source() -> Arc<NamedSource> {
    Arc::new(NamedSource::new("arena", String::from("let x: i32 = 5;")))
}

#[test]
fn new_arena_is_empty() {
    let src = arena_source();
    let comp = Component::new(src.clone());
    assert!(Arc::ptr_eq(&comp.src, &src));
    assert_eq!(comp.name_count(), 0);
    assert_eq!(comp.type_count(), 0);
    assert_eq!(comp.statement_count(), 0);
    assert_eq!(comp.import_count(), 0);
    assert_eq!(comp.global_count(), 0);
    assert_eq!(comp.function_count(), 0);
    assert_eq!(comp.expr().len(), 0);
}

#[test]
fn names_are_stored_with_their_spans() {
    let mut comp = Component::new(arena_source());
    let first = comp.new_name(String::from("alpha"), Span::new(0, 5));
    let second = comp.new_name(String::from("beta"), Span::new(6, 4));
    assert_eq!(first, NameId::from_u32(0));
    assert_eq!(second, NameId::from_u32(1));
    assert_eq!(comp.get_name(first), "alpha");
    assert_eq!(comp.get_name(second), "beta");
    assert_eq!(comp.name_span(first), Span::new(0, 5));
    assert_eq!(comp.name_span(second), Span::new(6, 4));
    assert_eq!(comp.name_count(), 2);
}

#[test]
fn types_are_stored_with_their_spans() {
    let mut comp = Component::new(arena_source());
    let first = comp.new_type(ValType::I32, Span::new(7, 3));
    let second = comp.new_type(ValType::F64, Span::new(20, 3));
    assert_eq!(first.as_u32(), 0);
    assert_eq!(second.as_u32(), 1);
    assert_eq!(*comp.get_type(first), ValType::I32);
    assert_eq!(*comp.get_type(second), ValType::F64);
    assert_eq!(comp.type_span(first), Span::new(7, 3));
    assert_eq!(comp.type_span(second), Span::new(20, 3));
    assert_eq!(comp.type_count(), 2);
}

#[test]
fn statements_are_stored_with_their_spans() {
    let mut comp = Component::new(arena_source());
    let ident = comp.new_name(String::from("x"), Span::new(0, 1));
    let value = comp.expr_mut().alloc_literal(Literal::Integer(1), Span::new(4, 1));
    let assign = Statement::Assign(Assign { ident, expression: value });
    let ret = Statement::Return(Return { expression: value });
    let first = comp.new_statement(assign, Span::new(0, 6));
    let second = comp.new_statement(ret, Span::new(7, 9));
    assert_eq!(first, StatementId::from_u32(0));
    assert_eq!(second, StatementId::from_u32(1));
    assert_eq!(*comp.get_statement(first), assign);
    assert_eq!(*comp.get_statement(second), ret);
    assert_eq!(comp.statement_span(first), Span::new(0, 6));
    assert_eq!(comp.statement_span(second), Span::new(7, 9));
    assert_eq!(comp.statement_count(), 2);
}

#[test]
fn alloc_let_builds_the_statement_from_its_parts() {
    let mut comp = Component::new(arena_source());
    let ident = comp.new_name(String::from("x"), Span::new(4, 1));
    let annotation = comp.new_type(ValType::I32, Span::new(7, 3));
    let expression = comp.expr_mut().alloc_literal(Literal::Integer(5), Span::new(13, 1));
    let id = comp.alloc_let(true, ident, Some(annotation), expression, Span::new(0, 15));
    assert_eq!(
        *comp.get_statement(id),
        Statement::Let(Let { mutable: true, ident, annotation: Some(annotation), expression })
    );
    assert_eq!(comp.statement_span(id), Span::new(0, 15));
    let bare = comp.alloc_let(false, ident, None, expression, Span::new(16, 10));
    assert_eq!(
        *comp.get_statement(bare),
        Statement::Let(Let { mutable: false, ident, annotation: None, expression })
    );
    assert!(bare > id);
}

#[test]
fn expressions_are_stored_with_their_spans() {
    let mut comp = Component::new(arena_source());
    let ident = comp.new_name(String::from("a"), Span::new(0, 1));
    let left = comp.expr_mut().alloc_identifier(ident, Span::new(0, 1));
    let right = comp.expr_mut().alloc_literal(Literal::Integer(2), Span::new(4, 1));
    let sum = comp.expr_mut().alloc_binary(BinaryOp::Add, left, right, Span::new(0, 5));
    let other = comp.expr_mut().new_expression(Expression::Literal(Literal::Integer(9)), Span::new(8, 1));
    assert_eq!(left, ExpressionId::from_u32(0));
    assert_eq!(right, ExpressionId::from_u32(1));
    assert_eq!(sum, ExpressionId::from_u32(2));
    assert_eq!(other, ExpressionId::from_u32(3));
    assert_eq!(*comp.expr().get_exp(left), Expression::Identifier(ident));
    assert_eq!(*comp.expr().get_exp(right), Expression::Literal(Literal::Integer(2)));
    assert_eq!(
        *comp.expr().get_exp(sum),
        Expression::Binary { op: BinaryOp::Add, left, right }
    );
    assert_eq!(comp.expr().get_span(sum), Span::new(0, 5));
    assert_eq!(comp.expr().get_span(right), Span::new(4, 1));
    assert_eq!(comp.expr().len(), 4);
}

#[test]
fn top_level_items_are_stored_in_their_tables() {
    let mut comp = Component::new(arena_source());
    let ident = comp.new_name(String::from("f"), Span::new(0, 1));
    let param = comp.new_name(String::from("p"), Span::new(2, 1));
    let valtype = comp.new_type(ValType::U64, Span::new(5, 3));
    let value = comp.expr_mut().alloc_literal(Literal::Integer(0), Span::new(9, 1));

    let fn_type = FnType { arguments: vec![(param, valtype)], return_type: Some(valtype) };
    let import = comp.new_import(Import { ident, external_type: ExternalType::Function(fn_type.clone()) });
    assert_eq!(import, ImportId::from_u32(0));
    assert_eq!(comp.get_import(import).ident, ident);
    assert_eq!(comp.get_import(import).external_type, ExternalType::Function(fn_type));
    assert_eq!(comp.import_count(), 1);

    let global = comp.new_global(Global {
        exported: true,
        mutable: false,
        ident,
        type_id: valtype,
        init_value: value,
    });
    assert_eq!(global, GlobalId::from_u32(0));
    assert!(comp.get_global(global).exported);
    assert!(!comp.get_global(global).mutable);
    assert_eq!(comp.get_global(global).ident, ident);
    assert_eq!(comp.get_global(global).type_id, valtype);
    assert_eq!(comp.get_global(global).init_value, value);
    assert_eq!(comp.global_count(), 1);

    let signature = FunctionSignature { ident, arguments: vec![(param, valtype)], return_type: None };
    let function = comp.new_function(Function { exported: false, signature: signature.clone(), body: vec![] });
    let again = comp.new_function(Function { exported: true, signature: signature.clone(), body: vec![] });
    assert_eq!(function, FunctionId::from_u32(0));
    assert_eq!(again, FunctionId::from_u32(1));
    assert_eq!(comp.get_function(function).signature, signature);
    assert!(!comp.get_function(function).exported);
    assert!(comp.get_function(again).exported);
    assert_eq!(comp.function_count(), 2);
}

#[test]
fn handles_increase_and_are_never_reused() {
    let mut comp = Component::new(arena_source());
    let mut issued: Vec<NameId> = Vec::new();
    for i in 0..50usize {
        let id = comp.new_name(format!("n{}", i), Span::new(i, 1));
        for earlier in &issued {
            assert!(id > *earlier);
        }
        assert_eq!(id.as_u32() as usize, i);
        issued.push(id);
    }
    for (i, id) in issued.iter().enumerate() {
        assert_eq!(comp.get_name(*id), format!("n{}", i));
        assert_eq!(comp.name_span(*id), Span::new(i, 1));
    }
}

#[test]
fn tables_issue_handles_independently() {
    let mut comp = Component::new(arena_source());
    let name = comp.new_name(String::from("x"), Span::new(0, 1));
    let valtype = comp.new_type(ValType::Bool, Span::new(2, 4));
    let other = comp.new_name(String::from("y"), Span::new(8, 1));
    assert_eq!(name.as_u32(), 0);
    assert_eq!(valtype.as_u32(), 0);
    assert_eq!(other.as_u32(), 1);
    assert_eq!(TypeId::from_u32(0), valtype);
}

#[test]
fn signatures_and_function_types_report_their_parts() {
    let a = NameId::from_u32(0);
    let b = NameId::from_u32(1);
    let t = TypeId::from_u32(0);
    let signature = FunctionSignature { ident: a, arguments: vec![(a, t), (b, t)], return_type: Some(t) };
    assert_eq!(signature.get_args(), &[(a, t), (b, t)][..]);
    assert_eq!(signature.get_return_type(), Some(t));
    let fn_type = FnType { arguments: vec![(b, t)], return_type: None };
    assert_eq!(fn_type.get_args(), &[(b, t)][..]);
    assert_eq!(fn_type.get_return_type(), None);
}

#[test]
fn handles_compare_as_their_positions() {
    let low = NameId::from_u32(3);
    let high = NameId::from_u32(11);
    assert!(low < high);
    assert!(high > low);
    assert!(low <= low);
    assert_eq!(low.partial_cmp(&high), Some(Ordering::Less));
    assert_eq!(high.partial_cmp(&low), Some(Ordering::Greater));
    assert_eq!(low.partial_cmp(&low), Some(Ordering::Equal));
    assert_eq!(low.cmp(&high), Ordering::Less);
    assert_eq!(StatementId::from_u32(0).max(StatementId::from_u32(5)), StatementId::from_u32(5));
    assert!(ExpressionId::from_u32(1) < ExpressionId::from_u32(2));
    assert!(TypeId::from_u32(1) < TypeId::from_u32(2));
    assert!(ImportId::from_u32(1) < ImportId::from_u32(2));
    assert!(GlobalId::from_u32(1) < GlobalId::from_u32(2));
    assert!(FunctionId::from_u32(1) < FunctionId::from_u32(2));
}
