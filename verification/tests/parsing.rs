use std::sync::Arc;

use miette::NamedSource;
use wrought::ast::component::{Component, ExternalType, FunctionId, GlobalId, ImportId};
use wrought::ast::expressions::{BinaryOp, Expression, ExpressionId, Literal};
use wrought::ast::statements::{Assign, Let, Return, Statement, StatementId};
use wrought::ast::types::{NameId, TypeId, ValType};
use wrought::ast::Span;
use wrought::lexer::{Token, TokenData};
use wrought::parser::expressions::{parse_atom, parse_expression, parse_term};
use wrought::parser::module::{
    parse_function, parse_global, parse_import, parse_item, parse_module, parse_param,
    parse_params, parse_signature,
};
use wrought::parser::statements::{parse_assign, parse_let, parse_return, parse_statement};
use wrought::parser::types::{parse_identifier, parse_optional_type, parse_type};
use wrought::parser::{parse, ParseInput, ParserError, MAX_NESTING};

fn unit(text: &str) -> Arc<NamedSource> {
    Arc::new(NamedSource::new("unit", text.to_string()))
}

fn ident(name: &str) -> Token {
    Token::Identifier(name.to_string())
}

/// Gives each token a span one byte wide, at twice its position.
fn spread(tokens: Vec<Token>) -> Vec<TokenData> {
    tokens
        .into_iter()
        .enumerate()
        .map(|(i, token)| TokenData { token, span: Span::new(2 * i, 1) })
        .collect()
}

fn setup(tokens: Vec<Token>) -> (ParseInput, Component) {
    let src = unit("source text");
    (ParseInput::new(src.clone(), spread(tokens)), Component::new(src))
}

/// `let x: i32 = 5;` with the spans that a lexer gives.
fn let_x_tokens() -> Vec<TokenData> {
    vec![
        TokenData { token: Token::Let, span: Span::new(0, 3) },
        TokenData { token: ident("x"), span: Span::new(4, 1) },
        TokenData { token: Token::Colon, span: Span::new(5, 1) },
        TokenData { token: Token::I32, span: Span::new(7, 3) },
        TokenData { token: Token::Assign, span: Span::new(11, 1) },
        TokenData { token: Token::IntLiteral(5), span: Span::new(13, 1) },
        TokenData { token: Token::Semicolon, span: Span::new(14, 1) },
    ]
}

/// `func add(a: i32, b: i64) -> u64 { let c = a + b; c = c * 2; return c; }`
fn add_function_tokens() -> Vec<Token> {
    vec![
        Token::Func,
        ident("add"),
        Token::LParen,
        ident("a"),
        Token::Colon,
        Token::I32,
        Token::Comma,
        ident("b"),
        Token::Colon,
        Token::I64,
        Token::RParen,
        Token::Arrow,
        Token::U64,
        Token::LBrace,
        Token::Let,
        ident("c"),
        Token::Assign,
        ident("a"),
        Token::Add,
        ident("b"),
        Token::Semicolon,
        ident("c"),
        Token::Assign,
        ident("c"),
        Token::Mult,
        Token::IntLiteral(2),
        Token::Semicolon,
        Token::Return,
        ident("c"),
        Token::Semicolon,
        Token::RBrace,
    ]
}

fn unexpected(error: ParserError) -> (String, Option<Token>) {
    match error {
        ParserError::UnexpectedToken { description, token } => (description, token),
        other => panic!("not an unexpected token: {:?}", other),
    }
}

#[test]
fn let_statement_fills_the_arena() {
    let src = unit("let x: i32 = 5;");
    let mut input = ParseInput::new(src.clone(), let_x_tokens());
    let mut comp = Component::new(src);
    let id = parse_statement(&mut input, &mut comp).unwrap();
    assert!(input.done());
    assert_eq!(comp.statement_count(), 1);
    assert_eq!(comp.name_count(), 1);
    assert_eq!(comp.type_count(), 1);
    assert_eq!(comp.expr().len(), 1);
    match *comp.get_statement(id) {
        Statement::Let(Let { mutable, ident, annotation, expression }) => {
            assert!(!mutable);
            assert_eq!(comp.get_name(ident), "x");
            assert_eq!(comp.name_span(ident), Span::new(4, 1));
            let annotation = annotation.unwrap();
            assert_eq!(*comp.get_type(annotation), ValType::I32);
            assert_eq!(comp.type_span(annotation), Span::new(7, 3));
            assert_eq!(
                *comp.expr().get_exp(expression),
                Expression::Literal(Literal::Integer(5))
            );
            assert_eq!(comp.expr().get_span(expression), Span::new(13, 1));
        },
        other => panic!("not a let: {:?}", other),
    }
    assert_eq!(comp.statement_span(id), Span::new(0, 15));
}

#[test]
fn let_statement_without_annotation_and_with_mut() {
    let (mut input, mut comp) =
        setup(vec![Token::Let, Token::Mut, ident("n"), Token::Assign, Token::IntLiteral(1), Token::Semicolon]);
    let id = parse_let(&mut input, &mut comp).unwrap();
    assert_eq!(
        *comp.get_statement(id),
        Statement::Let(Let {
            mutable: true,
            ident: NameId::from_u32(0),
            annotation: None,
            expression: ExpressionId::from_u32(0),
        })
    );
    assert_eq!(comp.type_count(), 0);
    assert_eq!(comp.statement_span(id), Span::new(0, 11));
}

#[test]
fn function_with_two_parameters_and_return_type() {
    let module = parse(unit("add"), spread(add_function_tokens())).unwrap();
    let comp = &module.component;
    assert_eq!(comp.function_count(), 1);
    assert_eq!(comp.import_count(), 0);
    assert_eq!(comp.global_count(), 0);
    let function = comp.get_function(FunctionId::from_u32(0));
    assert!(!function.exported);
    assert_eq!(comp.get_name(function.signature.ident), "add");
    let arguments = &function.signature.arguments;
    assert_eq!(arguments.len(), 2);
    assert_eq!(comp.get_name(arguments[0].0), "a");
    assert_eq!(*comp.get_type(arguments[0].1), ValType::I32);
    assert_eq!(comp.get_name(arguments[1].0), "b");
    assert_eq!(*comp.get_type(arguments[1].1), ValType::I64);
    assert_eq!(*comp.get_type(function.signature.return_type.unwrap()), ValType::U64);

    assert_eq!(function.body.len(), 3);
    assert_eq!(
        function.body,
        vec![StatementId::from_u32(0), StatementId::from_u32(1), StatementId::from_u32(2)]
    );
    assert!(matches!(comp.get_statement(function.body[0]), Statement::Let(_)));
    assert!(matches!(comp.get_statement(function.body[1]), Statement::Assign(_)));
    assert!(matches!(comp.get_statement(function.body[2]), Statement::Return(_)));
    assert_eq!(comp.statement_count(), 3);
    // add, a, b, c, a, b, c, c, c
    assert_eq!(comp.name_count(), 9);
    assert_eq!(comp.type_count(), 3);
    // a, b, a + b, c, 2, c * 2, c
    assert_eq!(comp.expr().len(), 7);
}

#[test]
fn function_body_statements_hold_what_was_written() {
    let module = parse(unit("add"), spread(add_function_tokens())).unwrap();
    let comp = &module.component;
    let function = comp.get_function(FunctionId::from_u32(0));
    match *comp.get_statement(function.body[0]) {
        Statement::Let(Let { mutable, ident, annotation, expression }) => {
            assert!(!mutable);
            assert_eq!(comp.get_name(ident), "c");
            assert_eq!(annotation, None);
            match *comp.expr().get_exp(expression) {
                Expression::Binary { op, left, right } => {
                    assert_eq!(op, BinaryOp::Add);
                    assert!(left < expression && right < expression);
                    match (*comp.expr().get_exp(left), *comp.expr().get_exp(right)) {
                        (Expression::Identifier(l), Expression::Identifier(r)) => {
                            assert_eq!(comp.get_name(l), "a");
                            assert_eq!(comp.get_name(r), "b");
                        },
                        other => panic!("not two identifiers: {:?}", other),
                    }
                },
                other => panic!("not a sum: {:?}", other),
            }
        },
        other => panic!("not a let: {:?}", other),
    }
    match *comp.get_statement(function.body[1]) {
        Statement::Assign(Assign { ident, expression }) => {
            assert_eq!(comp.get_name(ident), "c");
            match *comp.expr().get_exp(expression) {
                Expression::Binary { op, right, .. } => {
                    assert_eq!(op, BinaryOp::Multiply);
                    assert_eq!(*comp.expr().get_exp(right), Expression::Literal(Literal::Integer(2)));
                },
                other => panic!("not a product: {:?}", other),
            }
        },
        other => panic!("not an assignment: {:?}", other),
    }
    match *comp.get_statement(function.body[2]) {
        Statement::Return(Return { expression }) => match *comp.expr().get_exp(expression) {
            Expression::Identifier(name) => assert_eq!(comp.get_name(name), "c"),
            other => panic!("not an identifier: {:?}", other),
        },
        other => panic!("not a return: {:?}", other),
    }
}

#[test]
fn missing_closing_parenthesis_reports_the_token_found() {
    // return (1 + 2 ;
    let (mut input, mut comp) = setup(vec![
        Token::Return,
        Token::LParen,
        Token::IntLiteral(1),
        Token::Add,
        Token::IntLiteral(2),
        Token::Semicolon,
    ]);
    let (description, token) = unexpected(parse_statement(&mut input, &mut comp).unwrap_err());
    assert_eq!(description, "a closing parenthesis");
    assert_eq!(token, Some(Token::Semicolon));
}

#[test]
fn missing_closing_parenthesis_at_the_end_of_the_input() {
    let (mut input, mut comp) = setup(vec![Token::LParen, Token::IntLiteral(1)]);
    assert!(matches!(parse_expression(&mut input, &mut comp, MAX_NESTING), Err(ParserError::EndOfInput)));
}

#[test]
fn missing_closing_brace_ends_the_input() {
    let mut tokens = add_function_tokens();
    tokens.pop();
    assert!(matches!(parse(unit("add"), spread(tokens)), Err(ParserError::EndOfInput)));
}

#[test]
fn missing_closing_parenthesis_of_a_parameter_list() {
    // func f(a: i32 { }
    let tokens = vec![
        Token::Func,
        ident("f"),
        Token::LParen,
        ident("a"),
        Token::Colon,
        Token::I32,
        Token::LBrace,
        Token::RBrace,
    ];
    let (description, token) = unexpected(parse(unit("f"), spread(tokens)).unwrap_err());
    assert_eq!(description, "a comma or a closing parenthesis");
    assert_eq!(token, Some(Token::LBrace));
}

#[test]
fn missing_semicolon_reports_the_token_found() {
    let (mut input, mut comp) =
        setup(vec![Token::Return, Token::IntLiteral(1), Token::Return, Token::IntLiteral(2)]);
    let (description, token) = unexpected(parse_return(&mut input, &mut comp).unwrap_err());
    assert_eq!(description, "a semicolon");
    assert_eq!(token, Some(Token::Return));
}

#[test]
fn parsing_twice_gives_the_same_arena() {
    let first = parse(unit("add"), spread(add_function_tokens())).unwrap();
    let second = parse(unit("add"), spread(add_function_tokens())).unwrap();
    let (a, b) = (&first.component, &second.component);
    assert_eq!(a.name_count(), b.name_count());
    assert_eq!(a.type_count(), b.type_count());
    assert_eq!(a.statement_count(), b.statement_count());
    assert_eq!(a.function_count(), b.function_count());
    assert_eq!(a.expr().len(), b.expr().len());
    for i in 0..a.name_count() as u32 {
        let id = NameId::from_u32(i);
        assert_eq!(a.get_name(id), b.get_name(id));
        assert_eq!(a.name_span(id), b.name_span(id));
    }
    for i in 0..a.type_count() as u32 {
        let id = TypeId::from_u32(i);
        assert_eq!(a.get_type(id), b.get_type(id));
        assert_eq!(a.type_span(id), b.type_span(id));
    }
    for i in 0..a.statement_count() as u32 {
        let id = StatementId::from_u32(i);
        assert_eq!(a.get_statement(id), b.get_statement(id));
        assert_eq!(a.statement_span(id), b.statement_span(id));
    }
    for i in 0..a.expr().len() as u32 {
        let id = ExpressionId::from_u32(i);
        assert_eq!(a.expr().get_exp(id), b.expr().get_exp(id));
        assert_eq!(a.expr().get_span(id), b.expr().get_span(id));
    }
    let (f, g) = (a.get_function(FunctionId::from_u32(0)), b.get_function(FunctionId::from_u32(0)));
    assert_eq!(f.exported, g.exported);
    assert_eq!(f.signature, g.signature);
    assert_eq!(f.body, g.body);
}

#[test]
fn parsing_a_failing_input_twice_gives_the_same_error() {
    let tokens = vec![Token::Func, ident("f"), Token::Comma];
    let first = unexpected(parse(unit("f"), spread(tokens.clone())).unwrap_err());
    let second = unexpected(parse(unit("f"), spread(tokens)).unwrap_err());
    assert_eq!(first, second);
    assert_eq!(first, (String::from("an opening parenthesis"), Some(Token::Comma)));
}

#[test]
fn empty_input_is_an_empty_module() {
    let src = unit("");
    let module = parse(src.clone(), Vec::new()).unwrap();
    assert!(Arc::ptr_eq(&module.component.src, &src));
    assert_eq!(module.component.function_count(), 0);
    assert_eq!(module.component.name_count(), 0);
}

#[test]
fn types_are_read_from_their_keywords() {
    let keywords = vec![
        (Token::Bool, ValType::Bool),
        (Token::I32, ValType::I32),
        (Token::I64, ValType::I64),
        (Token::U32, ValType::U32),
        (Token::U64, ValType::U64),
        (Token::F32, ValType::F32),
        (Token::F64, ValType::F64),
    ];
    for (token, valtype) in keywords {
        let (mut input, mut comp) = setup(vec![token]);
        let id = parse_type(&mut input, &mut comp).unwrap();
        assert_eq!(*comp.get_type(id), valtype);
        assert_eq!(comp.type_span(id), Span::new(0, 1));
        assert!(input.done());
    }
}

#[test]
fn type_errors_leave_the_token_in_place() {
    let (mut input, mut comp) = setup(vec![ident("int")]);
    let (description, token) = unexpected(parse_type(&mut input, &mut comp).unwrap_err());
    assert_eq!(description, "a type");
    assert_eq!(token, Some(ident("int")));
    assert_eq!(comp.type_count(), 0);
    let (mut input, mut comp) = setup(vec![]);
    assert!(matches!(parse_type(&mut input, &mut comp), Err(ParserError::EndOfInput)));
}

#[test]
fn optional_type_follows_its_marker() {
    let (mut input, mut comp) = setup(vec![Token::Arrow, Token::U32, Token::LBrace]);
    let id = parse_optional_type(&mut input, &mut comp, Token::Arrow).unwrap().unwrap();
    assert_eq!(*comp.get_type(id), ValType::U32);
    assert_eq!(input.peek().unwrap().token, Token::LBrace);

    let (mut input, mut comp) = setup(vec![Token::LBrace]);
    assert_eq!(parse_optional_type(&mut input, &mut comp, Token::Arrow).unwrap(), None);
    assert_eq!(input.peek().unwrap().token, Token::LBrace);
    assert_eq!(comp.type_count(), 0);

    let (mut input, mut comp) = setup(vec![Token::Colon, Token::Assign]);
    let (description, token) =
        unexpected(parse_optional_type(&mut input, &mut comp, Token::Colon).unwrap_err());
    assert_eq!(description, "a type");
    assert_eq!(token, Some(Token::Assign));
}

#[test]
fn identifiers_are_stored_as_names() {
    let (mut input, mut comp) = setup(vec![Token::Comma, ident("total")]);
    input.next().unwrap();
    let (id, span) = parse_identifier(&mut input, &mut comp).unwrap();
    assert_eq!(comp.get_name(id), "total");
    assert_eq!(span, Span::new(2, 1));
    assert_eq!(comp.name_span(id), span);

    let (mut input, mut comp) = setup(vec![Token::IntLiteral(4)]);
    let (description, token) = unexpected(parse_identifier(&mut input, &mut comp).unwrap_err());
    assert_eq!(description, "an identifier");
    assert_eq!(token, Some(Token::IntLiteral(4)));
}

#[test]
fn atoms_are_literals_identifiers_and_parenthesized_expressions() {
    let (mut input, mut comp) = setup(vec![Token::IntLiteral(18446744073709551615)]);
    let id = parse_atom(&mut input, &mut comp, MAX_NESTING).unwrap();
    assert_eq!(
        *comp.expr().get_exp(id),
        Expression::Literal(Literal::Integer(18446744073709551615))
    );

    let (mut input, mut comp) = setup(vec![ident("v")]);
    let id = parse_atom(&mut input, &mut comp, MAX_NESTING).unwrap();
    assert_eq!(*comp.expr().get_exp(id), Expression::Identifier(NameId::from_u32(0)));
    assert_eq!(comp.get_name(NameId::from_u32(0)), "v");

    let (mut input, mut comp) =
        setup(vec![Token::LParen, Token::LParen, Token::IntLiteral(3), Token::RParen, Token::RParen]);
    let id = parse_atom(&mut input, &mut comp, MAX_NESTING).unwrap();
    assert_eq!(*comp.expr().get_exp(id), Expression::Literal(Literal::Integer(3)));
    // The parentheses are not part of the expression.
    assert_eq!(comp.expr().get_span(id), Span::new(4, 1));
    assert_eq!(comp.expr().len(), 1);
    assert!(input.done());

    let (mut input, mut comp) = setup(vec![Token::Semicolon]);
    let (description, token) = unexpected(parse_atom(&mut input, &mut comp, MAX_NESTING).unwrap_err());
    assert_eq!(description, "an expression");
    assert_eq!(token, Some(Token::Semicolon));
}

#[test]
fn products_bind_tighter_than_sums() {
    // 1 + 2 * 3 - 4
    let (mut input, mut comp) = setup(vec![
        Token::IntLiteral(1),
        Token::Add,
        Token::IntLiteral(2),
        Token::Mult,
        Token::IntLiteral(3),
        Token::Sub,
        Token::IntLiteral(4),
    ]);
    let id = parse_expression(&mut input, &mut comp, MAX_NESTING).unwrap();
    let at = |i: u32| ExpressionId::from_u32(i);
    // 1, 2, 3, 2 * 3, 1 + (2 * 3), 4, (1 + (2 * 3)) - 4
    assert_eq!(comp.expr().len(), 7);
    assert_eq!(id, at(6));
    assert_eq!(
        *comp.expr().get_exp(at(3)),
        Expression::Binary { op: BinaryOp::Multiply, left: at(1), right: at(2) }
    );
    assert_eq!(
        *comp.expr().get_exp(at(4)),
        Expression::Binary { op: BinaryOp::Add, left: at(0), right: at(3) }
    );
    assert_eq!(
        *comp.expr().get_exp(at(6)),
        Expression::Binary { op: BinaryOp::Subtract, left: at(4), right: at(5) }
    );
    assert_eq!(comp.expr().get_span(at(3)), Span::new(4, 5));
    assert_eq!(comp.expr().get_span(at(4)), Span::new(0, 9));
    assert_eq!(comp.expr().get_span(at(6)), Span::new(0, 13));
}

#[test]
fn operators_apply_from_left_to_right() {
    // 8 / 4 / 2
    let (mut input, mut comp) = setup(vec![
        Token::IntLiteral(8),
        Token::Div,
        Token::IntLiteral(4),
        Token::Div,
        Token::IntLiteral(2),
    ]);
    let id = parse_term(&mut input, &mut comp, MAX_NESTING).unwrap();
    let at = |i: u32| ExpressionId::from_u32(i);
    assert_eq!(
        *comp.expr().get_exp(id),
        Expression::Binary { op: BinaryOp::Divide, left: at(2), right: at(3) }
    );
    assert_eq!(
        *comp.expr().get_exp(at(2)),
        Expression::Binary { op: BinaryOp::Divide, left: at(0), right: at(1) }
    );
}

#[test]
fn parentheses_group() {
    // (1 + 2) * 3
    let (mut input, mut comp) = setup(vec![
        Token::LParen,
        Token::IntLiteral(1),
        Token::Add,
        Token::IntLiteral(2),
        Token::RParen,
        Token::Mult,
        Token::IntLiteral(3),
    ]);
    let id = parse_expression(&mut input, &mut comp, MAX_NESTING).unwrap();
    let at = |i: u32| ExpressionId::from_u32(i);
    assert_eq!(
        *comp.expr().get_exp(id),
        Expression::Binary { op: BinaryOp::Multiply, left: at(2), right: at(3) }
    );
    assert_eq!(
        *comp.expr().get_exp(at(2)),
        Expression::Binary { op: BinaryOp::Add, left: at(0), right: at(1) }
    );
    assert_eq!(comp.expr().get_span(id), Span::new(2, 11));
}

#[test]
fn expression_stops_before_what_is_not_part_of_it() {
    let (mut input, mut comp) = setup(vec![Token::IntLiteral(1), Token::Semicolon]);
    parse_expression(&mut input, &mut comp, MAX_NESTING).unwrap();
    assert_eq!(input.peek().unwrap().token, Token::Semicolon);
}

#[test]
fn dangling_operator_fails_where_the_operand_is_missing() {
    let (mut input, mut comp) = setup(vec![Token::IntLiteral(1), Token::Add, Token::Semicolon]);
    let (description, token) = unexpected(parse_expression(&mut input, &mut comp, MAX_NESTING).unwrap_err());
    assert_eq!(description, "an expression");
    assert_eq!(token, Some(Token::Semicolon));
    let (mut input, mut comp) = setup(vec![Token::IntLiteral(1), Token::Mult]);
    assert!(matches!(parse_expression(&mut input, &mut comp, MAX_NESTING), Err(ParserError::EndOfInput)));
}

#[test]
fn spans_that_cannot_be_merged_give_a_base_error() {
    let src = unit("1 + 2");
    let tokens = vec![
        TokenData { token: Token::IntLiteral(1), span: Span::new(10, 1) },
        TokenData { token: Token::Add, span: Span::new(12, 1) },
        TokenData { token: Token::IntLiteral(2), span: Span::new(0, 1) },
    ];
    let mut input = ParseInput::new(src.clone(), tokens);
    let mut comp = Component::new(src.clone());
    match parse_expression(&mut input, &mut comp, MAX_NESTING).unwrap_err() {
        ParserError::Base { src: anchor, span } => {
            assert!(Arc::ptr_eq(&anchor, &src));
            assert_eq!(span, Span::new(10, 1));
        },
        other => panic!("not a base error: {:?}", other),
    }
}

#[test]
fn assignment_is_told_by_a_window_of_two_tokens() {
    let (mut input, mut comp) =
        setup(vec![ident("x"), Token::Assign, ident("y"), Token::Semicolon, Token::RBrace]);
    let id = parse_statement(&mut input, &mut comp).unwrap();
    assert_eq!(
        *comp.get_statement(id),
        Statement::Assign(Assign { ident: NameId::from_u32(0), expression: ExpressionId::from_u32(0) })
    );
    assert_eq!(comp.get_name(NameId::from_u32(0)), "x");
    assert_eq!(comp.get_name(NameId::from_u32(1)), "y");
    assert_eq!(comp.statement_span(id), Span::new(0, 7));
    assert_eq!(input.peek().unwrap().token, Token::RBrace);

    let (mut input, mut comp) = setup(vec![ident("x"), Token::Assign, Token::IntLiteral(1), Token::Semicolon]);
    assert!(parse_assign(&mut input, &mut comp).is_ok());
}

#[test]
fn what_begins_no_statement_is_reported_in_place() {
    let (mut input, mut comp) = setup(vec![ident("x"), Token::Add, ident("y"), Token::Semicolon]);
    let (description, token) = unexpected(parse_statement(&mut input, &mut comp).unwrap_err());
    assert_eq!(description, "a statement");
    assert_eq!(token, Some(ident("x")));
    // The window that was looked at is given back, and nothing was allocated.
    assert_eq!(input.peek().unwrap().token, ident("x"));
    assert_eq!(comp.name_count(), 0);

    let (mut input, mut comp) = setup(vec![ident("x")]);
    let (_, token) = unexpected(parse_statement(&mut input, &mut comp).unwrap_err());
    assert_eq!(token, Some(ident("x")));

    let (mut input, mut comp) = setup(vec![]);
    assert!(matches!(parse_statement(&mut input, &mut comp), Err(ParserError::EndOfInput)));
}

#[test]
fn if_and_loop_are_not_yet_supported() {
    let (mut input, mut comp) = setup(vec![Token::If, ident("x"), Token::LBrace, Token::RBrace]);
    match parse_statement(&mut input, &mut comp).unwrap_err() {
        ParserError::NotYetSupported { feature, token } => {
            assert_eq!(feature, "if statements");
            assert_eq!(token, Token::If);
        },
        other => panic!("not an unsupported error: {:?}", other),
    }
    let (mut input, mut comp) = setup(vec![Token::Loop, Token::LBrace, Token::RBrace]);
    match parse_statement(&mut input, &mut comp).unwrap_err() {
        ParserError::NotYetSupported { feature, token } => {
            assert_eq!(feature, "loops");
            assert_eq!(token, Token::Loop);
        },
        other => panic!("not an unsupported error: {:?}", other),
    }
}

#[test]
fn parameters_come_in_declaration_order() {
    let (mut input, mut comp) = setup(vec![
        ident("a"),
        Token::Colon,
        Token::Bool,
        Token::Comma,
        ident("b"),
        Token::Colon,
        Token::F32,
        Token::Comma,
        ident("c"),
        Token::Colon,
        Token::U32,
        Token::RParen,
        Token::LBrace,
    ]);
    let params = parse_params(&mut input, &mut comp).unwrap();
    assert_eq!(params.len(), 3);
    let names: Vec<&str> = params.iter().map(|p| comp.get_name(p.0)).collect();
    assert_eq!(names, vec!["a", "b", "c"]);
    let types: Vec<ValType> = params.iter().map(|p| *comp.get_type(p.1)).collect();
    assert_eq!(types, vec![ValType::Bool, ValType::F32, ValType::U32]);
    assert_eq!(input.peek().unwrap().token, Token::LBrace);

    let (mut input, mut comp) = setup(vec![Token::RParen]);
    assert!(parse_params(&mut input, &mut comp).unwrap().is_empty());
    assert!(input.done());

    let (mut input, mut comp) = setup(vec![ident("a"), Token::Colon, Token::Bool]);
    assert!(matches!(parse_params(&mut input, &mut comp), Err(ParserError::EndOfInput)));

    let (mut input, mut comp) = setup(vec![ident("a"), Token::Colon, Token::Bool, Token::Comma, Token::RParen]);
    let (description, token) = unexpected(parse_params(&mut input, &mut comp).unwrap_err());
    assert_eq!(description, "an identifier");
    assert_eq!(token, Some(Token::RParen));
}

#[test]
fn parameter_is_a_name_and_a_type() {
    let (mut input, mut comp) = setup(vec![ident("p"), Token::Colon, Token::I64]);
    let (name, valtype) = parse_param(&mut input, &mut comp).unwrap();
    assert_eq!(comp.get_name(name), "p");
    assert_eq!(*comp.get_type(valtype), ValType::I64);
    let (mut input, mut comp) = setup(vec![ident("p"), Token::Assign, Token::I64]);
    let (description, token) = unexpected(parse_param(&mut input, &mut comp).unwrap_err());
    assert_eq!(description, "a colon");
    assert_eq!(token, Some(Token::Assign));
}

#[test]
fn signature_of_a_function_and_of_an_import() {
    let (mut input, mut comp) = setup(vec![ident("f"), Token::LParen, Token::RParen, Token::LBrace]);
    let signature = parse_signature(&mut input, &mut comp, false).unwrap();
    assert_eq!(comp.get_name(signature.ident), "f");
    assert!(signature.arguments.is_empty());
    assert_eq!(signature.return_type, None);
    assert_eq!(input.peek().unwrap().token, Token::LBrace);

    let (mut input, mut comp) = setup(vec![
        ident("g"),
        Token::Colon,
        Token::Func,
        Token::LParen,
        Token::RParen,
        Token::Arrow,
        Token::Bool,
    ]);
    let signature = parse_signature(&mut input, &mut comp, true).unwrap();
    assert_eq!(comp.get_name(signature.ident), "g");
    assert_eq!(*comp.get_type(signature.return_type.unwrap()), ValType::Bool);

    let (mut input, mut comp) = setup(vec![ident("g"), Token::LParen, Token::RParen]);
    let (description, token) = unexpected(parse_signature(&mut input, &mut comp, true).unwrap_err());
    assert_eq!(description, "a colon");
    assert_eq!(token, Some(Token::LParen));
}

#[test]
fn exported_function_with_an_empty_body() {
    let (mut input, mut comp) = setup(vec![
        Token::Export,
        Token::Func,
        ident("main"),
        Token::LParen,
        Token::RParen,
        Token::LBrace,
        Token::RBrace,
    ]);
    let id = parse_function(&mut input, &mut comp).unwrap();
    let function = comp.get_function(id);
    assert!(function.exported);
    assert_eq!(comp.get_name(function.signature.ident), "main");
    assert!(function.body.is_empty());
    assert_eq!(function.signature.return_type, None);
}

#[test]
fn globals_hold_their_flags_type_and_initial_value() {
    let (mut input, mut comp) = setup(vec![
        Token::Export,
        Token::Let,
        Token::Mut,
        ident("counter"),
        Token::Colon,
        Token::U32,
        Token::Assign,
        Token::IntLiteral(0),
        Token::Semicolon,
    ]);
    let id = parse_global(&mut input, &mut comp).unwrap();
    assert_eq!(id, GlobalId::from_u32(0));
    let global = comp.get_global(id);
    assert!(global.exported);
    assert!(global.mutable);
    assert_eq!(comp.get_name(global.ident), "counter");
    assert_eq!(*comp.get_type(global.type_id), ValType::U32);
    assert_eq!(*comp.expr().get_exp(global.init_value), Expression::Literal(Literal::Integer(0)));

    // A global needs its type.
    let (mut input, mut comp) =
        setup(vec![Token::Let, ident("g"), Token::Assign, Token::IntLiteral(0), Token::Semicolon]);
    let (description, token) = unexpected(parse_global(&mut input, &mut comp).unwrap_err());
    assert_eq!(description, "a colon");
    assert_eq!(token, Some(Token::Assign));
}

#[test]
fn imports_hold_the_type_of_the_function() {
    let (mut input, mut comp) = setup(vec![
        Token::Import,
        ident("log"),
        Token::Colon,
        Token::Func,
        Token::LParen,
        ident("value"),
        Token::Colon,
        Token::U64,
        Token::RParen,
        Token::Arrow,
        Token::Bool,
        Token::Semicolon,
    ]);
    let id = parse_import(&mut input, &mut comp).unwrap();
    assert_eq!(id, ImportId::from_u32(0));
    let import = comp.get_import(id);
    assert_eq!(comp.get_name(import.ident), "log");
    let ExternalType::Function(fn_type) = &import.external_type;
    assert_eq!(fn_type.arguments.len(), 1);
    assert_eq!(comp.get_name(fn_type.arguments[0].0), "value");
    assert_eq!(*comp.get_type(fn_type.arguments[0].1), ValType::U64);
    assert_eq!(*comp.get_type(fn_type.return_type.unwrap()), ValType::Bool);
}

#[test]
fn items_are_told_by_the_token_behind_export() {
    let (mut input, mut comp) = setup(vec![Token::Export, Token::Import, ident("f")]);
    let (description, token) = unexpected(parse_item(&mut input, &mut comp).unwrap_err());
    assert_eq!(description, "an item");
    assert_eq!(token, Some(Token::Import));
    // The cursor was put back before the `export`.
    assert_eq!(input.peek().unwrap().token, Token::Export);

    let (mut input, mut comp) = setup(vec![Token::Return]);
    let (description, token) = unexpected(parse_item(&mut input, &mut comp).unwrap_err());
    assert_eq!(description, "an item");
    assert_eq!(token, Some(Token::Return));

    let (mut input, mut comp) = setup(vec![Token::Export]);
    assert!(matches!(parse_item(&mut input, &mut comp), Err(ParserError::EndOfInput)));
}

#[test]
fn module_holds_its_items_in_order() {
    let mut tokens = vec![
        Token::Import,
        ident("log"),
        Token::Colon,
        Token::Func,
        Token::LParen,
        Token::RParen,
        Token::Semicolon,
        Token::Let,
        ident("limit"),
        Token::Colon,
        Token::I32,
        Token::Assign,
        Token::IntLiteral(10),
        Token::Semicolon,
    ];
    tokens.extend(add_function_tokens());
    tokens.extend(vec![
        Token::Export,
        Token::Func,
        ident("run"),
        Token::LParen,
        Token::RParen,
        Token::LBrace,
        Token::RBrace,
    ]);
    let src = unit("module");
    let mut input = ParseInput::new(src.clone(), spread(tokens));
    let module = parse_module(&mut input).unwrap();
    assert!(input.done());
    let comp = &module.component;
    assert!(Arc::ptr_eq(&comp.src, &src));
    assert_eq!(comp.import_count(), 1);
    assert_eq!(comp.global_count(), 1);
    assert_eq!(comp.function_count(), 2);
    assert_eq!(comp.get_name(comp.get_import(ImportId::from_u32(0)).ident), "log");
    assert_eq!(comp.get_name(comp.get_global(GlobalId::from_u32(0)).ident), "limit");
    assert_eq!(comp.get_name(comp.get_function(FunctionId::from_u32(0)).signature.ident), "add");
    assert_eq!(comp.get_name(comp.get_function(FunctionId::from_u32(1)).signature.ident), "run");
    assert!(comp.get_function(FunctionId::from_u32(1)).exported);
}

#[test]
fn a_failing_item_fails_the_module() {
    let mut tokens = add_function_tokens();
    tokens.push(Token::Semicolon);
    let (description, token) = unexpected(parse(unit("add"), spread(tokens)).unwrap_err());
    assert_eq!(description, "an item");
    assert_eq!(token, Some(Token::Semicolon));
}

/// `depth` opening parentheses, a literal, `depth` closing parentheses.
fn nested(depth: usize) -> Vec<Token> {
    let mut tokens = vec![Token::LParen; depth];
    tokens.push(Token::IntLiteral(1));
    tokens.extend(vec![Token::RParen; depth]);
    tokens
}

#[test]
fn parentheses_nest_up_to_the_limit() {
    assert_eq!(MAX_NESTING, 256);
    let (mut input, mut comp) = setup(nested(MAX_NESTING));
    let id = parse_expression(&mut input, &mut comp, MAX_NESTING).unwrap();
    assert_eq!(*comp.expr().get_exp(id), Expression::Literal(Literal::Integer(1)));
    assert!(input.done());
}

#[test]
fn parentheses_beyond_the_limit_are_refused() {
    let (mut input, mut comp) = setup(nested(MAX_NESTING + 1));
    match parse_expression(&mut input, &mut comp, MAX_NESTING).unwrap_err() {
        ParserError::NestingTooDeep { span } => assert_eq!(span, Span::new(2 * MAX_NESTING, 1)),
        other => panic!("not a nesting error: {:?}", other),
    }
    let (mut input, mut comp) = setup(nested(1));
    match parse_expression(&mut input, &mut comp, 0).unwrap_err() {
        ParserError::NestingTooDeep { span } => assert_eq!(span, Span::new(0, 1)),
        other => panic!("not a nesting error: {:?}", other),
    }
    let mut tokens = vec![Token::Return];
    tokens.extend(nested(MAX_NESTING + 1));
    tokens.push(Token::Semicolon);
    let (mut input, mut comp) = setup(tokens);
    assert!(matches!(
        parse_statement(&mut input, &mut comp),
        Err(ParserError::NestingTooDeep { .. })
    ));
}
