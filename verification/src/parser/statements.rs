//! The productions for statements.
use vstd::prelude::*;

use crate::ast::component::Component;
use crate::ast::expressions::ExpressionId;
use crate::ast::statements::{Assign, Return, Statement, StatementId};
use crate::ast::types::NameId;
use crate::ast::Span;
use crate::lexer::Token;
use crate::parser::expressions::parse_expression;
use crate::parser::grammar;
use crate::parser::grammar::{
    assign_statement, binding, initializer, let_statement, return_statement, statement,
    terminated_expression,
};
use crate::parser::resolve::{lemma_statement_reads_back, statement_of};
use crate::parser::tree::{layout_expression, layout_name, layout_statement};
use crate::parser::types::{parse_identifier, parse_optional_type};
use crate::parser::{
    cover_spans, failed, fits, kept, moved, ParseInput, ParserError, MAX_NESTING,
};

verus! {

/// Reads an expression and the semicolon behind it. Returns the handle of
/// the expression and the span of the semicolon.
pub fn parse_terminated_expression(input: &mut ParseInput, comp: &mut Component) -> (result:
    Result<(ExpressionId, Span), ParserError>)
    requires
        old(comp).wf(),
        fits(old(comp)@, old(input)@),
    ensures
        kept(old(input), final(input), old(comp), final(comp)),
        match result {
            Ok((id, last)) => {
                &&& terminated_expression(old(input)@.tokens, old(input)@.index) matches Ok(
                    ((tree, span), next),
                )
                &&& moved(old(input), final(input), old(comp), final(comp), next)
                &&& (final(comp)@, id) == layout_expression(old(comp)@, tree)
                &&& last == span
            },
            Err(error) => failed(
                terminated_expression(old(input)@.tokens, old(input)@.index),
                error,
                old(input),
            ),
        },
{
    let id = parse_expression(input, comp, MAX_NESTING)?;
    proof {
        input.lemma_limits();
    }
    let last = input.assert_next(Token::Semicolon, "a semicolon")?;
    Ok((id, last))
}

/// Reads `=`, an expression and the semicolon behind it. Returns the
/// handle of the expression and the span of the semicolon.
pub fn parse_initializer(input: &mut ParseInput, comp: &mut Component) -> (result: Result<
    (ExpressionId, Span),
    ParserError,
>)
    requires
        old(comp).wf(),
        fits(old(comp)@, old(input)@),
    ensures
        kept(old(input), final(input), old(comp), final(comp)),
        match result {
            Ok((id, last)) => {
                &&& initializer(old(input)@.tokens, old(input)@.index) matches Ok(
                    ((tree, span), next),
                )
                &&& moved(old(input), final(input), old(comp), final(comp), next)
                &&& (final(comp)@, id) == layout_expression(old(comp)@, tree)
                &&& last == span
            },
            Err(error) => failed(
                initializer(old(input)@.tokens, old(input)@.index),
                error,
                old(input),
            ),
        },
{
    proof {
        input.lemma_limits();
    }
    input.assert_next(Token::Assign, "an assignment")?;
    parse_terminated_expression(input, comp)
}

/// Reads `let`, an optional `mut` and an identifier, which it appends to
/// the name table. Returns the span of the `let`, whether `mut` was
/// there, and the handle of the identifier.
pub fn parse_binding(input: &mut ParseInput, comp: &mut Component) -> (result: Result<
    (Span, bool, NameId),
    ParserError,
>)
    requires
        old(comp).wf(),
        fits(old(comp)@, old(input)@),
    ensures
        kept(old(input), final(input), old(comp), final(comp)),
        match result {
            Ok((first, mutable, id)) => {
                &&& binding(old(input)@.tokens, old(input)@.index) matches Ok(
                    ((span, is_mutable, tree), next),
                )
                &&& moved(old(input), final(input), old(comp), final(comp), next)
                &&& (final(comp)@, id) == layout_name(old(comp)@, tree)
                &&& first == span
                &&& mutable == is_mutable
            },
            Err(error) => failed(binding(old(input)@.tokens, old(input)@.index), error, old(input)),
        },
{
    proof {
        input.lemma_limits();
    }
    let first = input.assert_next(Token::Let, "let")?;
    let mutable = input.next_if(Token::Mut).is_some();
    let (id, _) = parse_identifier(input, comp)?;
    Ok((first, mutable, id))
}

/// Reads a `let` statement and appends it, with all below it, to the
/// arena.
pub fn parse_let(input: &mut ParseInput, comp: &mut Component) -> (result: Result<
    StatementId,
    ParserError,
>)
    requires
        old(comp).wf(),
        fits(old(comp)@, old(input)@),
    ensures
        kept(old(input), final(input), old(comp), final(comp)),
        match result {
            Ok(id) => {
                &&& let_statement(old(input)@.tokens, old(input)@.index) matches Ok((tree, next))
                &&& moved(old(input), final(input), old(comp), final(comp), next)
                &&& (final(comp)@, id) == layout_statement(old(comp)@, tree)
            },
            Err(error) => failed(
                let_statement(old(input)@.tokens, old(input)@.index),
                error,
                old(input),
            ),
        },
{
    let (first, mutable, ident) = parse_binding(input, comp)?;
    let annotation = parse_optional_type(input, comp, Token::Colon)?;
    let (expression, last) = parse_initializer(input, comp)?;
    let span = cover_spans(input, first, last)?;
    Ok(comp.alloc_let(mutable, ident, annotation, expression, span))
}

/// Reads an assignment and appends it, with all below it, to the arena.
pub fn parse_assign(input: &mut ParseInput, comp: &mut Component) -> (result: Result<
    StatementId,
    ParserError,
>)
    requires
        old(comp).wf(),
        fits(old(comp)@, old(input)@),
    ensures
        kept(old(input), final(input), old(comp), final(comp)),
        match result {
            Ok(id) => {
                &&& assign_statement(old(input)@.tokens, old(input)@.index) matches Ok(
                    (tree, next),
                )
                &&& moved(old(input), final(input), old(comp), final(comp), next)
                &&& (final(comp)@, id) == layout_statement(old(comp)@, tree)
            },
            Err(error) => failed(
                assign_statement(old(input)@.tokens, old(input)@.index),
                error,
                old(input),
            ),
        },
{
    let (ident, first) = parse_identifier(input, comp)?;
    let (expression, last) = parse_initializer(input, comp)?;
    let span = cover_spans(input, first, last)?;
    Ok(comp.new_statement(Statement::Assign(Assign { ident, expression }), span))
}

/// Reads a `return` statement and appends it, with all below it, to the
/// arena.
pub fn parse_return(input: &mut ParseInput, comp: &mut Component) -> (result: Result<
    StatementId,
    ParserError,
>)
    requires
        old(comp).wf(),
        fits(old(comp)@, old(input)@),
    ensures
        kept(old(input), final(input), old(comp), final(comp)),
        match result {
            Ok(id) => {
                &&& return_statement(old(input)@.tokens, old(input)@.index) matches Ok(
                    (tree, next),
                )
                &&& moved(old(input), final(input), old(comp), final(comp), next)
                &&& (final(comp)@, id) == layout_statement(old(comp)@, tree)
            },
            Err(error) => failed(
                return_statement(old(input)@.tokens, old(input)@.index),
                error,
                old(input),
            ),
        },
{
    proof {
        input.lemma_limits();
    }
    let first = input.assert_next(Token::Return, "return")?;
    let (expression, last) = parse_terminated_expression(input, comp)?;
    let span = cover_spans(input, first, last)?;
    Ok(comp.new_statement(Statement::Return(Return { expression }), span))
}

/// Whether an assignment begins at the position: looks at a window of
/// two tokens and puts the cursor back.
fn assignment_ahead(input: &mut ParseInput) -> (ahead: bool)
    ensures
        final(input)@ == old(input)@,
        final(input).source() == old(input).source(),
        ahead == grammar::assignment_ahead(old(input)@.tokens, old(input)@.index),
{
    let checkpoint = input.checkpoint();
    let ahead = match input.slice_next(2) {
        Ok(window) => {
            assert(window@.len() == 2) by {
                assert(crate::lexer::tokens_model(window@).len() == 2);
            }
            assert(crate::lexer::tokens_model(window@)[0] == window@[0]@);
            assert(crate::lexer::tokens_model(window@)[1] == window@[1]@);
            let named = match &window[0].token {
                Token::Identifier(_) => true,
                _ => false,
            };
            named && window[1].token == Token::Assign
        },
        Err(_) => false,
    };
    input.restore(checkpoint);
    ahead
}

/// How a statement begins.
enum Start {
    Let,
    Return,
    If,
    Loop,
    Other,
}

/// How the statement at the position begins.
fn statement_start(input: &mut ParseInput) -> (result: Result<Start, ParserError>)
    ensures
        final(input)@ == old(input)@,
        final(input).source() == old(input).source(),
        match result {
            Ok(start) => old(input)@.upcoming() matches Some(data) && match start {
                Start::Let => data.token is Let,
                Start::Return => data.token is Return,
                Start::If => data.token is If,
                Start::Loop => data.token is Loop,
                Start::Other => !(data.token is Let || data.token is Return || data.token is If
                    || data.token is Loop),
            },
            Err(error) => old(input)@.upcoming() is None && error@
                == crate::parser::ParserErrorModel::EndOfInput,
        },
{
    match input.peek() {
        Ok(data) => Ok(
            match &data.token {
                Token::Let => Start::Let,
                Token::Return => Start::Return,
                Token::If => Start::If,
                Token::Loop => Start::Loop,
                _ => Start::Other,
            },
        ),
        Err(error) => Err(error),
    }
}

/// Reads one statement and appends it, with all below it, to the arena.
pub fn parse_statement(input: &mut ParseInput, comp: &mut Component) -> (result: Result<
    StatementId,
    ParserError,
>)
    requires
        old(comp).wf(),
        fits(old(comp)@, old(input)@),
    ensures
        kept(old(input), final(input), old(comp), final(comp)),
        match result {
            Ok(id) => {
                &&& statement(old(input)@.tokens, old(input)@.index) matches Ok((tree, next))
                &&& moved(old(input), final(input), old(comp), final(comp), next)
                &&& (final(comp)@, id) == layout_statement(old(comp)@, tree)
                &&& statement_of(final(comp)@, id) == Some(tree)
            },
            Err(error) => failed(
                statement(old(input)@.tokens, old(input)@.index),
                error,
                old(input),
            ),
        },
{
    let result = match statement_start(input)? {
        Start::Let => parse_let(input, comp),
        Start::Return => parse_return(input, comp),
        Start::If => Err(input.unsupported_error("if statements")),
        Start::Loop => Err(input.unsupported_error("loops")),
        Start::Other => {
            if assignment_ahead(input) {
                parse_assign(input, comp)
            } else {
                Err(input.unexpected_token("a statement"))
            }
        },
    };
    proof {
        if let Ok((tree, _)) = statement(old(input)@.tokens, old(input)@.index) {
            if result is Ok {
                lemma_statement_reads_back(old(comp)@, tree);
            }
        }
    }
    result
}

} // verus!
