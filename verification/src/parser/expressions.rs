//! The productions for expressions.
use vstd::prelude::*;

use crate::ast::component::{ArenaModel, Component};
use crate::ast::expressions::{BinaryOp, ExpressionId, Literal};
use crate::ast::Span;
use crate::lexer::Token;
use crate::parser::grammar::{
    additive_at, additive_of, atom, binary, expression, expression_rest, multiplicative_at,
    multiplicative_of, remaining, term, term_rest,
};
use crate::parser::resolve::{expression_of, lemma_expression_reads_back};
use crate::parser::tree::layout_expression;
use crate::parser::{cover_spans, failed, fits, kept, moved, ParseInput, ParserError};

verus! {

/// Whether `id` names an expression of the arena whose recorded span is
/// `span`.
pub open spec fn spanned(arena: ArenaModel, id: ExpressionId, span: Span) -> bool {
    &&& id@ < arena.expressions.len()
    &&& arena.expressions[id@ as int].1 == span
}

/// The operator that a token stands for between two terms.
fn additive_of_token(token: &Token) -> (op: Option<BinaryOp>)
    ensures
        op == additive_of(token@),
{
    match token {
        Token::Add => Some(BinaryOp::Add),
        Token::Sub => Some(BinaryOp::Subtract),
        _ => None,
    }
}

/// The operator that a token stands for between two atoms.
fn multiplicative_of_token(token: &Token) -> (op: Option<BinaryOp>)
    ensures
        op == multiplicative_of(token@),
{
    match token {
        Token::Mult => Some(BinaryOp::Multiply),
        Token::Div => Some(BinaryOp::Divide),
        _ => None,
    }
}

/// The additive operator at the position, if one is there.
fn additive_ahead(input: &mut ParseInput) -> (op: Option<BinaryOp>)
    ensures
        final(input)@ == old(input)@,
        final(input).source() == old(input).source(),
        op == additive_at(old(input)@.tokens, old(input)@.index),
{
    match input.peek() {
        Ok(data) => additive_of_token(&data.token),
        Err(_) => None,
    }
}

/// The multiplicative operator at the position, if one is there.
fn multiplicative_ahead(input: &mut ParseInput) -> (op: Option<BinaryOp>)
    ensures
        final(input)@ == old(input)@,
        final(input).source() == old(input).source(),
        op == multiplicative_at(old(input)@.tokens, old(input)@.index),
{
    match input.peek() {
        Ok(data) => multiplicative_of_token(&data.token),
        Err(_) => None,
    }
}

/// Reads an atom: a literal, an identifier, or an expression in
/// parentheses. `depth` is the number of parentheses that may still be
/// opened, one within the other.
pub fn parse_atom(input: &mut ParseInput, comp: &mut Component, depth: usize) -> (result:
    Result<ExpressionId, ParserError>)
    requires
        old(comp).wf(),
        fits(old(comp)@, old(input)@),
    ensures
        kept(old(input), final(input), old(comp), final(comp)),
        match result {
            Ok(id) => {
                &&& atom(old(input)@.tokens, old(input)@.index, depth as nat) matches Ok(
                    (tree, next),
                )
                &&& moved(old(input), final(input), old(comp), final(comp), next)
                &&& (final(comp)@, id) == layout_expression(old(comp)@, tree)
                &&& spanned(final(comp)@, id, tree.span())
            },
            Err(error) => failed(
                atom(old(input)@.tokens, old(input)@.index, depth as nat),
                error,
                old(input),
            ),
        },
    decreases remaining(old(input)@.tokens, old(input)@.index), 0nat,
{
    proof {
        input.lemma_limits();
    }
    let data = match input.next() {
        Ok(data) => data,
        Err(error) => { return Err(error); },
    };
    match &data.token {
        Token::IntLiteral(value) => {
            let span = data.span;
            let literal = Literal::Integer(*value);
            Ok(comp.expr_mut().alloc_literal(literal, span))
        },
        Token::Identifier(text) => {
            let span = data.span;
            let ident = comp.new_name(text.clone(), span);
            Ok(comp.expr_mut().alloc_identifier(ident, span))
        },
        Token::LParen => {
            if depth == 0 {
                return Err(ParserError::NestingTooDeep { span: data.span });
            }
            let inner = parse_expression(input, comp, depth - 1)?;
            input.assert_next(Token::RParen, "a closing parenthesis")?;
            Ok(inner)
        },
        _ => Err(
            ParserError::UnexpectedToken {
                description: "an expression".to_string(),
                token: Some(data.token.clone()),
            },
        ),
    }
}

/// Reads a term: atoms joined by `*` and `/`, applied from left to right.
pub fn parse_term(input: &mut ParseInput, comp: &mut Component, depth: usize) -> (result:
    Result<ExpressionId, ParserError>)
    requires
        old(comp).wf(),
        fits(old(comp)@, old(input)@),
    ensures
        kept(old(input), final(input), old(comp), final(comp)),
        match result {
            Ok(id) => {
                &&& term(old(input)@.tokens, old(input)@.index, depth as nat) matches Ok(
                    (tree, next),
                )
                &&& moved(old(input), final(input), old(comp), final(comp), next)
                &&& (final(comp)@, id) == layout_expression(old(comp)@, tree)
                &&& spanned(final(comp)@, id, tree.span())
            },
            Err(error) => failed(
                term(old(input)@.tokens, old(input)@.index, depth as nat),
                error,
                old(input),
            ),
        },
    decreases remaining(old(input)@.tokens, old(input)@.index), 2nat,
{
    let ghost tokens = input@.tokens;
    let ghost start = input@.index;
    let mut left = parse_atom(input, comp, depth)?;
    let ghost mut tree = atom(tokens, start, depth as nat)->Ok_0.0;
    loop
        invariant
            kept(old(input), input, old(comp), comp),
            tokens == old(input)@.tokens,
            start == old(input)@.index,
            start < input@.index <= tokens.len(),
            fits(old(comp)@, old(input)@),
            comp@.grown_within(old(comp)@, (input@.index - start) as nat),
            term(tokens, start, depth as nat) == term_rest(
                tokens,
                input@.index,
                depth as nat,
                tree,
            ),
            (comp@, left) == layout_expression(old(comp)@, tree),
            spanned(comp@, left, tree.span()),
        decreases remaining(tokens, input@.index),
    {
        proof {
            input.lemma_limits();
        }
        let ghost pos = input@.index;
        let op = match multiplicative_ahead(input) {
            Some(op) => op,
            None => { return Ok(left); },
        };
        let _ = input.next();
        let right = parse_atom(input, comp, depth)?;
        let ghost right_tree = atom(tokens, pos + 1, depth as nat)->Ok_0.0;
        let left_span = comp.expr().get_span(left);
        let right_span = comp.expr().get_span(right);
        let span = cover_spans(input, left_span, right_span)?;
        left = comp.expr_mut().alloc_binary(op, left, right, span);
        proof {
            tree = binary(op, tree, right_tree)->Ok_0;
        }
    }
}

/// Reads an expression: terms joined by `+` and `-`, applied from left to
/// right.
pub fn parse_expression(input: &mut ParseInput, comp: &mut Component, depth: usize) -> (result:
    Result<ExpressionId, ParserError>)
    requires
        old(comp).wf(),
        fits(old(comp)@, old(input)@),
    ensures
        kept(old(input), final(input), old(comp), final(comp)),
        match result {
            Ok(id) => {
                &&& expression(old(input)@.tokens, old(input)@.index, depth as nat) matches Ok(
                    (tree, next),
                )
                &&& moved(old(input), final(input), old(comp), final(comp), next)
                &&& (final(comp)@, id) == layout_expression(old(comp)@, tree)
                &&& spanned(final(comp)@, id, tree.span())
                &&& expression_of(final(comp)@, id) == Some(tree)
            },
            Err(error) => failed(
                expression(old(input)@.tokens, old(input)@.index, depth as nat),
                error,
                old(input),
            ),
        },
    decreases remaining(old(input)@.tokens, old(input)@.index), 4nat,
{
    let ghost tokens = input@.tokens;
    let ghost start = input@.index;
    let mut left = parse_term(input, comp, depth)?;
    let ghost mut tree = term(tokens, start, depth as nat)->Ok_0.0;
    loop
        invariant
            kept(old(input), input, old(comp), comp),
            tokens == old(input)@.tokens,
            start == old(input)@.index,
            start < input@.index <= tokens.len(),
            fits(old(comp)@, old(input)@),
            comp@.grown_within(old(comp)@, (input@.index - start) as nat),
            expression(tokens, start, depth as nat) == expression_rest(
                tokens,
                input@.index,
                depth as nat,
                tree,
            ),
            (comp@, left) == layout_expression(old(comp)@, tree),
            spanned(comp@, left, tree.span()),
        decreases remaining(tokens, input@.index),
    {
        proof {
            input.lemma_limits();
        }
        let ghost pos = input@.index;
        let op = match additive_ahead(input) {
            Some(op) => op,
            None => {
                proof {
                    lemma_expression_reads_back(old(comp)@, tree);
                }
                return Ok(left);
            },
        };
        let _ = input.next();
        let right = parse_term(input, comp, depth)?;
        let ghost right_tree = term(tokens, pos + 1, depth as nat)->Ok_0.0;
        let left_span = comp.expr().get_span(left);
        let right_span = comp.expr().get_span(right);
        let span = cover_spans(input, left_span, right_span)?;
        left = comp.expr_mut().alloc_binary(op, left, right, span);
        proof {
            tree = binary(op, tree, right_tree)->Ok_0;
        }
    }
}

} // verus!
