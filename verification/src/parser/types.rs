//! The productions for value types and identifiers.
use vstd::prelude::*;

use crate::ast::component::Component;
use crate::ast::types::{NameId, TypeId, ValType};
use crate::ast::Span;
use crate::lexer::Token;
use crate::parser::grammar::{identifier, optional_type, type_tree, valtype_of};
use crate::parser::tree::{layout_name, layout_optional_type, layout_type};
use crate::parser::{failed, fits, kept, moved, reached, ParseInput, ParserError};

verus! {

/// The value type that a token names.
fn valtype_of_token(token: &Token) -> (valtype: Option<ValType>)
    ensures
        valtype == valtype_of(token@),
{
    match token {
        Token::Bool => Some(ValType::Bool),
        Token::I32 => Some(ValType::I32),
        Token::I64 => Some(ValType::I64),
        Token::U32 => Some(ValType::U32),
        Token::U64 => Some(ValType::U64),
        Token::F32 => Some(ValType::F32),
        Token::F64 => Some(ValType::F64),
        _ => None,
    }
}

/// Reads a value type and appends it to the type table.
pub fn parse_type(input: &mut ParseInput, comp: &mut Component) -> (result: Result<
    TypeId,
    ParserError,
>)
    requires
        old(comp).wf(),
        fits(old(comp)@, old(input)@),
    ensures
        kept(old(input), final(input), old(comp), final(comp)),
        match result {
            Ok(id) => {
                &&& type_tree(old(input)@.tokens, old(input)@.index) matches Ok((tree, next))
                &&& moved(old(input), final(input), old(comp), final(comp), next)
                &&& (final(comp)@, id) == layout_type(old(comp)@, tree)
            },
            Err(error) => failed(
                type_tree(old(input)@.tokens, old(input)@.index),
                error,
                old(input),
            ),
        },
{
    proof {
        input.lemma_limits();
    }
    let (valtype, span) = match input.peek() {
        Ok(data) => (valtype_of_token(&data.token), data.span),
        Err(error) => { return Err(error); },
    };
    match valtype {
        Some(valtype) => {
            let _ = input.next();
            Ok(comp.new_type(valtype, span))
        },
        None => Err(input.unexpected_token("a type")),
    }
}

/// Reads the type behind `marker` where `marker` is the current token,
/// and appends it to the type table; reads nothing where it is not.
pub fn parse_optional_type(input: &mut ParseInput, comp: &mut Component, marker: Token) -> (result:
    Result<Option<TypeId>, ParserError>)
    requires
        old(comp).wf(),
        fits(old(comp)@, old(input)@),
    ensures
        kept(old(input), final(input), old(comp), final(comp)),
        match result {
            Ok(id) => {
                &&& optional_type(old(input)@.tokens, old(input)@.index, marker@) matches Ok(
                    (tree, next),
                )
                &&& reached(old(input), final(input), old(comp), final(comp), next)
                &&& (final(comp)@, id) == layout_optional_type(old(comp)@, tree)
            },
            Err(error) => failed(
                optional_type(old(input)@.tokens, old(input)@.index, marker@),
                error,
                old(input),
            ),
        },
{
    match input.next_if(marker) {
        Some(_) => {
            let id = parse_type(input, comp)?;
            Ok(Some(id))
        },
        None => Ok(None),
    }
}

/// Reads an identifier and appends it to the name table. Returns its
/// handle and its span.
pub fn parse_identifier(input: &mut ParseInput, comp: &mut Component) -> (result: Result<
    (NameId, Span),
    ParserError,
>)
    requires
        old(comp).wf(),
        fits(old(comp)@, old(input)@),
    ensures
        kept(old(input), final(input), old(comp), final(comp)),
        match result {
            Ok((id, span)) => {
                &&& identifier(old(input)@.tokens, old(input)@.index) matches Ok((tree, next))
                &&& moved(old(input), final(input), old(comp), final(comp), next)
                &&& (final(comp)@, id) == layout_name(old(comp)@, tree)
                &&& span == tree.span
            },
            Err(error) => failed(
                identifier(old(input)@.tokens, old(input)@.index),
                error,
                old(input),
            ),
        },
{
    proof {
        input.lemma_limits();
    }
    let (name, span) = match input.peek() {
        Ok(data) => match &data.token {
            Token::Identifier(text) => (Some(text.clone()), data.span),
            _ => (None, data.span),
        },
        Err(error) => { return Err(error); },
    };
    match name {
        Some(name) => {
            let _ = input.next();
            Ok((comp.new_name(name, span), span))
        },
        None => Err(input.unexpected_token("an identifier")),
    }
}

} // verus!
