//! The productions for top-level items and for the source unit.
use vstd::prelude::*;

use crate::ast::component::{
    ArenaModel, Component, ExternalType, Function, FunctionId, FunctionSignature, Global,
    GlobalId, Import, ImportId,
};
use crate::ast::module::Module;
use crate::ast::statements::StatementId;
use crate::ast::types::{FnType, NameId, TypeId};
use crate::lexer::Token;
use crate::parser::grammar::{
    body, function, global, import, item, item_kind, items, param, params, params_rest,
    remaining, signature, signature_marks, ItemKind,
};
use crate::parser::statements::{parse_binding, parse_initializer, parse_statement};
use crate::parser::tree::{
    layout_body, layout_function, layout_global, layout_import, layout_item, layout_items,
    layout_param, layout_params, layout_signature, ItemTree, ParamTree, StatementTree,
};
use crate::parser::types::{parse_identifier, parse_optional_type, parse_type};
use crate::parser::{failed, fits, kept, moved, ParseInput, ParserError, ParserErrorModel};

verus! {

/// Reads one parameter and appends its name and its type to the arena.
pub fn parse_param(input: &mut ParseInput, comp: &mut Component) -> (result: Result<
    (NameId, TypeId),
    ParserError,
>)
    requires
        old(comp).wf(),
        fits(old(comp)@, old(input)@),
    ensures
        kept(old(input), final(input), old(comp), final(comp)),
        match result {
            Ok(ids) => {
                &&& param(old(input)@.tokens, old(input)@.index) matches Ok((tree, next))
                &&& moved(old(input), final(input), old(comp), final(comp), next)
                &&& (final(comp)@, ids) == layout_param(old(comp)@, tree)
            },
            Err(error) => failed(param(old(input)@.tokens, old(input)@.index), error, old(input)),
        },
{
    let (ident, _) = parse_identifier(input, comp)?;
    proof {
        input.lemma_limits();
    }
    input.assert_next(Token::Colon, "a colon")?;
    let type_id = parse_type(input, comp)?;
    Ok((ident, type_id))
}

/// What follows a parameter.
enum Separator {
    Comma,
    Close,
    Other,
}

/// What follows a parameter at the position.
fn separator_ahead(input: &mut ParseInput) -> (result: Result<Separator, ParserError>)
    ensures
        final(input)@ == old(input)@,
        final(input).source() == old(input).source(),
        match result {
            Ok(separator) => old(input)@.upcoming() matches Some(data) && match separator {
                Separator::Comma => data.token is Comma,
                Separator::Close => data.token is RParen,
                Separator::Other => !(data.token is Comma || data.token is RParen),
            },
            Err(error) => old(input)@.upcoming() is None && error@ == ParserErrorModel::EndOfInput,
        },
{
    match input.peek() {
        Ok(data) => Ok(
            match &data.token {
                Token::Comma => Separator::Comma,
                Token::RParen => Separator::Close,
                _ => Separator::Other,
            },
        ),
        Err(error) => Err(error),
    }
}

/// Reads the parameters behind an opening parenthesis, through the
/// closing one, and appends their names and types to the arena. Returns
/// the pairs of handles in declaration order.
pub fn parse_params(input: &mut ParseInput, comp: &mut Component) -> (result: Result<
    Vec<(NameId, TypeId)>,
    ParserError,
>)
    requires
        old(comp).wf(),
        fits(old(comp)@, old(input)@),
    ensures
        kept(old(input), final(input), old(comp), final(comp)),
        match result {
            Ok(arguments) => {
                &&& params(old(input)@.tokens, old(input)@.index) matches Ok((trees, next))
                &&& moved(old(input), final(input), old(comp), final(comp), next)
                &&& (final(comp)@, arguments@) == layout_params(old(comp)@, trees)
            },
            Err(error) => failed(params(old(input)@.tokens, old(input)@.index), error, old(input)),
        },
{
    let mut arguments: Vec<(NameId, TypeId)> = Vec::new();
    if input.next_if(Token::RParen).is_some() {
        return Ok(arguments);
    }
    let ghost tokens = input@.tokens;
    let ghost start = input@.index;
    let ghost mut done: Seq<ParamTree> = Seq::empty();
    loop
        invariant
            kept(old(input), input, old(comp), comp),
            tokens == old(input)@.tokens,
            start == old(input)@.index,
            start <= input@.index <= tokens.len(),
            fits(old(comp)@, old(input)@),
            comp@.grown_within(old(comp)@, (input@.index - start) as nat),
            params(tokens, start) == params_rest(tokens, input@.index, done),
            (comp@, arguments@) == layout_params(old(comp)@, done),
        decreases remaining(tokens, input@.index),
    {
        let ghost pos = input@.index;
        let argument = parse_param(input, comp)?;
        arguments.push(argument);
        proof {
            let tree = param(tokens, pos)->Ok_0.0;
            assert(done.push(tree).drop_last() =~= done);
            done = done.push(tree);
            input.lemma_limits();
        }
        match separator_ahead(input)? {
            Separator::Comma => {
                let _ = input.next();
            },
            Separator::Close => {
                let _ = input.next();
                return Ok(arguments);
            },
            Separator::Other => {
                return Err(input.unexpected_token("a comma or a closing parenthesis"));
            },
        }
    }
}

/// Reads what stands between the identifier and the parameters of a
/// signature.
fn parse_signature_marks(input: &mut ParseInput, imported: bool) -> (result: Result<
    (),
    ParserError,
>)
    requires
        old(input)@.index <= old(input)@.tokens.len() < usize::MAX,
    ensures
        final(input)@.tokens == old(input)@.tokens,
        final(input).source() == old(input).source(),
        match result {
            Ok(_) => {
                &&& signature_marks(old(input)@.tokens, old(input)@.index, imported) matches Ok(
                    next,
                )
                &&& final(input)@.index == next
            },
            Err(error) => {
                &&& signature_marks(old(input)@.tokens, old(input)@.index, imported) == Err::<
                    nat,
                    ParserErrorModel,
                >(error@)
                &&& !(error is Base)
            },
        },
{
    if imported {
        input.assert_next(Token::Colon, "a colon")?;
        input.assert_next(Token::Func, "func")?;
    }
    Ok(())
}

/// Reads a signature and appends what it names to the arena. For an
/// import, `:` `func` stands between the identifier and the parameters.
pub fn parse_signature(input: &mut ParseInput, comp: &mut Component, imported: bool) -> (result:
    Result<FunctionSignature, ParserError>)
    requires
        old(comp).wf(),
        fits(old(comp)@, old(input)@),
    ensures
        kept(old(input), final(input), old(comp), final(comp)),
        match result {
            Ok(parsed) => {
                &&& signature(old(input)@.tokens, old(input)@.index, imported) matches Ok(
                    (tree, next),
                )
                &&& moved(old(input), final(input), old(comp), final(comp), next)
                &&& (final(comp)@, parsed@) == layout_signature(old(comp)@, tree)
            },
            Err(error) => failed(
                signature(old(input)@.tokens, old(input)@.index, imported),
                error,
                old(input),
            ),
        },
{
    let (ident, _) = parse_identifier(input, comp)?;
    proof {
        input.lemma_limits();
    }
    parse_signature_marks(input, imported)?;
    input.assert_next(Token::LParen, "an opening parenthesis")?;
    let arguments = parse_params(input, comp)?;
    let return_type = parse_optional_type(input, comp, Token::Arrow)?;
    Ok(FunctionSignature { ident, arguments, return_type })
}

/// Reads the statements behind an opening brace, through the closing one,
/// and appends them to the arena. Returns their handles in the order in
/// which they were written.
pub fn parse_body(input: &mut ParseInput, comp: &mut Component) -> (result: Result<
    Vec<StatementId>,
    ParserError,
>)
    requires
        old(comp).wf(),
        fits(old(comp)@, old(input)@),
    ensures
        kept(old(input), final(input), old(comp), final(comp)),
        match result {
            Ok(statements) => {
                &&& body(old(input)@.tokens, old(input)@.index, Seq::empty()) matches Ok(
                    (trees, next),
                )
                &&& moved(old(input), final(input), old(comp), final(comp), next)
                &&& (final(comp)@, statements@) == layout_body(old(comp)@, trees)
            },
            Err(error) => failed(
                body(old(input)@.tokens, old(input)@.index, Seq::empty()),
                error,
                old(input),
            ),
        },
{
    let mut statements: Vec<StatementId> = Vec::new();
    let ghost tokens = input@.tokens;
    let ghost start = input@.index;
    let ghost mut done: Seq<StatementTree> = Seq::empty();
    loop
        invariant
            kept(old(input), input, old(comp), comp),
            tokens == old(input)@.tokens,
            start == old(input)@.index,
            start <= input@.index <= tokens.len(),
            fits(old(comp)@, old(input)@),
            comp@.grown_within(old(comp)@, (input@.index - start) as nat),
            body(tokens, start, Seq::empty()) == body(tokens, input@.index, done),
            (comp@, statements@) == layout_body(old(comp)@, done),
        decreases remaining(tokens, input@.index),
    {
        if input.next_if(Token::RBrace).is_some() {
            return Ok(statements);
        }
        let ghost pos = input@.index;
        let id = parse_statement(input, comp)?;
        statements.push(id);
        proof {
            let tree = crate::parser::grammar::statement(tokens, pos)->Ok_0.0;
            assert(done.push(tree).drop_last() =~= done);
            done = done.push(tree);
        }
    }
}

/// Reads a function and appends it, with all below it, to the arena.
pub fn parse_function(input: &mut ParseInput, comp: &mut Component) -> (result: Result<
    FunctionId,
    ParserError,
>)
    requires
        old(comp).wf(),
        fits(old(comp)@, old(input)@),
    ensures
        kept(old(input), final(input), old(comp), final(comp)),
        match result {
            Ok(id) => {
                &&& function(old(input)@.tokens, old(input)@.index) matches Ok((tree, next))
                &&& moved(old(input), final(input), old(comp), final(comp), next)
                &&& (final(comp)@, id) == layout_function(old(comp)@, tree)
            },
            Err(error) => failed(
                function(old(input)@.tokens, old(input)@.index),
                error,
                old(input),
            ),
        },
{
    proof {
        input.lemma_limits();
    }
    let exported = input.next_if(Token::Export).is_some();
    input.assert_next(Token::Func, "func")?;
    let signature = parse_signature(input, comp, false)?;
    input.assert_next(Token::LBrace, "an opening brace")?;
    let body = parse_body(input, comp)?;
    Ok(comp.new_function(Function { exported, signature, body }))
}

/// Reads a global and appends it, with all below it, to the arena.
pub fn parse_global(input: &mut ParseInput, comp: &mut Component) -> (result: Result<
    GlobalId,
    ParserError,
>)
    requires
        old(comp).wf(),
        fits(old(comp)@, old(input)@),
    ensures
        kept(old(input), final(input), old(comp), final(comp)),
        match result {
            Ok(id) => {
                &&& global(old(input)@.tokens, old(input)@.index) matches Ok((tree, next))
                &&& moved(old(input), final(input), old(comp), final(comp), next)
                &&& (final(comp)@, id) == layout_global(old(comp)@, tree)
            },
            Err(error) => failed(global(old(input)@.tokens, old(input)@.index), error, old(input)),
        },
{
    proof {
        input.lemma_limits();
    }
    let exported = input.next_if(Token::Export).is_some();
    let (_, mutable, ident) = parse_binding(input, comp)?;
    input.assert_next(Token::Colon, "a colon")?;
    let type_id = parse_type(input, comp)?;
    let (init_value, _) = parse_initializer(input, comp)?;
    Ok(comp.new_global(Global { exported, mutable, ident, type_id, init_value }))
}

/// Reads an import and appends it, with all below it, to the arena.
pub fn parse_import(input: &mut ParseInput, comp: &mut Component) -> (result: Result<
    ImportId,
    ParserError,
>)
    requires
        old(comp).wf(),
        fits(old(comp)@, old(input)@),
    ensures
        kept(old(input), final(input), old(comp), final(comp)),
        match result {
            Ok(id) => {
                &&& import(old(input)@.tokens, old(input)@.index) matches Ok((tree, next))
                &&& moved(old(input), final(input), old(comp), final(comp), next)
                &&& (final(comp)@, id) == layout_import(old(comp)@, tree)
            },
            Err(error) => failed(import(old(input)@.tokens, old(input)@.index), error, old(input)),
        },
{
    proof {
        input.lemma_limits();
    }
    input.assert_next(Token::Import, "import")?;
    let signature = parse_signature(input, comp, true)?;
    input.assert_next(Token::Semicolon, "a semicolon")?;
    let FunctionSignature { ident, arguments, return_type } = signature;
    let external_type = ExternalType::Function(FnType { arguments, return_type });
    Ok(comp.new_import(Import { ident, external_type }))
}

/// Tells what kind of item begins at the position: looks behind an
/// `export`, if one is there, and puts the cursor back.
fn item_kind_ahead(input: &mut ParseInput) -> (result: Result<ItemKind, ParserError>)
    ensures
        final(input)@ == old(input)@,
        final(input).source() == old(input).source(),
        match result {
            Ok(kind) => item_kind(old(input)@.tokens, old(input)@.index) == Ok::<
                ItemKind,
                ParserErrorModel,
            >(kind),
            Err(error) => {
                &&& item_kind(old(input)@.tokens, old(input)@.index) == Err::<
                    ItemKind,
                    ParserErrorModel,
                >(error@)
                &&& !(error is Base)
            },
        },
{
    let checkpoint = input.checkpoint();
    let exported = input.next_if(Token::Export).is_some();
    let found = match input.peek() {
        Ok(data) => match &data.token {
            Token::Func => Some(ItemKind::Function),
            Token::Let => Some(ItemKind::Global),
            Token::Import => if exported {
                None
            } else {
                Some(ItemKind::Import)
            },
            _ => None,
        },
        Err(error) => {
            input.restore(checkpoint);
            return Err(error);
        },
    };
    let result = match found {
        Some(kind) => Ok(kind),
        None => Err(input.unexpected_token("an item")),
    };
    input.restore(checkpoint);
    result
}

/// Reads one top-level item and appends it, with all below it, to the
/// arena.
pub fn parse_item(input: &mut ParseInput, comp: &mut Component) -> (result: Result<
    (),
    ParserError,
>)
    requires
        old(comp).wf(),
        fits(old(comp)@, old(input)@),
    ensures
        kept(old(input), final(input), old(comp), final(comp)),
        match result {
            Ok(_) => {
                &&& item(old(input)@.tokens, old(input)@.index) matches Ok((tree, next))
                &&& moved(old(input), final(input), old(comp), final(comp), next)
                &&& final(comp)@ == layout_item(old(comp)@, tree)
            },
            Err(error) => failed(item(old(input)@.tokens, old(input)@.index), error, old(input)),
        },
{
    match item_kind_ahead(input)? {
        ItemKind::Import => {
            parse_import(input, comp)?;
        },
        ItemKind::Global => {
            parse_global(input, comp)?;
        },
        ItemKind::Function => {
            parse_function(input, comp)?;
        },
    }
    Ok(())
}

/// Reads items from the position to the end of the input into a new
/// arena.
pub fn parse_module(input: &mut ParseInput) -> (result: Result<Module, ParserError>)
    requires
        fits(ArenaModel::empty(), old(input)@),
    ensures
        final(input)@.tokens == old(input)@.tokens,
        final(input).source() == old(input).source(),
        match result {
            Ok(module) => {
                &&& items(old(input)@.tokens, old(input)@.index, Seq::empty()) matches Ok(trees)
                &&& module.component@ == layout_items(ArenaModel::empty(), trees)
                &&& module.component.wf()
                &&& module.component.src == old(input).source()
                &&& final(input)@.done()
            },
            Err(error) => {
                &&& items(old(input)@.tokens, old(input)@.index, Seq::empty()) == Err::<
                    Seq<ItemTree>,
                    ParserErrorModel,
                >(error@)
                &&& error matches ParserError::Base { src, .. } ==> src == old(input).source()
            },
        },
{
    let mut comp = Component::new(input.get_source());
    let ghost tokens = input@.tokens;
    let ghost start = input@.index;
    let ghost mut done: Seq<ItemTree> = Seq::empty();
    while !input.done()
        invariant
            comp.wf(),
            comp.src == old(input).source(),
            input.source() == old(input).source(),
            input@.tokens == tokens,
            tokens == old(input)@.tokens,
            start == old(input)@.index,
            start <= input@.index <= tokens.len(),
            fits(ArenaModel::empty(), old(input)@),
            comp@.grown_within(ArenaModel::empty(), (input@.index - start) as nat),
            items(tokens, start, Seq::empty()) == items(tokens, input@.index, done),
            comp@ == layout_items(ArenaModel::empty(), done),
        decreases remaining(tokens, input@.index),
    {
        let ghost pos = input@.index;
        parse_item(input, &mut comp)?;
        proof {
            let tree = item(tokens, pos)->Ok_0.0;
            assert(done.push(tree).drop_last() =~= done);
            done = done.push(tree);
        }
    }
    Ok(Module { component: comp })
}

} // verus!
