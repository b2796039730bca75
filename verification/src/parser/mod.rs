//! The parsing engine: a cursor over the token sequence of one source
//! unit, the errors a parse can end in, and the productions that fill the
//! arena.
//!
//! Each production takes the cursor and the arena and either returns the
//! handle of what it appended or the error it ended in. Where the next
//! tokens can begin more than one construct, a production looks ahead with
//! the cursor alone and puts it back with a checkpoint before it reads the
//! construct it has chosen. A checkpoint rewinds the cursor and nothing
//! else: what was appended to the arena stays. The productions here append
//! only once the construct is chosen, so on success the arena holds
//! exactly the entries of the tree that was read. After an error the
//! cursor stands somewhere within the construct that failed and the arena
//! may hold entries of it: the caller restores the one and discards the
//! other.
use std::sync::Arc;
use vstd::prelude::*;
use vstd::slice::slice_subrange;

use crate::ast::component::{ArenaModel, Component};
use crate::ast::module::Module;
use crate::ast::Span;
use crate::lexer::{tokens_model, Token, TokenData, TokenDataModel, TokenModel};
use crate::Source;

pub mod expressions;
pub mod grammar;
pub mod module;
pub mod resolve;
pub mod statements;
pub mod tree;
pub mod types;

verus! {

/// How many parentheses an expression may open one within the other.
pub const MAX_NESTING: usize = 256;

/// Why a parse failed.
#[derive(Debug)]
#[allow(inconsistent_fields)]
pub enum ParserError {
    /// This region of the source unit could not be parsed.
    Base { src: Source, span: Span },
    /// Something else was expected than the token found; `None` where the
    /// input had ended.
    UnexpectedToken { description: String, token: Option<Token> },
    /// A token was asked for beyond the end of the input.
    EndOfInput,
    /// The construct that begins at `token` is known and not implemented.
    NotYetSupported { feature: String, token: Token },
    /// The parenthesis at `span` is nested deeper than `MAX_NESTING`.
    NestingTooDeep { span: Span },
}

/// What a parser error is, with texts as sequences of characters and
/// without the source text that a `Base` error is anchored in.
#[allow(inconsistent_fields)]
pub enum ParserErrorModel {
    Base { span: Span },
    UnexpectedToken { description: Seq<char>, token: Option<TokenModel> },
    EndOfInput,
    NotYetSupported { feature: Seq<char>, token: TokenModel },
    NestingTooDeep { span: Span },
}

impl View for ParserError {
    type V = ParserErrorModel;

    open spec fn view(&self) -> ParserErrorModel {
        match *self {
            ParserError::Base { span, .. } => ParserErrorModel::Base { span },
            ParserError::UnexpectedToken { description, token } => {
                ParserErrorModel::UnexpectedToken {
                    description: description@,
                    token: match token {
                        Some(token) => Some(token@),
                        None => None,
                    },
                }
            },
            ParserError::EndOfInput => ParserErrorModel::EndOfInput,
            ParserError::NotYetSupported { feature, token } => ParserErrorModel::NotYetSupported {
                feature: feature@,
                token: token@,
            },
            ParserError::NestingTooDeep { span } => ParserErrorModel::NestingTooDeep { span },
        }
    }
}

/// What a cursor is: the token sequence and a position in it. The position
/// may lie beyond the end.
pub struct CursorModel {
    pub tokens: Seq<TokenDataModel>,
    pub index: nat,
}

impl CursorModel {
    /// Whether the position has reached or passed the end.
    pub open spec fn done(self) -> bool {
        self.index >= self.tokens.len()
    }

    /// Whether `num` tokens are left at the position.
    pub open spec fn has(self, num: nat) -> bool {
        self.index + num <= self.tokens.len()
    }

    /// The token at the position, if there is one.
    pub open spec fn upcoming(self) -> Option<TokenDataModel> {
        if self.index < self.tokens.len() {
            Some(self.tokens[self.index as int])
        } else {
            None
        }
    }

    /// The next `num` tokens.
    pub open spec fn window(self, num: nat) -> Seq<TokenDataModel>
        recommends
            self.has(num),
    {
        self.tokens.subrange(self.index as int, (self.index + num) as int)
    }

    /// The cursor moved forward by `num` tokens.
    pub open spec fn advanced(self, num: nat) -> CursorModel {
        CursorModel { index: self.index + num, ..self }
    }

    /// The cursor moved to `index`.
    pub open spec fn at(self, index: nat) -> CursorModel {
        CursorModel { index, ..self }
    }

    /// What reading the token at the position gives.
    pub open spec fn read(self) -> Result<TokenDataModel, ParserErrorModel> {
        match self.upcoming() {
            Some(data) => Ok(data),
            None => Err(ParserErrorModel::EndOfInput),
        }
    }

    /// The error that reports the token at the position as unexpected.
    pub open spec fn unexpected(self, description: Seq<char>) -> ParserErrorModel {
        ParserErrorModel::UnexpectedToken {
            description,
            token: match self.upcoming() {
                Some(data) => Some(data.token),
                None => None,
            },
        }
    }

    /// Whether the token at the position is `token`.
    pub open spec fn upcoming_is(self, token: TokenModel) -> bool {
        self.upcoming() matches Some(data) && data.token == token
    }

    /// What demanding `token` at the position gives: its span where it is
    /// there, else an error that carries the token found.
    pub open spec fn demand(self, token: TokenModel, description: Seq<char>) -> Result<
        Span,
        ParserErrorModel,
    > {
        match self.upcoming() {
            Some(data) => if data.token == token {
                Ok(data.span)
            } else {
                Err(self.unexpected(description))
            },
            None => Err(ParserErrorModel::EndOfInput),
        }
    }

    /// What probing for `token` at the position gives: its span where it
    /// is there.
    pub open spec fn probe(self, token: TokenModel) -> Option<Span> {
        if self.upcoming_is(token) {
            Some(self.tokens[self.index as int].span)
        } else {
            None
        }
    }

    /// The cursor after probing for `token`: moved past it where it was
    /// there, else as before.
    pub open spec fn after_probe(self, token: TokenModel) -> CursorModel {
        if self.upcoming_is(token) {
            self.advanced(1)
        } else {
            self
        }
    }
}

/// A position over the immutable token sequence of one source unit.
#[derive(Debug, Clone)]
pub struct ParseInput {
    src: Source,
    tokens: Vec<TokenData>,
    index: usize,
}

/// A saved position of a cursor.
#[derive(Debug, Clone, Copy)]
pub struct Checkpoint {
    index: usize,
}

impl View for Checkpoint {
    type V = nat;

    /// The position that was saved.
    closed spec fn view(&self) -> nat {
        self.index as nat
    }
}

/// `Arc::clone`: one more handle to the same source text.
#[verifier::external_body]
fn share(src: &Source) -> (shared: Source)
    ensures
        shared == *src,
{
    Arc::clone(src)
}

impl View for ParseInput {
    type V = CursorModel;

    closed spec fn view(&self) -> CursorModel {
        CursorModel { tokens: tokens_model(self.tokens@), index: self.index as nat }
    }
}

impl ParseInput {
    /// The source text that the tokens were read from.
    pub closed spec fn source(&self) -> Source {
        self.src
    }

    /// The tokens and the position fit the machine's word.
    pub proof fn lemma_limits(&self)
        ensures
            self@.tokens.len() <= usize::MAX,
            self@.index <= usize::MAX,
    {
        assert(tokens_model(self.tokens@).len() == self.tokens.len());
    }

    /// A cursor at the first of `tokens`.
    pub fn new(src: Source, tokens: Vec<TokenData>) -> (input: Self)
        ensures
            input@ == (CursorModel { tokens: tokens_model(tokens@), index: 0 }),
            input.source() == src,
    {
        ParseInput { src, tokens, index: 0 }
    }

    /// The error for a construct that begins at the current token and is
    /// not implemented. There must be a current token.
    pub fn unsupported_error(&self, feature: &str) -> (error: ParserError)
        requires
            !self@.done(),
        ensures
            error@ == (ParserErrorModel::NotYetSupported {
                feature: feature@,
                token: self@.tokens[self@.index as int].token,
            }),
    {
        ParserError::NotYetSupported {
            feature: feature.to_string(),
            token: self.tokens[self.index].token.clone(),
        }
    }

    /// The error that reports the current token, or the end of the input,
    /// as unexpected.
    pub fn unexpected_token(&self, description: &str) -> (error: ParserError)
        ensures
            error@ == self@.unexpected(description@),
    {
        let token = if self.index < self.tokens.len() {
            Some(self.tokens[self.index].token.clone())
        } else {
            None
        };
        ParserError::UnexpectedToken { description: description.to_string(), token }
    }

    /// Saves the position.
    pub fn checkpoint(&self) -> (checkpoint: Checkpoint)
        ensures
            checkpoint@ == self@.index,
    {
        Checkpoint { index: self.index }
    }

    /// Moves back, or forward, to a saved position. Nothing else changes.
    pub fn restore(&mut self, checkpoint: Checkpoint)
        ensures
            final(self)@ == old(self)@.at(checkpoint@),
            final(self).source() == old(self).source(),
    {
        self.index = checkpoint.index
    }

    pub fn get_source(&self) -> (src: Source)
        ensures
            src == self.source(),
    {
        share(&self.src)
    }

    /// Whether the position has reached or passed the end of the tokens.
    pub fn done(&self) -> (done: bool)
        ensures
            done == self@.done(),
    {
        self.index >= self.tokens.len()
    }

    /// The current token, without moving.
    pub fn peek(&mut self) -> (result: Result<&TokenData, ParserError>)
        ensures
            final(self)@ == old(self)@,
            final(self).source() == old(self).source(),
            match result {
                Ok(data) => old(self)@.read() == Ok::<TokenDataModel, ParserErrorModel>(data@),
                Err(error) => old(self)@.read() == Err::<TokenDataModel, ParserErrorModel>(error@),
            },
    {
        if self.index < self.tokens.len() {
            Ok(&self.tokens[self.index])
        } else {
            Err(ParserError::EndOfInput)
        }
    }

    /// The current token; the position moves forward by one, also at the
    /// end of the input.
    pub fn next(&mut self) -> (result: Result<&TokenData, ParserError>)
        requires
            old(self)@.index < usize::MAX,
        ensures
            final(self)@ == old(self)@.advanced(1),
            final(self).source() == old(self).source(),
            match result {
                Ok(data) => old(self)@.read() == Ok::<TokenDataModel, ParserErrorModel>(data@),
                Err(error) => old(self)@.read() == Err::<TokenDataModel, ParserErrorModel>(error@),
            },
    {
        let index = self.index;
        self.index += 1;
        if index < self.tokens.len() {
            Ok(&self.tokens[index])
        } else {
            Err(ParserError::EndOfInput)
        }
    }

    /// Consumes one token and demands that it is `token`. The position
    /// moves forward by one whether or not the token matches; on a mismatch
    /// the error carries the token that was found.
    pub fn assert_next(&mut self, token: Token, description: &str) -> (result: Result<
        Span,
        ParserError,
    >)
        requires
            old(self)@.index < usize::MAX,
        ensures
            final(self)@ == old(self)@.advanced(1),
            final(self).source() == old(self).source(),
            match result {
                Ok(span) => old(self)@.demand(token@, description@) == Ok::<Span, ParserErrorModel>(
                    span,
                ),
                Err(error) => old(self)@.demand(token@, description@) == Err::<
                    Span,
                    ParserErrorModel,
                >(error@),
            },
    {
        match self.next() {
            Ok(next) => {
                if next.token == token {
                    Ok(next.span)
                } else {
                    Err(
                        ParserError::UnexpectedToken {
                            description: description.to_string(),
                            token: Some(next.token.clone()),
                        },
                    )
                }
            },
            Err(error) => Err(error),
        }
    }

    /// Consumes the current token if it is `token` and returns its span;
    /// otherwise leaves the position where it is and returns `None`.
    pub fn next_if(&mut self, token: Token) -> (span: Option<Span>)
        ensures
            span == old(self)@.probe(token@),
            final(self)@ == old(self)@.after_probe(token@),
            final(self).source() == old(self).source(),
    {
        if self.index < self.tokens.len() {
            if self.tokens[self.index].token == token {
                let span = self.tokens[self.index].span;
                self.index += 1;
                Some(span)
            } else {
                None
            }
        } else {
            None
        }
    }

    /// Whether `num` tokens are left at the position.
    pub fn has(&self, num: usize) -> (has: bool)
        ensures
            has == self@.has(num as nat),
    {
        num <= self.tokens.len() && self.index <= self.tokens.len() - num
    }

    /// Consumes the next `num` tokens as one window, or none of them where
    /// fewer are left.
    pub fn slice_next(&mut self, num: usize) -> (result: Result<&[TokenData], ParserError>)
        ensures
            final(self).source() == old(self).source(),
            match result {
                Ok(window) => {
                    &&& old(self)@.has(num as nat)
                    &&& tokens_model(window@) == old(self)@.window(num as nat)
                    &&& final(self)@ == old(self)@.advanced(num as nat)
                },
                Err(error) => {
                    &&& !old(self)@.has(num as nat)
                    &&& error@ == ParserErrorModel::EndOfInput
                    &&& final(self)@ == old(self)@
                },
            },
    {
        if self.has(num) {
            assert(tokens_model(self.tokens@).len() == self.tokens.len());
            let start = self.index;
            self.index += num;
            let result = slice_subrange(self.tokens.as_slice(), start, start + num);
            assert(tokens_model(result@) =~= old(self)@.window(num as nat));
            Ok(result)
        } else {
            Err(ParserError::EndOfInput)
        }
    }
}

/// Whether the arena can take what is left of the input: the position
/// lies within the tokens, and every table has room for one entry for
/// each token from the position on.
pub open spec fn fits(arena: ArenaModel, cursor: CursorModel) -> bool {
    &&& cursor.index <= cursor.tokens.len() < usize::MAX
    &&& arena.room((cursor.tokens.len() - cursor.index) as nat)
}

/// What every production keeps, whether it succeeds or fails: the arena
/// stays well formed and keeps all it held, where it held it, and the
/// cursor keeps its tokens.
pub open spec fn kept(
    input_before: &ParseInput,
    input_after: &ParseInput,
    before: &Component,
    after: &Component,
) -> bool {
    &&& after.wf()
    &&& after.src == before.src
    &&& after@.extends(before@)
    &&& input_after@.tokens == input_before@.tokens
    &&& input_after.source() == input_before.source()
}

/// What holds after a production has succeeded: the cursor stands at
/// `next`, which lies within the tokens and not before where it stood,
/// and no table of the arena has grown by more entries than tokens were
/// read.
pub open spec fn reached(
    input_before: &ParseInput,
    input_after: &ParseInput,
    before: &Component,
    after: &Component,
    next: nat,
) -> bool {
    &&& input_after@.index == next
    &&& input_before@.index <= next <= input_before@.tokens.len()
    &&& after@.grown_within(before@, (next - input_before@.index) as nat)
}

/// As `reached`, for a production that reads at least one token.
pub open spec fn moved(
    input_before: &ParseInput,
    input_after: &ParseInput,
    before: &Component,
    after: &Component,
    next: nat,
) -> bool {
    &&& reached(input_before, input_after, before, after, next)
    &&& input_before@.index < next
}

/// Whether `error` is the error that the grammar gives, anchored in the
/// source text of the cursor where it is a `Base` error.
pub open spec fn failed<T>(
    expected: grammar::Parsed<T>,
    error: ParserError,
    input: &ParseInput,
) -> bool {
    &&& expected == Err::<(T, nat), ParserErrorModel>(error@)
    &&& error matches ParserError::Base { src, .. } ==> src == input.source()
}

/// Merges two spans, or reports the region that cannot be expressed.
pub(crate) fn cover_spans(input: &ParseInput, left: Span, right: Span) -> (result: Result<
    Span,
    ParserError,
>)
    ensures
        match result {
            Ok(span) => grammar::cover(left, right) == Ok::<Span, ParserErrorModel>(span),
            Err(error) => {
                &&& grammar::cover(left, right) == Err::<Span, ParserErrorModel>(error@)
                &&& error matches ParserError::Base { src, .. } && src == input.source()
            },
        },
{
    match Span::merge(left, right) {
        Some(span) => Ok(span),
        None => Err(ParserError::Base { src: input.get_source(), span: left }),
    }
}

/// Restoring a checkpoint puts the cursor back where the checkpoint was
/// taken, wherever it has moved since: `saved` is the cursor when the
/// checkpoint was taken, `later` the same cursor at any later position.
pub proof fn law_restore_checkpoint(saved: CursorModel, later: CursorModel)
    requires
        later.tokens == saved.tokens,
    ensures
        later.at(saved.index) == saved,
{
}

/// A probe for a token that is not there changes nothing: it yields no
/// span, and the cursor reads the same token afterwards as before.
pub proof fn law_failed_probe_stays(cursor: CursorModel, token: TokenModel)
    requires
        !cursor.upcoming_is(token),
    ensures
        cursor.probe(token) is None,
        cursor.after_probe(token) == cursor,
        cursor.after_probe(token).read() == cursor.read(),
{
}

/// Parses the tokens of one source unit into a new arena. The handles of
/// an arena are 32 bits wide, so there must be fewer than `u32::MAX`
/// tokens.
///
/// The result is what the grammar assigns to the tokens: either the items
/// of the unit, laid out in an arena that held nothing before, or the one
/// error that the first failing production ends in.
pub fn parse(src: Source, tokens: Vec<TokenData>) -> (result: Result<Module, ParserError>)
    requires
        tokens@.len() < u32::MAX,
    ensures
        match result {
            Ok(module) => {
                &&& grammar::module(tokens_model(tokens@)) matches Ok(trees)
                &&& module.component@ == tree::layout_items(ArenaModel::empty(), trees)
                &&& module.component.wf()
                &&& module.component.src == src
            },
            Err(error) => {
                &&& grammar::module(tokens_model(tokens@)) == Err::<
                    Seq<tree::ItemTree>,
                    ParserErrorModel,
                >(error@)
                &&& error matches ParserError::Base { src: anchor, .. } ==> anchor == src
            },
        },
{
    let mut parse_input = ParseInput::new(src, tokens);
    module::parse_module(&mut parse_input)
}

/// Parsing depends on nothing but what the tokens are: two sequences of
/// the same tokens with the same spans are given the same items, and so
/// the same arena, or the same error.
pub proof fn law_parse_repeats(first: Seq<TokenData>, second: Seq<TokenData>)
    requires
        first.len() == second.len(),
        forall|i: int| 0 <= i < first.len() ==> first[i]@ == second[i]@,
    ensures
        grammar::module(tokens_model(first)) == grammar::module(tokens_model(second)),
        match grammar::module(tokens_model(first)) {
            Ok(trees) => grammar::module(tokens_model(second)) matches Ok(again)
                && tree::layout_items(ArenaModel::empty(), trees) == tree::layout_items(
                ArenaModel::empty(),
                again,
            ),
            Err(_) => true,
        },
{
    assert(tokens_model(first) =~= tokens_model(second));
}

} // verus!
