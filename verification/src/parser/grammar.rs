//! The grammar: for each production, the syntax tree that it reads from a
//! token sequence at a position and the position behind it, or the error
//! that it ends in.
//!
//! A production that repeats a part goes on only where that part has moved
//! the position, which is what makes it end. The lemmas at the end of this
//! file show that every part that succeeds moves the position, so the other
//! branch of that test is never taken.
use vstd::prelude::*;

use crate::ast::expressions::{BinaryOp, Literal};
use crate::ast::types::ValType;
use crate::ast::Span;
use crate::lexer::{TokenDataModel, TokenModel};
use crate::parser::tree::{
    ExprTree, FunctionTree, GlobalTree, ItemTree, NameTree, ParamTree, SignatureTree,
    StatementTree, TypeTree,
};
use crate::parser::{CursorModel, ParserErrorModel, MAX_NESTING};

verus! {

/// What a production yields: a value and the position behind the tokens
/// it was read from, or an error.
pub type Parsed<T> = Result<(T, nat), ParserErrorModel>;

/// The cursor over `tokens` at `pos`.
pub open spec fn at(tokens: Seq<TokenDataModel>, pos: nat) -> CursorModel {
    CursorModel { tokens, index: pos }
}

/// The number of tokens from `pos` to the end.
pub open spec fn remaining(tokens: Seq<TokenDataModel>, pos: nat) -> nat {
    if pos <= tokens.len() {
        (tokens.len() - pos) as nat
    } else {
        0
    }
}

/// The region from the start of `left` through the end of `right`, or the
/// error for a region that cannot be expressed, anchored at `left`.
pub open spec fn cover(left: Span, right: Span) -> Result<Span, ParserErrorModel> {
    if left.reaches(right) {
        Ok(left.through(right))
    } else {
        Err(ParserErrorModel::Base { span: left })
    }
}

/// The value type that a token names.
pub open spec fn valtype_of(token: TokenModel) -> Option<ValType> {
    match token {
        TokenModel::Bool => Some(ValType::Bool),
        TokenModel::I32 => Some(ValType::I32),
        TokenModel::I64 => Some(ValType::I64),
        TokenModel::U32 => Some(ValType::U32),
        TokenModel::U64 => Some(ValType::U64),
        TokenModel::F32 => Some(ValType::F32),
        TokenModel::F64 => Some(ValType::F64),
        _ => None,
    }
}

/// The operator that a token stands for between two terms.
pub open spec fn additive_of(token: TokenModel) -> Option<BinaryOp> {
    match token {
        TokenModel::Add => Some(BinaryOp::Add),
        TokenModel::Sub => Some(BinaryOp::Subtract),
        _ => None,
    }
}

/// The operator that a token stands for between two atoms.
pub open spec fn multiplicative_of(token: TokenModel) -> Option<BinaryOp> {
    match token {
        TokenModel::Mult => Some(BinaryOp::Multiply),
        TokenModel::Div => Some(BinaryOp::Divide),
        _ => None,
    }
}

/// The additive operator at `pos`, if one is there.
pub open spec fn additive_at(tokens: Seq<TokenDataModel>, pos: nat) -> Option<BinaryOp> {
    match at(tokens, pos).upcoming() {
        Some(data) => additive_of(data.token),
        None => None,
    }
}

/// The multiplicative operator at `pos`, if one is there.
pub open spec fn multiplicative_at(tokens: Seq<TokenDataModel>, pos: nat) -> Option<BinaryOp> {
    match at(tokens, pos).upcoming() {
        Some(data) => multiplicative_of(data.token),
        None => None,
    }
}

/// type := `bool` | `i32` | `i64` | `u32` | `u64` | `f32` | `f64`
pub open spec fn type_tree(tokens: Seq<TokenDataModel>, pos: nat) -> Parsed<TypeTree> {
    match at(tokens, pos).upcoming() {
        None => Err(ParserErrorModel::EndOfInput),
        Some(data) => match valtype_of(data.token) {
            Some(valtype) => Ok((TypeTree { valtype, span: data.span }, pos + 1)),
            None => Err(at(tokens, pos).unexpected("a type"@)),
        },
    }
}

/// An identifier.
pub open spec fn identifier(tokens: Seq<TokenDataModel>, pos: nat) -> Parsed<NameTree> {
    match at(tokens, pos).upcoming() {
        None => Err(ParserErrorModel::EndOfInput),
        Some(data) => match data.token {
            TokenModel::Identifier(text) => Ok((NameTree { text, span: data.span }, pos + 1)),
            _ => Err(at(tokens, pos).unexpected("an identifier"@)),
        },
    }
}

/// The application of `op` to two operands, spanning both.
pub open spec fn binary(op: BinaryOp, left: ExprTree, right: ExprTree) -> Result<
    ExprTree,
    ParserErrorModel,
> {
    match cover(left.span(), right.span()) {
        Ok(span) => Ok(ExprTree::Binary { op, left: Box::new(left), right: Box::new(right), span }),
        Err(error) => Err(error),
    }
}

/// atom := integer | identifier | `(` expression `)`
///
/// `depth` is the number of parentheses that may still be opened, one
/// within the other.
pub open spec fn atom(tokens: Seq<TokenDataModel>, pos: nat, depth: nat) -> Parsed<ExprTree>
    decreases remaining(tokens, pos), 0nat,
{
    match at(tokens, pos).upcoming() {
        None => Err(ParserErrorModel::EndOfInput),
        Some(data) => match data.token {
            TokenModel::IntLiteral(value) => Ok(
                (ExprTree::Literal { literal: Literal::Integer(value), span: data.span }, pos + 1),
            ),
            TokenModel::Identifier(text) => Ok(
                (ExprTree::Identifier { name: NameTree { text, span: data.span } }, pos + 1),
            ),
            TokenModel::LParen => if depth == 0 {
                Err(ParserErrorModel::NestingTooDeep { span: data.span })
            } else {
                match expression(tokens, pos + 1, (depth - 1) as nat) {
                    Ok((inner, next)) => match at(tokens, next).demand(
                        TokenModel::RParen,
                        "a closing parenthesis"@,
                    ) {
                        Ok(_) => Ok((inner, next + 1)),
                        Err(error) => Err(error),
                    },
                    Err(error) => Err(error),
                }
            },
            _ => Err(at(tokens, pos).unexpected("an expression"@)),
        },
    }
}

/// term := atom ((`*` | `/`) atom)*
pub open spec fn term(tokens: Seq<TokenDataModel>, pos: nat, depth: nat) -> Parsed<ExprTree>
    decreases remaining(tokens, pos), 2nat,
{
    match atom(tokens, pos, depth) {
        Ok((left, next)) => if next > pos {
            term_rest(tokens, next, depth, left)
        } else {
            Ok((left, next))
        },
        Err(error) => Err(error),
    }
}

/// What follows the atoms of a term read so far, which make up `left`:
/// more operators and atoms, applied from left to right. An atom is at
/// least one token long (`lemma_atom_advances`), so the test that the
/// position moved never fails.
pub open spec fn term_rest(
    tokens: Seq<TokenDataModel>,
    pos: nat,
    depth: nat,
    left: ExprTree,
) -> Parsed<ExprTree>
    decreases remaining(tokens, pos), 1nat,
{
    match multiplicative_at(tokens, pos) {
        None => Ok((left, pos)),
        Some(op) => match atom(tokens, pos + 1, depth) {
            Ok((right, next)) => match binary(op, left, right) {
                Ok(joined) => if next > pos {
                    term_rest(tokens, next, depth, joined)
                } else {
                    Ok((joined, next))
                },
                Err(error) => Err(error),
            },
            Err(error) => Err(error),
        },
    }
}

/// expression := term ((`+` | `-`) term)*
pub open spec fn expression(tokens: Seq<TokenDataModel>, pos: nat, depth: nat) -> Parsed<ExprTree>
    decreases remaining(tokens, pos), 4nat,
{
    match term(tokens, pos, depth) {
        Ok((left, next)) => if next > pos {
            expression_rest(tokens, next, depth, left)
        } else {
            Ok((left, next))
        },
        Err(error) => Err(error),
    }
}

/// What follows the terms of an expression read so far, which make up
/// `left`: more operators and terms, applied from left to right.
pub open spec fn expression_rest(
    tokens: Seq<TokenDataModel>,
    pos: nat,
    depth: nat,
    left: ExprTree,
) -> Parsed<ExprTree>
    decreases remaining(tokens, pos), 3nat,
{
    match additive_at(tokens, pos) {
        None => Ok((left, pos)),
        Some(op) => match term(tokens, pos + 1, depth) {
            Ok((right, next)) => match binary(op, left, right) {
                Ok(joined) => if next > pos {
                    expression_rest(tokens, next, depth, joined)
                } else {
                    Ok((joined, next))
                },
                Err(error) => Err(error),
            },
            Err(error) => Err(error),
        },
    }
}

/// The type behind `marker`, where `marker` is at `pos`; no type, and
/// nothing read, where it is not.
pub open spec fn optional_type(tokens: Seq<TokenDataModel>, pos: nat, marker: TokenModel) -> Parsed<
    Option<TypeTree>,
> {
    if at(tokens, pos).upcoming_is(marker) {
        match type_tree(tokens, pos + 1) {
            Ok((tree, next)) => Ok((Some(tree), next)),
            Err(error) => Err(error),
        }
    } else {
        Ok((None, pos))
    }
}

/// expression `;` with the span of the semicolon. The expression may
/// nest parentheses `MAX_NESTING` deep.
pub open spec fn terminated_expression(tokens: Seq<TokenDataModel>, pos: nat) -> Parsed<
    (ExprTree, Span),
> {
    match expression(tokens, pos, MAX_NESTING as nat) {
        Ok((value, next)) => match at(tokens, next).demand(TokenModel::Semicolon, "a semicolon"@) {
            Ok(last) => Ok(((value, last), next + 1)),
            Err(error) => Err(error),
        },
        Err(error) => Err(error),
    }
}

/// `=` expression `;` with the span of the semicolon.
pub open spec fn initializer(tokens: Seq<TokenDataModel>, pos: nat) -> Parsed<(ExprTree, Span)> {
    match at(tokens, pos).demand(TokenModel::Assign, "an assignment"@) {
        Ok(_) => terminated_expression(tokens, pos + 1),
        Err(error) => Err(error),
    }
}

/// `let` [`mut`] identifier, with the span of the `let` and whether `mut`
/// is there.
pub open spec fn binding(tokens: Seq<TokenDataModel>, pos: nat) -> Parsed<(Span, bool, NameTree)> {
    match at(tokens, pos).demand(TokenModel::Let, "let"@) {
        Ok(first) => {
            let mutable = at(tokens, pos + 1).upcoming_is(TokenModel::Mut);
            match identifier(tokens, at(tokens, pos + 1).after_probe(TokenModel::Mut).index) {
                Ok((ident, next)) => Ok(((first, mutable, ident), next)),
                Err(error) => Err(error),
            }
        },
        Err(error) => Err(error),
    }
}

/// let := `let` [`mut`] identifier [`:` type] `=` expression `;`
pub open spec fn let_statement(tokens: Seq<TokenDataModel>, pos: nat) -> Parsed<StatementTree> {
    match binding(tokens, pos) {
        Ok(((first, mutable, ident), after_ident)) => match optional_type(
            tokens,
            after_ident,
            TokenModel::Colon,
        ) {
            Ok((annotation, after_annotation)) => match initializer(tokens, after_annotation) {
                Ok(((expression, last), next)) => match cover(first, last) {
                    Ok(span) => Ok(
                        (StatementTree::Let { mutable, ident, annotation, expression, span }, next),
                    ),
                    Err(error) => Err(error),
                },
                Err(error) => Err(error),
            },
            Err(error) => Err(error),
        },
        Err(error) => Err(error),
    }
}

/// assign := identifier `=` expression `;`
pub open spec fn assign_statement(tokens: Seq<TokenDataModel>, pos: nat) -> Parsed<StatementTree> {
    match identifier(tokens, pos) {
        Ok((ident, after_ident)) => match initializer(tokens, after_ident) {
            Ok(((expression, last), next)) => match cover(ident.span, last) {
                Ok(span) => Ok((StatementTree::Assign { ident, expression, span }, next)),
                Err(error) => Err(error),
            },
            Err(error) => Err(error),
        },
        Err(error) => Err(error),
    }
}

/// return := `return` expression `;`
pub open spec fn return_statement(tokens: Seq<TokenDataModel>, pos: nat) -> Parsed<StatementTree> {
    match at(tokens, pos).demand(TokenModel::Return, "return"@) {
        Ok(first) => match terminated_expression(tokens, pos + 1) {
            Ok(((expression, last), next)) => match cover(first, last) {
                Ok(span) => Ok((StatementTree::Return { expression, span }, next)),
                Err(error) => Err(error),
            },
            Err(error) => Err(error),
        },
        Err(error) => Err(error),
    }
}

/// Whether an assignment begins at `pos`: an identifier, then `=`.
pub open spec fn assignment_ahead(tokens: Seq<TokenDataModel>, pos: nat) -> bool {
    &&& at(tokens, pos).has(2)
    &&& at(tokens, pos).window(2)[0].token is Identifier
    &&& at(tokens, pos).window(2)[1].token == TokenModel::Assign
}

/// statement := let | assign | return
///
/// `if` and `loop` are known to begin a statement and not implemented.
pub open spec fn statement(tokens: Seq<TokenDataModel>, pos: nat) -> Parsed<StatementTree> {
    match at(tokens, pos).upcoming() {
        None => Err(ParserErrorModel::EndOfInput),
        Some(data) => match data.token {
            TokenModel::Let => let_statement(tokens, pos),
            TokenModel::Return => return_statement(tokens, pos),
            TokenModel::If => Err(
                ParserErrorModel::NotYetSupported {
                    feature: "if statements"@,
                    token: TokenModel::If,
                },
            ),
            TokenModel::Loop => Err(
                ParserErrorModel::NotYetSupported { feature: "loops"@, token: TokenModel::Loop },
            ),
            _ => if assignment_ahead(tokens, pos) {
                assign_statement(tokens, pos)
            } else {
                Err(at(tokens, pos).unexpected("a statement"@))
            },
        },
    }
}

/// The statements from `pos` up to the closing brace, behind the
/// statements `done` that were read before. A statement is at least one
/// token long (`lemma_statement_advances`), so the test that the position
/// moved never fails.
pub open spec fn body(tokens: Seq<TokenDataModel>, pos: nat, done: Seq<StatementTree>) -> Parsed<
    Seq<StatementTree>,
>
    decreases remaining(tokens, pos),
{
    if at(tokens, pos).upcoming_is(TokenModel::RBrace) {
        Ok((done, pos + 1))
    } else {
        match statement(tokens, pos) {
            Ok((tree, next)) => if pos < next && pos < tokens.len() {
                body(tokens, next, done.push(tree))
            } else {
                Ok((done.push(tree), next))
            },
            Err(error) => Err(error),
        }
    }
}

/// param := identifier `:` type
pub open spec fn param(tokens: Seq<TokenDataModel>, pos: nat) -> Parsed<ParamTree> {
    match identifier(tokens, pos) {
        Ok((ident, _)) => match at(tokens, pos + 1).demand(TokenModel::Colon, "a colon"@) {
            Ok(_) => match type_tree(tokens, pos + 2) {
                Ok((valtype, _)) => Ok((ParamTree { ident, valtype }, pos + 3)),
                Err(error) => Err(error),
            },
            Err(error) => Err(error),
        },
        Err(error) => Err(error),
    }
}

/// The parameters from `pos` through the closing parenthesis, behind the
/// parameters `done` that were read before.
pub open spec fn params_rest(tokens: Seq<TokenDataModel>, pos: nat, done: Seq<ParamTree>) -> Parsed<
    Seq<ParamTree>,
>
    decreases remaining(tokens, pos),
{
    match param(tokens, pos) {
        Ok((tree, next)) => match at(tokens, next).upcoming() {
            None => Err(ParserErrorModel::EndOfInput),
            Some(data) => match data.token {
                TokenModel::RParen => Ok((done.push(tree), next + 1)),
                TokenModel::Comma => if pos < next {
                    params_rest(tokens, next + 1, done.push(tree))
                } else {
                    Ok((done.push(tree), next + 1))
                },
                _ => Err(at(tokens, next).unexpected("a comma or a closing parenthesis"@)),
            },
        },
        Err(error) => Err(error),
    }
}

/// params := [param (`,` param)*] `)`
pub open spec fn params(tokens: Seq<TokenDataModel>, pos: nat) -> Parsed<Seq<ParamTree>> {
    if at(tokens, pos).upcoming_is(TokenModel::RParen) {
        Ok((Seq::empty(), pos + 1))
    } else {
        params_rest(tokens, pos, Seq::empty())
    }
}

/// What stands between the identifier and the parameters: nothing for a
/// function, `:` `func` for an import. Gives the position behind it.
pub open spec fn signature_marks(tokens: Seq<TokenDataModel>, pos: nat, imported: bool) -> Result<
    nat,
    ParserErrorModel,
> {
    if imported {
        match at(tokens, pos).demand(TokenModel::Colon, "a colon"@) {
            Ok(_) => match at(tokens, pos + 1).demand(TokenModel::Func, "func"@) {
                Ok(_) => Ok(pos + 2),
                Err(error) => Err(error),
            },
            Err(error) => Err(error),
        }
    } else {
        Ok(pos)
    }
}

/// signature := identifier [`:` `func`] `(` params [`->` type]
///
/// `:` `func` is there for an import and only for an import.
pub open spec fn signature(tokens: Seq<TokenDataModel>, pos: nat, imported: bool) -> Parsed<
    SignatureTree,
> {
    match identifier(tokens, pos) {
        Ok((ident, after_ident)) => match signature_marks(tokens, after_ident, imported) {
            Ok(after_marks) => match at(tokens, after_marks).demand(
                TokenModel::LParen,
                "an opening parenthesis"@,
            ) {
                Ok(_) => match params(tokens, after_marks + 1) {
                    Ok((params, after_params)) => match optional_type(
                        tokens,
                        after_params,
                        TokenModel::Arrow,
                    ) {
                        Ok((return_type, next)) => Ok(
                            (SignatureTree { ident, params, return_type }, next),
                        ),
                        Err(error) => Err(error),
                    },
                    Err(error) => Err(error),
                },
                Err(error) => Err(error),
            },
            Err(error) => Err(error),
        },
        Err(error) => Err(error),
    }
}

/// function := [`export`] `func` signature `{` statement* `}`
pub open spec fn function(tokens: Seq<TokenDataModel>, pos: nat) -> Parsed<FunctionTree> {
    let exported = at(tokens, pos).upcoming_is(TokenModel::Export);
    let start = at(tokens, pos).after_probe(TokenModel::Export).index;
    match at(tokens, start).demand(TokenModel::Func, "func"@) {
        Ok(_) => match signature(tokens, start + 1, false) {
            Ok((signature, after_signature)) => match at(tokens, after_signature).demand(
                TokenModel::LBrace,
                "an opening brace"@,
            ) {
                Ok(_) => match body(tokens, after_signature + 1, Seq::empty()) {
                    Ok((body, next)) => Ok((FunctionTree { exported, signature, body }, next)),
                    Err(error) => Err(error),
                },
                Err(error) => Err(error),
            },
            Err(error) => Err(error),
        },
        Err(error) => Err(error),
    }
}

/// global := [`export`] `let` [`mut`] identifier `:` type `=` expression `;`
pub open spec fn global(tokens: Seq<TokenDataModel>, pos: nat) -> Parsed<GlobalTree> {
    let exported = at(tokens, pos).upcoming_is(TokenModel::Export);
    let start = at(tokens, pos).after_probe(TokenModel::Export).index;
    match binding(tokens, start) {
        Ok(((_, mutable, ident), after_ident)) => match at(tokens, after_ident).demand(
            TokenModel::Colon,
            "a colon"@,
        ) {
            Ok(_) => match type_tree(tokens, after_ident + 1) {
                Ok((valtype, after_type)) => match initializer(tokens, after_type) {
                    Ok(((init_value, _), next)) => Ok(
                        (GlobalTree { exported, mutable, ident, valtype, init_value }, next),
                    ),
                    Err(error) => Err(error),
                },
                Err(error) => Err(error),
            },
            Err(error) => Err(error),
        },
        Err(error) => Err(error),
    }
}

/// import := `import` identifier `:` `func` `(` params [`->` type] `;`
pub open spec fn import(tokens: Seq<TokenDataModel>, pos: nat) -> Parsed<SignatureTree> {
    match at(tokens, pos).demand(TokenModel::Import, "import"@) {
        Ok(_) => match signature(tokens, pos + 1, true) {
            Ok((signature, after_signature)) => match at(tokens, after_signature).demand(
                TokenModel::Semicolon,
                "a semicolon"@,
            ) {
                Ok(_) => Ok((signature, after_signature + 1)),
                Err(error) => Err(error),
            },
            Err(error) => Err(error),
        },
        Err(error) => Err(error),
    }
}

/// What kind of item begins at a position.
pub enum ItemKind {
    Import,
    Global,
    Function,
}

/// The kind of item that begins at `pos`, told by the token behind an
/// `export`, if there is one: `func` begins a function, `let` a global,
/// and `import`, which cannot be exported, an import.
pub open spec fn item_kind(tokens: Seq<TokenDataModel>, pos: nat) -> Result<
    ItemKind,
    ParserErrorModel,
> {
    let exported = at(tokens, pos).upcoming_is(TokenModel::Export);
    let start = at(tokens, pos).after_probe(TokenModel::Export);
    match start.upcoming() {
        None => Err(ParserErrorModel::EndOfInput),
        Some(data) => match data.token {
            TokenModel::Func => Ok(ItemKind::Function),
            TokenModel::Let => Ok(ItemKind::Global),
            TokenModel::Import => if exported {
                Err(start.unexpected("an item"@))
            } else {
                Ok(ItemKind::Import)
            },
            _ => Err(start.unexpected("an item"@)),
        },
    }
}

/// item := import | global | function
pub open spec fn item(tokens: Seq<TokenDataModel>, pos: nat) -> Parsed<ItemTree> {
    match item_kind(tokens, pos) {
        Ok(ItemKind::Import) => match import(tokens, pos) {
            Ok((tree, next)) => Ok((ItemTree::Import(tree), next)),
            Err(error) => Err(error),
        },
        Ok(ItemKind::Global) => match global(tokens, pos) {
            Ok((tree, next)) => Ok((ItemTree::Global(tree), next)),
            Err(error) => Err(error),
        },
        Ok(ItemKind::Function) => match function(tokens, pos) {
            Ok((tree, next)) => Ok((ItemTree::Function(tree), next)),
            Err(error) => Err(error),
        },
        Err(error) => Err(error),
    }
}

/// The items from `pos` to the end of the input, behind the items `done`
/// that were read before. An item is at least one token long
/// (`lemma_item_advances`), so the test that the position moved never
/// fails.
pub open spec fn items(tokens: Seq<TokenDataModel>, pos: nat, done: Seq<ItemTree>) -> Result<
    Seq<ItemTree>,
    ParserErrorModel,
>
    decreases remaining(tokens, pos),
{
    if pos >= tokens.len() {
        Ok(done)
    } else {
        match item(tokens, pos) {
            Ok((tree, next)) => if pos < next {
                items(tokens, next, done.push(tree))
            } else {
                Ok(done.push(tree))
            },
            Err(error) => Err(error),
        }
    }
}

/// module := item*
pub open spec fn module(tokens: Seq<TokenDataModel>) -> Result<Seq<ItemTree>, ParserErrorModel> {
    items(tokens, 0, Seq::empty())
}

/// Whether a production that began at `pos` ended behind `pos` and within
/// the tokens, where it succeeded.
pub open spec fn advances<T>(tokens: Seq<TokenDataModel>, pos: nat, parsed: Parsed<T>) -> bool {
    parsed matches Ok((_, next)) ==> pos < next <= tokens.len()
}

/// Whether what follows the first operand, read from `pos` on, ended at
/// or behind `pos` and within the tokens, where it succeeded.
pub open spec fn continues<T>(tokens: Seq<TokenDataModel>, pos: nat, parsed: Parsed<T>) -> bool {
    parsed matches Ok((_, next)) ==> pos <= next <= tokens.len()
}

/// An atom that was read is at least one token long and ends within the
/// tokens.
pub proof fn lemma_atom_advances(tokens: Seq<TokenDataModel>, pos: nat, depth: nat)
    ensures
        advances(tokens, pos, atom(tokens, pos, depth)),
    decreases remaining(tokens, pos), 0nat,
{
    if at(tokens, pos).upcoming_is(TokenModel::LParen) && depth > 0 {
        lemma_expression_advances(tokens, pos + 1, (depth - 1) as nat);
    }
}

/// What follows the first atom of a term ends within the tokens.
pub proof fn lemma_term_rest_continues(
    tokens: Seq<TokenDataModel>,
    pos: nat,
    depth: nat,
    left: ExprTree,
)
    requires
        pos <= tokens.len(),
    ensures
        continues(tokens, pos, term_rest(tokens, pos, depth, left)),
    decreases remaining(tokens, pos), 1nat,
{
    if let Some(op) = multiplicative_at(tokens, pos) {
        lemma_atom_advances(tokens, pos + 1, depth);
        if let Ok((right, next)) = atom(tokens, pos + 1, depth) {
            if let Ok(joined) = binary(op, left, right) {
                lemma_term_rest_continues(tokens, next, depth, joined);
            }
        }
    }
}

/// A term that was read is at least one token long and ends within the
/// tokens.
pub proof fn lemma_term_advances(tokens: Seq<TokenDataModel>, pos: nat, depth: nat)
    ensures
        advances(tokens, pos, term(tokens, pos, depth)),
    decreases remaining(tokens, pos), 2nat,
{
    lemma_atom_advances(tokens, pos, depth);
    if let Ok((left, next)) = atom(tokens, pos, depth) {
        lemma_term_rest_continues(tokens, next, depth, left);
    }
}

/// What follows the first term of an expression ends within the tokens.
pub proof fn lemma_expression_rest_continues(
    tokens: Seq<TokenDataModel>,
    pos: nat,
    depth: nat,
    left: ExprTree,
)
    requires
        pos <= tokens.len(),
    ensures
        continues(tokens, pos, expression_rest(tokens, pos, depth, left)),
    decreases remaining(tokens, pos), 3nat,
{
    if let Some(op) = additive_at(tokens, pos) {
        lemma_term_advances(tokens, pos + 1, depth);
        if let Ok((right, next)) = term(tokens, pos + 1, depth) {
            if let Ok(joined) = binary(op, left, right) {
                lemma_expression_rest_continues(tokens, next, depth, joined);
            }
        }
    }
}

/// An expression that was read is at least one token long and ends within
/// the tokens.
pub proof fn lemma_expression_advances(tokens: Seq<TokenDataModel>, pos: nat, depth: nat)
    ensures
        advances(tokens, pos, expression(tokens, pos, depth)),
    decreases remaining(tokens, pos), 4nat,
{
    lemma_term_advances(tokens, pos, depth);
    if let Ok((left, next)) = term(tokens, pos, depth) {
        lemma_expression_rest_continues(tokens, next, depth, left);
    }
}

/// A statement that was read is at least one token long and ends within
/// the tokens.
pub proof fn lemma_statement_advances(tokens: Seq<TokenDataModel>, pos: nat)
    ensures
        advances(tokens, pos, statement(tokens, pos)),
{
    let depth = MAX_NESTING as nat;
    if let Ok(((_, _, _), after_ident)) = binding(tokens, pos) {
        if let Ok((_, after_annotation)) = optional_type(tokens, after_ident, TokenModel::Colon) {
            lemma_expression_advances(tokens, after_annotation + 1, depth);
        }
    }
    lemma_expression_advances(tokens, pos + 1, depth);
    lemma_expression_advances(tokens, pos + 2, depth);
}

/// A parameter list that was read, with its closing parenthesis, ends
/// within the tokens.
pub proof fn lemma_params_rest_advances(
    tokens: Seq<TokenDataModel>,
    pos: nat,
    done: Seq<ParamTree>,
)
    ensures
        advances(tokens, pos, params_rest(tokens, pos, done)),
    decreases remaining(tokens, pos),
{
    if let Ok((tree, next)) = param(tokens, pos) {
        if at(tokens, next).upcoming_is(TokenModel::Comma) {
            lemma_params_rest_advances(tokens, next + 1, done.push(tree));
        }
    }
}

/// A body that was read, with its closing brace, ends within the tokens.
pub proof fn lemma_body_advances(tokens: Seq<TokenDataModel>, pos: nat, done: Seq<StatementTree>)
    ensures
        advances(tokens, pos, body(tokens, pos, done)),
    decreases remaining(tokens, pos),
{
    if !at(tokens, pos).upcoming_is(TokenModel::RBrace) {
        lemma_statement_advances(tokens, pos);
        if let Ok((tree, next)) = statement(tokens, pos) {
            lemma_body_advances(tokens, next, done.push(tree));
        }
    }
}

/// An item that was read is at least one token long and ends within the
/// tokens.
pub proof fn lemma_item_advances(tokens: Seq<TokenDataModel>, pos: nat)
    ensures
        advances(tokens, pos, item(tokens, pos)),
{
    let depth = MAX_NESTING as nat;
    let start = at(tokens, pos).after_probe(TokenModel::Export).index;
    // a function
    if let Ok((_, after_signature)) = signature(tokens, start + 1, false) {
        lemma_signature_advances(tokens, start + 1, false);
        lemma_body_advances(tokens, after_signature + 1, Seq::empty());
    }
    // a global
    if let Ok(((_, _, _), after_ident)) = binding(tokens, start) {
        if let Ok((_, after_type)) = type_tree(tokens, after_ident + 1) {
            lemma_expression_advances(tokens, after_type + 1, depth);
        }
    }
    // an import
    lemma_signature_advances(tokens, pos + 1, true);
}

/// A signature that was read is at least one token long and ends within
/// the tokens.
pub proof fn lemma_signature_advances(tokens: Seq<TokenDataModel>, pos: nat, imported: bool)
    ensures
        advances(tokens, pos, signature(tokens, pos, imported)),
{
    if let Ok((_, after_ident)) = identifier(tokens, pos) {
        if let Ok(after_marks) = signature_marks(tokens, after_ident, imported) {
            lemma_params_rest_advances(tokens, after_marks + 1, Seq::empty());
        }
    }
}

} // verus!
