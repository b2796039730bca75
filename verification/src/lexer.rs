//! What the lexer hands to the parser: tokens, each with the span of
//! source text it was read from.
use vstd::prelude::*;
use vstd::std_specs::cmp::PartialEqSpecImpl;

use crate::ast::Span;

verus! {

/// One lexical unit of the language.
#[derive(Debug)]
pub enum Token {
    /// `{`
    LBrace,
    /// `}`
    RBrace,
    /// `(`
    LParen,
    /// `)`
    RParen,
    /// `,`
    Comma,
    /// `:`
    Colon,
    /// `;`
    Semicolon,
    /// `->`
    Arrow,
    /// `=`
    Assign,
    /// `+`
    Add,
    /// `-`
    Sub,
    /// `*`
    Mult,
    /// `/`
    Div,
    /// `export`
    Export,
    /// `import`
    Import,
    /// `func`
    Func,
    /// `let`
    Let,
    /// `mut`
    Mut,
    /// `return`
    Return,
    /// `if`
    If,
    /// `loop`
    Loop,
    /// `bool`
    Bool,
    /// `i32`
    I32,
    /// `i64`
    I64,
    /// `u32`
    U32,
    /// `u64`
    U64,
    /// `f32`
    F32,
    /// `f64`
    F64,
    /// An identifier, with its text.
    Identifier(String),
    /// An integer literal, with its value.
    IntLiteral(u64),
}

/// What a token is: as `Token`, with the text of an identifier as a
/// sequence of characters.
pub enum TokenModel {
    /// `{`
    LBrace,
    /// `}`
    RBrace,
    /// `(`
    LParen,
    /// `)`
    RParen,
    /// `,`
    Comma,
    /// `:`
    Colon,
    /// `;`
    Semicolon,
    /// `->`
    Arrow,
    /// `=`
    Assign,
    /// `+`
    Add,
    /// `-`
    Sub,
    /// `*`
    Mult,
    /// `/`
    Div,
    /// `export`
    Export,
    /// `import`
    Import,
    /// `func`
    Func,
    /// `let`
    Let,
    /// `mut`
    Mut,
    /// `return`
    Return,
    /// `if`
    If,
    /// `loop`
    Loop,
    /// `bool`
    Bool,
    /// `i32`
    I32,
    /// `i64`
    I64,
    /// `u32`
    U32,
    /// `u64`
    U64,
    /// `f32`
    F32,
    /// `f64`
    F64,
    /// An identifier, with its text.
    Identifier(Seq<char>),
    /// An integer literal, with its value.
    IntLiteral(u64),
}

impl View for Token {
    type V = TokenModel;

    open spec fn view(&self) -> TokenModel {
        match *self {
            Token::LBrace => TokenModel::LBrace,
            Token::RBrace => TokenModel::RBrace,
            Token::LParen => TokenModel::LParen,
            Token::RParen => TokenModel::RParen,
            Token::Comma => TokenModel::Comma,
            Token::Colon => TokenModel::Colon,
            Token::Semicolon => TokenModel::Semicolon,
            Token::Arrow => TokenModel::Arrow,
            Token::Assign => TokenModel::Assign,
            Token::Add => TokenModel::Add,
            Token::Sub => TokenModel::Sub,
            Token::Mult => TokenModel::Mult,
            Token::Div => TokenModel::Div,
            Token::Export => TokenModel::Export,
            Token::Import => TokenModel::Import,
            Token::Func => TokenModel::Func,
            Token::Let => TokenModel::Let,
            Token::Mut => TokenModel::Mut,
            Token::Return => TokenModel::Return,
            Token::If => TokenModel::If,
            Token::Loop => TokenModel::Loop,
            Token::Bool => TokenModel::Bool,
            Token::I32 => TokenModel::I32,
            Token::I64 => TokenModel::I64,
            Token::U32 => TokenModel::U32,
            Token::U64 => TokenModel::U64,
            Token::F32 => TokenModel::F32,
            Token::F64 => TokenModel::F64,
            Token::Identifier(text) => TokenModel::Identifier(text@),
            Token::IntLiteral(value) => TokenModel::IntLiteral(value),
        }
    }
}

impl Clone for Token {
    fn clone(&self) -> (token: Self)
        ensures
            token == *self,
    {
        match self {
            Token::LBrace => Token::LBrace,
            Token::RBrace => Token::RBrace,
            Token::LParen => Token::LParen,
            Token::RParen => Token::RParen,
            Token::Comma => Token::Comma,
            Token::Colon => Token::Colon,
            Token::Semicolon => Token::Semicolon,
            Token::Arrow => Token::Arrow,
            Token::Assign => Token::Assign,
            Token::Add => Token::Add,
            Token::Sub => Token::Sub,
            Token::Mult => Token::Mult,
            Token::Div => Token::Div,
            Token::Export => Token::Export,
            Token::Import => Token::Import,
            Token::Func => Token::Func,
            Token::Let => Token::Let,
            Token::Mut => Token::Mut,
            Token::Return => Token::Return,
            Token::If => Token::If,
            Token::Loop => Token::Loop,
            Token::Bool => Token::Bool,
            Token::I32 => Token::I32,
            Token::I64 => Token::I64,
            Token::U32 => Token::U32,
            Token::U64 => Token::U64,
            Token::F32 => Token::F32,
            Token::F64 => Token::F64,
            Token::Identifier(text) => Token::Identifier(text.clone()),
            Token::IntLiteral(value) => Token::IntLiteral(*value),
        }
    }
}

impl PartialEq for Token {
    /// Two tokens are equal when they are the same lexical unit: the same
    /// kind, and for identifiers and literals the same text or value.
    fn eq(&self, other: &Token) -> (equal: bool) {
        match (self, other) {
            (Token::LBrace, Token::LBrace) => true,
            (Token::RBrace, Token::RBrace) => true,
            (Token::LParen, Token::LParen) => true,
            (Token::RParen, Token::RParen) => true,
            (Token::Comma, Token::Comma) => true,
            (Token::Colon, Token::Colon) => true,
            (Token::Semicolon, Token::Semicolon) => true,
            (Token::Arrow, Token::Arrow) => true,
            (Token::Assign, Token::Assign) => true,
            (Token::Add, Token::Add) => true,
            (Token::Sub, Token::Sub) => true,
            (Token::Mult, Token::Mult) => true,
            (Token::Div, Token::Div) => true,
            (Token::Export, Token::Export) => true,
            (Token::Import, Token::Import) => true,
            (Token::Func, Token::Func) => true,
            (Token::Let, Token::Let) => true,
            (Token::Mut, Token::Mut) => true,
            (Token::Return, Token::Return) => true,
            (Token::If, Token::If) => true,
            (Token::Loop, Token::Loop) => true,
            (Token::Bool, Token::Bool) => true,
            (Token::I32, Token::I32) => true,
            (Token::I64, Token::I64) => true,
            (Token::U32, Token::U32) => true,
            (Token::U64, Token::U64) => true,
            (Token::F32, Token::F32) => true,
            (Token::F64, Token::F64) => true,
            (Token::Identifier(left), Token::Identifier(right)) => *left == *right,
            (Token::IntLiteral(left), Token::IntLiteral(right)) => *left == *right,
            _ => false,
        }
    }
}

impl PartialEqSpecImpl for Token {
    open spec fn obeys_eq_spec() -> bool {
        true
    }

    open spec fn eq_spec(&self, other: &Token) -> bool {
        self@ == other@
    }
}

impl Eq for Token {

}

/// A token and the span of source text it was read from.
#[derive(Debug, Clone)]
pub struct TokenData {
    pub token: Token,
    pub span: Span,
}

/// What a token with its span is.
pub struct TokenDataModel {
    pub token: TokenModel,
    pub span: Span,
}

impl View for TokenData {
    type V = TokenDataModel;

    open spec fn view(&self) -> TokenDataModel {
        TokenDataModel { token: self.token@, span: self.span }
    }
}

/// What a token sequence is: the model of each token, in order.
pub open spec fn tokens_model(tokens: Seq<TokenData>) -> Seq<TokenDataModel> {
    tokens.map_values(|data: TokenData| data@)
}

} // verus!
