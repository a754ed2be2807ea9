use vstd::prelude::*;
use crate::number::Number;

verus! {

/// The comparison operators a conditional may use.
#[derive(Clone, Copy, Debug, PartialEq, Eq, Structural)]
pub enum ComparisonOperator {
    Equals,
    NotEquals,
    LessThan,
    GreaterThan,
    LessThanEquals,
    GreaterThanEquals,
    Contains,
}

/// One token of a tag's inline arguments.
#[derive(Debug)]
pub enum Token {
    StringLiteral(String),
    NumberLiteral(Number),
    Identifier(String),
    Comparison(ComparisonOperator),
}

/// One element of a template body: raw text, or a tag given by its name and
/// argument tokens together with its source text.
#[derive(Debug)]
pub enum Element {
    Raw(String),
    Tag(Vec<Token>, String),
}

/// A copy of a token, equal to it.
pub fn clone_token(t: &Token) -> (r: Token)
    ensures
        r == *t,
{
    match t {
        Token::StringLiteral(s) => Token::StringLiteral(s.clone()),
        Token::NumberLiteral(n) => Token::NumberLiteral(*n),
        Token::Identifier(s) => Token::Identifier(s.clone()),
        Token::Comparison(c) => Token::Comparison(*c),
    }
}

} // verus!
