//! The host language's own parser, reached through `syn`. The transformers
//! hand it the text of an embedded expression and store that text; they never
//! look inside it.
//!
//! Every call here reads the text with the lexer that `proc-macro2` has
//! written in Rust, never with that of a compiler the process may run in:
//! each wrapper first calls `proc_macro2::fallback::force`, which selects
//! that lexer for the process. What the names below stand for is the parse
//! under that lexer.

use vstd::prelude::*;
use crate::token::{Token, Delimiter, ErrorKind, ParseError, ParseErrorView, fail, refused, error, paren_at, ident_at, text_of};

verus! {

/// The message with which the host parser, on the tokens that the lexer
/// written in Rust makes of `text`, refuses to read them, whole, as one
/// expression; `None` where it accepts them.
pub uninterp spec fn expr_refusal(text: Seq<char>) -> Option<Seq<char>>;

/// Whether the host parser reads `text`, whole, as one expression.
pub open spec fn expr_parses(text: Seq<char>) -> bool {
    expr_refusal(text).is_none()
}

/// Whether the host parser, on the tokens that the lexer written in Rust
/// makes of `text`, reads them, whole, as one identifier that is no keyword.
pub uninterp spec fn ident_parses(text: Seq<char>) -> bool;

/// The value of the string literal that `text` spells under the lexer
/// written in Rust, its escapes resolved; `None` where `text` is no string
/// literal.
pub uninterp spec fn str_literal_value(text: Seq<char>) -> Option<Seq<char>>;

/// Calls `proc_macro2::fallback::force`, then
/// `syn::parse_str::<syn::LitStr>`, which accepts the text if it is one
/// string literal, and then `syn::LitStr::value`, which gives the literal's
/// content with its escapes resolved. The contract names the outcome:
/// `None` exactly when the parse returns `Err`, otherwise the value.
#[verifier::external_body]
pub(crate) fn str_value(text: &str) -> (r: Option<String>)
    ensures
        match r {
            Some(value) => str_literal_value(text@) == Some(value@),
            None => str_literal_value(text@).is_none(),
        },
{
    proc_macro2::fallback::force();
    match syn::parse_str::<syn::LitStr>(text) {
        Ok(literal) => Some(literal.value()),
        Err(_) => None,
    }
}

/// Calls `proc_macro2::fallback::force`, then
/// `syn::parse_str::<syn::Expr>`, which lexes the text and parses all of it
/// as one expression. The contract names the outcome: `Ok` exactly
/// when that call returns `Ok`, and otherwise the message of the error that
/// the call returns, as `syn::Error` displays it.
#[verifier::external_body]
pub(crate) fn check_expr(text: &str) -> (r: Result<(), String>)
    ensures
        match r {
            Ok(_) => expr_refusal(text@).is_none(),
            Err(detail) => expr_refusal(text@) == Some(detail@),
        },
{
    proc_macro2::fallback::force();
    match syn::parse_str::<syn::Expr>(text) {
        Ok(_) => Ok(()),
        Err(refusal) => Err(refusal.to_string()),
    }
}

/// Tests whether the host parser reads `text`, whole, as one expression.
pub fn is_expr(text: &str) -> (b: bool)
    ensures
        b == expr_parses(text@),
{
    check_expr(text).is_ok()
}

/// Reads `text` as an embedded expression found at position `at`: gives
/// the text back, or the error that carries the host parser's message.
pub fn embedded(text: &str, at: usize) -> (r: Result<String, ParseError>)
    ensures
        text_of(r) == embedded_at(text@, at as int),
{
    match check_expr(text) {
        Ok(_) => Ok(String::from_str(text)),
        Err(detail) => Err(ParseError { kind: ErrorKind::Expression, at, detail }),
    }
}

/// Calls `proc_macro2::fallback::force`, then
/// `syn::parse_str::<syn::Ident>`, which lexes the text and accepts it if it
/// is a single identifier other than a keyword or `_`. The contract
/// names the outcome: it is `true` exactly when that call returns `Ok`.
#[verifier::external_body]
pub(crate) fn is_ident(text: &str) -> (b: bool)
    ensures
        b == ident_parses(text@),
{
    proc_macro2::fallback::force();
    syn::parse_str::<syn::Ident>(text).is_ok()
}

/// The text `text`, found at position `i`, as an embedded expression: the
/// text itself where the host parser accepts it, and otherwise the error
/// that carries the parser's message.
pub open spec fn embedded_at(text: Seq<char>, i: int) -> Result<Seq<char>, ParseErrorView> {
    match expr_refusal(text) {
        None => Ok(text),
        Some(detail) => Err(refused(i, detail)),
    }
}

/// The embedded expression expected at position `i`: the text of a
/// parenthesized group that the host parser accepts as an expression.
pub open spec fn expr_group_at(ts: Seq<Token>, i: int) -> Result<Seq<char>, ParseErrorView> {
    match paren_at(ts, i) {
        None => Err(fail(ErrorKind::Missing, i)),
        Some(text) => embedded_at(text, i),
    }
}

/// The assignment target expected at position `i`: the text of a
/// parenthesized group that holds a bare identifier.
pub open spec fn ident_group_at(ts: Seq<Token>, i: int) -> Result<Seq<char>, ParseErrorView> {
    match paren_at(ts, i) {
        None => Err(fail(ErrorKind::Missing, i)),
        Some(text) => if ident_parses(text) {
            Ok(text)
        } else {
            Err(fail(ErrorKind::Grammar, i))
        },
    }
}

/// The name expected at position `i`: an identifier token that is no keyword.
pub open spec fn name_at(ts: Seq<Token>, i: int) -> Result<Seq<char>, ParseErrorView> {
    match ident_at(ts, i) {
        None => Err(fail(ErrorKind::Missing, i)),
        Some(text) => if ident_parses(text) {
            Ok(text)
        } else {
            Err(fail(ErrorKind::Missing, i))
        },
    }
}

/// Reads the embedded expression at position `i`.
pub fn expr_group(tokens: &Vec<Token>, i: usize) -> (r: Result<String, ParseError>)
    ensures
        text_of(r) == expr_group_at(tokens@, i as int),
{
    if i < tokens.len() {
        match &tokens[i] {
            Token::Group(Delimiter::Parenthesis, text) => embedded(text.as_str(), i),
            _ => Err(error(ErrorKind::Missing, i)),
        }
    } else {
        Err(error(ErrorKind::Missing, i))
    }
}

/// Reads the assignment target at position `i`.
pub fn ident_group(tokens: &Vec<Token>, i: usize) -> (r: Result<String, ParseError>)
    ensures
        text_of(r) == ident_group_at(tokens@, i as int),
{
    if i < tokens.len() {
        match &tokens[i] {
            Token::Group(Delimiter::Parenthesis, text) => {
                if is_ident(text.as_str()) {
                    Ok(text.clone())
                } else {
                    Err(error(ErrorKind::Grammar, i))
                }
            },
            _ => Err(error(ErrorKind::Missing, i)),
        }
    } else {
        Err(error(ErrorKind::Missing, i))
    }
}

/// Reads the name at position `i`.
pub fn name(tokens: &Vec<Token>, i: usize) -> (r: Result<String, ParseError>)
    ensures
        text_of(r) == name_at(tokens@, i as int),
{
    if i < tokens.len() {
        match &tokens[i] {
            Token::Ident(text) => {
                if is_ident(text.as_str()) {
                    Ok(text.clone())
                } else {
                    Err(error(ErrorKind::Missing, i))
                }
            },
            _ => Err(error(ErrorKind::Missing, i)),
        }
    } else {
        Err(error(ErrorKind::Missing, i))
    }
}

} // verus!
