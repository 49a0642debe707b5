//! Postfix increment and decrement: `name++` and `name--`.

use vstd::prelude::*;
use crate::token::{Token, ErrorKind, ParseError, fail, operator_at, ident_at, text_of, has_operator, ParseErrorView, error};
use crate::host::{ident_parses, name_at, name};

verus! {

/// The two operations.
#[derive(Clone, Copy, Debug, PartialEq, Eq, Structural)]
pub enum Op {
    Inc,
    Dec,
}

/// A variable and the operation on it.
#[derive(Clone, Debug, PartialEq, Eq)]
pub struct IncDec {
    pub name: String,
    pub op: Op,
}

/// What an `IncDec` holds, the name as a sequence of characters.
pub struct IncDecView {
    pub name: Seq<char>,
    pub op: Op,
}

impl View for IncDec {
    type V = IncDecView;

    open spec fn view(&self) -> IncDecView {
        IncDecView { name: self.name@, op: self.op }
    }
}

/// A result that carries an `IncDec`, taken by its view.
pub open spec fn inc_dec_of(r: Result<IncDec, ParseError>) -> Result<IncDecView, ParseErrorView> {
    match r {
        Ok(e) => Ok(e@),
        Err(e) => Err(e@),
    }
}

/// The grammar: a name, the operator `++` or `--`, and nothing more.
pub open spec fn inc_dec_grammar(ts: Seq<Token>) -> Result<IncDecView, ParseErrorView> {
    match name_at(ts, 0) {
        Err(e) => Err(e),
        Ok(name) => if operator_at(ts, 1, '+', '+') {
            if ts.len() != 3 {
                Err(fail(ErrorKind::Missing, 3))
            } else {
                Ok(IncDecView { name, op: Op::Inc })
            }
        } else if operator_at(ts, 1, '-', '-') {
            if ts.len() != 3 {
                Err(fail(ErrorKind::Missing, 3))
            } else {
                Ok(IncDecView { name, op: Op::Dec })
            }
        } else {
            Err(fail(ErrorKind::Missing, 1))
        },
    }
}

/// The expansion: a block that adds 1 to the variable, or takes 1 from it,
/// and then yields the variable, so the value after the change.
pub open spec fn inc_dec_expansion(e: IncDecView) -> Seq<char> {
    match e.op {
        Op::Inc => "{ "@ + e.name + " += 1; "@ + e.name + " }"@,
        Op::Dec => "{ "@ + e.name + " -= 1; "@ + e.name + " }"@,
    }
}

/// What `suf_impl` returns for the tokens `ts`.
pub open spec fn suf_text(ts: Seq<Token>) -> Result<Seq<char>, ParseErrorView> {
    match inc_dec_grammar(ts) {
        Ok(e) => Ok(inc_dec_expansion(e)),
        Err(e) => Err(e),
    }
}

impl IncDec {
    /// Parses `name++` or `name--`.
    pub fn parse(tokens: &Vec<Token>) -> (r: Result<IncDec, ParseError>)
        ensures
            inc_dec_of(r) == inc_dec_grammar(tokens@),
    {
        let name = match name(tokens, 0) {
            Ok(text) => text,
            Err(e) => { return Err(e); },
        };
        let op = if has_operator(tokens, 1, '+', '+') {
            Op::Inc
        } else if has_operator(tokens, 1, '-', '-') {
            Op::Dec
        } else {
            return Err(error(ErrorKind::Missing, 1));
        };
        if tokens.len() != 3 {
            return Err(error(ErrorKind::Missing, 3));
        }
        Ok(IncDec { name, op })
    }

    /// Writes the expansion.
    pub fn expand(&self) -> (out: String)
        ensures
            out@ == inc_dec_expansion(self@),
    {
        let mut out = String::from_str("{ ");
        out.append(self.name.as_str());
        match self.op {
            Op::Inc => out.append(" += 1; "),
            Op::Dec => out.append(" -= 1; "),
        }
        out.append(self.name.as_str());
        out.append(" }");
        out
    }
}

/// Expands `name++` into `{ name += 1; name }` and `name--` into
/// `{ name -= 1; name }`.
pub fn suf_impl(input: &Vec<Token>) -> (r: Result<String, ParseError>)
    ensures
        text_of(r) == suf_text(input@),
{
    match IncDec::parse(input) {
        Ok(e) => Ok(e.expand()),
        Err(e) => Err(e),
    }
}

/// A well-formed `x++` expands to the compound assignment `x += 1` followed
/// by `x`, and `x--` to `x -= 1` followed by `x`: the block yields the value
/// that the variable has after the change.
pub proof fn law_post_value(ts: Seq<Token>, x: Seq<char>)
    requires
        ts.len() == 3,
        ident_at(ts, 0) == Some(x),
        ident_parses(x),
    ensures
        operator_at(ts, 1, '+', '+') ==> suf_text(ts) == Ok::<Seq<char>, ParseErrorView>(
            "{ "@ + x + " += 1; "@ + x + " }"@,
        ),
        operator_at(ts, 1, '-', '-') ==> suf_text(ts) == Ok::<Seq<char>, ParseErrorView>(
            "{ "@ + x + " -= 1; "@ + x + " }"@,
        ),
{
}

} // verus!
