//! Token-level transformers for a handful of shorthand syntax forms: a
//! ternary conditional, the Elvis operator and Elvis assignment, postfix
//! increment and decrement, map literals, field spreading and string
//! interpolation. Each form is parsed from a sequence of tokens and expanded
//! into the source text of an equivalent ordinary expression.

use vstd::prelude::*;

pub mod token;
pub mod host;
pub mod cxp;
pub mod suf;
pub mod spr;
pub mod boo;
pub mod hml;
pub mod sin;

use crate::token::{Token, ParseError, text_of};
use crate::cxp::{CondExpr, ElvisExpr, ElvisAssign, cond_of, elvis_of, assign_of, cxp_text, elv_text, ela_text};
use crate::suf::{IncDec, inc_dec_of, suf_text};
use crate::spr::{Spread, spread_of, spr_text};
use crate::hml::{MapLiteral, map_of, hml_text};
use crate::sin::{Interpolation, interpolation_of, sin_text};

verus! {

/// Defines a hash map by a simple literal.
pub fn hml(input: &Vec<Token>) -> (r: Result<String, ParseError>)
    ensures
        text_of(r) == hml_text(input@),
{
    crate::hml::hml_impl(input)
}

/// Expresses an if/else in a shorthand manner: the ternary operator of
/// other languages.
pub fn cxp(input: &Vec<Token>) -> (r: Result<String, ParseError>)
    ensures
        text_of(r) == cxp_text(input@),
{
    crate::cxp::cxp_impl(input)
}

/// The if/else whose main result is the tested condition itself.
pub fn elv(input: &Vec<Token>) -> (r: Result<String, ParseError>)
    ensures
        text_of(r) == elv_text(input@),
{
    crate::cxp::elv_impl(input)
}

/// The conditional assignment to the variable that is tested.
pub fn ela(input: &Vec<Token>) -> (r: Result<String, ParseError>)
    ensures
        text_of(r) == ela_text(input@),
{
    crate::cxp::ela_impl(input)
}

/// Increments or decrements by 1.
pub fn suf(input: &Vec<Token>) -> (r: Result<String, ParseError>)
    ensures
        text_of(r) == suf_text(input@),
{
    crate::suf::suf_impl(input)
}

/// Collects the values of a field from the items of an iterable.
pub fn spr(input: &Vec<Token>) -> (r: Result<String, ParseError>)
    ensures
        text_of(r) == spr_text(input@),
{
    crate::spr::spr_impl(input)
}

/// String interpolation.
pub fn sin(input: &Vec<Token>) -> (r: Result<String, ParseError>)
    ensures
        text_of(r) == sin_text(input@),
{
    crate::sin::sin_impl(input)
}

/// Parsing is a function of the tokens: whatever two runs of a form's
/// parser return on the same tokens, they return the same parts or the
/// same error.
pub proof fn law_parse_deterministic(
    ts: Seq<Token>,
    cond: (Result<CondExpr, ParseError>, Result<CondExpr, ParseError>),
    elvis: (Result<ElvisExpr, ParseError>, Result<ElvisExpr, ParseError>),
    assign: (Result<ElvisAssign, ParseError>, Result<ElvisAssign, ParseError>),
    inc_dec: (Result<IncDec, ParseError>, Result<IncDec, ParseError>),
    spread: (Result<Spread, ParseError>, Result<Spread, ParseError>),
    map: (Result<MapLiteral, ParseError>, Result<MapLiteral, ParseError>),
    interpolation: (Result<Interpolation, ParseError>, Result<Interpolation, ParseError>),
)
    ensures
        cond_of(cond.0) == crate::cxp::cond_grammar(ts) && cond_of(cond.1)
            == crate::cxp::cond_grammar(ts) ==> cond_of(cond.0) == cond_of(cond.1),
        elvis_of(elvis.0) == crate::cxp::elvis_grammar(ts) && elvis_of(elvis.1)
            == crate::cxp::elvis_grammar(ts) ==> elvis_of(elvis.0) == elvis_of(elvis.1),
        assign_of(assign.0) == crate::cxp::assign_grammar(ts) && assign_of(assign.1)
            == crate::cxp::assign_grammar(ts) ==> assign_of(assign.0) == assign_of(assign.1),
        inc_dec_of(inc_dec.0) == crate::suf::inc_dec_grammar(ts) && inc_dec_of(inc_dec.1)
            == crate::suf::inc_dec_grammar(ts) ==> inc_dec_of(inc_dec.0) == inc_dec_of(inc_dec.1),
        spread_of(spread.0) == crate::spr::spread_grammar(ts) && spread_of(spread.1)
            == crate::spr::spread_grammar(ts) ==> spread_of(spread.0) == spread_of(spread.1),
        map_of(map.0) == crate::hml::map_grammar(ts) && map_of(map.1) == crate::hml::map_grammar(
            ts,
        ) ==> map_of(map.0) == map_of(map.1),
        interpolation_of(interpolation.0) == crate::sin::interpolation_grammar(ts)
            && interpolation_of(interpolation.1) == crate::sin::interpolation_grammar(ts)
            ==> interpolation_of(interpolation.0) == interpolation_of(interpolation.1),
{
}

} // verus!
