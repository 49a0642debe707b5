//! The truthiness test of a whole expression.

use vstd::prelude::*;
use crate::token::{Token, ParseError, ParseErrorView, render, text_of, write_tokens};
use crate::host::{embedded_at, embedded};

verus! {

/// What `boo_impl` returns for the tokens `ts`: the block that tests the
/// truthiness of the expression that the tokens spell, or, where they
/// spell none, the error of the host parser at the first token.
pub open spec fn boo_text(ts: Seq<Token>) -> Result<Seq<char>, ParseErrorView> {
    match embedded_at(render(ts), 0) {
        Ok(text) => Ok("{ use shoogah::AsBool; ("@ + text + ").as_bool() }"@),
        Err(e) => Err(e),
    }
}

/// Expands an expression into the test of its truthiness.
pub fn boo_impl(input: &Vec<Token>) -> (r: Result<String, ParseError>)
    ensures
        text_of(r) == boo_text(input@),
{
    let text = write_tokens(input, 0, input.len());
    assert(input@.subrange(0, input@.len() as int) =~= input@);
    match embedded(text.as_str(), 0) {
        Ok(text) => {
            let mut out = String::from_str("{ use shoogah::AsBool; (");
            out.append(text.as_str());
            out.append(").as_bool() }");
            Ok(out)
        },
        Err(e) => Err(e),
    }
}

} // verus!
