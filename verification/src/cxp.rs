//! The three conditional forms: the ternary `(c) ? (r) : (a)`, the Elvis
//! operator `(c) ?: (a)` and Elvis assignment `(x) ?= (a)`, each with an
//! optional leading `!`.

use vstd::prelude::*;
use crate::token::{Token, ErrorKind, ParseError, fail, punct_at, operator_at, paren_at, negation_len, text_of, has_punct, has_operator, leading_negation, ParseErrorView, error};
use crate::host::{expr_parses, ident_parses, expr_group_at, ident_group_at, expr_group, ident_group};

verus! {

/// The source text that tests the truthiness of `condition`, or its
/// negation.
pub open spec fn truth_test(condition: Seq<char>, negated: bool) -> Seq<char> {
    if negated {
        "!(("@ + condition + ").as_bool())"@
    } else {
        "("@ + condition + ").as_bool()"@
    }
}

/// Writes the truthiness test of `condition`. The test is always written,
/// whatever the expression is.
pub fn write_truth_test(condition: &str, negated: bool) -> (out: String)
    ensures
        out@ == truth_test(condition@, negated),
{
    if negated {
        let mut out = String::from_str("!((");
        out.append(condition);
        out.append(").as_bool())");
        out
    } else {
        let mut out = String::from_str("(");
        out.append(condition);
        out.append(").as_bool()");
        out
    }
}

/// A shorthand if/else: `(condition) ? (result) : (alternative)`.
#[derive(Clone, Debug, PartialEq, Eq)]
pub struct CondExpr {
    pub condition: String,
    pub result: String,
    pub alternative: String,
    pub negated: bool,
}

/// What a `CondExpr` holds, as sequences of characters.
pub struct CondExprView {
    pub condition: Seq<char>,
    pub result: Seq<char>,
    pub alternative: Seq<char>,
    pub negated: bool,
}

impl View for CondExpr {
    type V = CondExprView;

    open spec fn view(&self) -> CondExprView {
        CondExprView {
            condition: self.condition@,
            result: self.result@,
            alternative: self.alternative@,
            negated: self.negated,
        }
    }
}

/// A result that carries a `CondExpr`, with the expression taken by its view.
pub open spec fn cond_of(r: Result<CondExpr, ParseError>) -> Result<CondExprView, ParseErrorView> {
    match r {
        Ok(e) => Ok(e@),
        Err(e) => Err(e@),
    }
}

/// The grammar of the ternary form: an optional `!`, a parenthesized
/// expression, `?`, a parenthesized expression, `:`, a parenthesized
/// expression, and nothing more. The error is that of the first position
/// that does not fit.
pub open spec fn cond_grammar(ts: Seq<Token>) -> Result<CondExprView, ParseErrorView> {
    let i = negation_len(ts);
    match expr_group_at(ts, i) {
        Err(e) => Err(e),
        Ok(condition) => if !punct_at(ts, i + 1, '?') {
            Err(fail(ErrorKind::Missing, i + 1))
        } else {
            match expr_group_at(ts, i + 2) {
                Err(e) => Err(e),
                Ok(result) => if !punct_at(ts, i + 3, ':') {
                    Err(fail(ErrorKind::Missing, i + 3))
                } else {
                    match expr_group_at(ts, i + 4) {
                        Err(e) => Err(e),
                        Ok(alternative) => if ts.len() != i + 5 {
                            Err(fail(ErrorKind::Missing, i + 5))
                        } else {
                            Ok(
                                CondExprView {
                                    condition,
                                    result,
                                    alternative,
                                    negated: punct_at(ts, 0, '!'),
                                },
                            )
                        },
                    }
                },
            }
        },
    }
}

/// The expansion of the ternary form: a block that tests the truthiness of
/// the condition and yields the result or the alternative.
pub open spec fn cond_expansion(e: CondExprView) -> Seq<char> {
    "{ use shoogah::AsBool; if "@ + truth_test(e.condition, e.negated) + " { "@ + e.result
        + " } else { "@ + e.alternative + " } }"@
}

/// What `cxp_impl` returns for the tokens `ts`.
pub open spec fn cxp_text(ts: Seq<Token>) -> Result<Seq<char>, ParseErrorView> {
    match cond_grammar(ts) {
        Ok(e) => Ok(cond_expansion(e)),
        Err(e) => Err(e),
    }
}

impl CondExpr {
    /// Parses the ternary form.
    pub fn parse(tokens: &Vec<Token>) -> (r: Result<CondExpr, ParseError>)
        ensures
            cond_of(r) == cond_grammar(tokens@),
    {
        let (negated, i) = leading_negation(tokens);
        let condition = match expr_group(tokens, i) {
            Ok(text) => text,
            Err(e) => { return Err(e); },
        };
        if !has_punct(tokens, i + 1, '?') {
            return Err(error(ErrorKind::Missing, i + 1));
        }
        let result = match expr_group(tokens, i + 2) {
            Ok(text) => text,
            Err(e) => { return Err(e); },
        };
        if !has_punct(tokens, i + 3, ':') {
            return Err(error(ErrorKind::Missing, i + 3));
        }
        let alternative = match expr_group(tokens, i + 4) {
            Ok(text) => text,
            Err(e) => { return Err(e); },
        };
        if tokens.len() != i + 5 {
            return Err(error(ErrorKind::Missing, i + 5));
        }
        Ok(CondExpr { condition, result, alternative, negated })
    }

    /// Writes the expansion.
    pub fn expand(&self) -> (out: String)
        ensures
            out@ == cond_expansion(self@),
    {
        let test = write_truth_test(self.condition.as_str(), self.negated);
        let mut out = String::from_str("{ use shoogah::AsBool; if ");
        out.append(test.as_str());
        out.append(" { ");
        out.append(self.result.as_str());
        out.append(" } else { ");
        out.append(self.alternative.as_str());
        out.append(" } }");
        out
    }
}

/// Expands `(!)?(cond) ? (result) : (alt)` into an if/else on the truthiness
/// of `cond`.
pub fn cxp_impl(input: &Vec<Token>) -> (r: Result<String, ParseError>)
    ensures
        text_of(r) == cxp_text(input@),
{
    match CondExpr::parse(input) {
        Ok(e) => Ok(e.expand()),
        Err(e) => Err(e),
    }
}

/// An if/else whose result is the condition itself:
/// `(condition) ?: (alternative)`.
#[derive(Clone, Debug, PartialEq, Eq)]
pub struct ElvisExpr {
    pub condition: String,
    pub alternative: String,
    pub negated: bool,
}

/// What an `ElvisExpr` holds, as sequences of characters.
pub struct ElvisExprView {
    pub condition: Seq<char>,
    pub alternative: Seq<char>,
    pub negated: bool,
}

impl View for ElvisExpr {
    type V = ElvisExprView;

    open spec fn view(&self) -> ElvisExprView {
        ElvisExprView {
            condition: self.condition@,
            alternative: self.alternative@,
            negated: self.negated,
        }
    }
}

/// A result that carries an `ElvisExpr`, with the expression taken by its
/// view.
pub open spec fn elvis_of(r: Result<ElvisExpr, ParseError>) -> Result<ElvisExprView, ParseErrorView> {
    match r {
        Ok(e) => Ok(e@),
        Err(e) => Err(e@),
    }
}

/// The grammar of the Elvis form: an optional `!`, a parenthesized
/// expression, the operator `?:`, a parenthesized expression, and nothing
/// more.
pub open spec fn elvis_grammar(ts: Seq<Token>) -> Result<ElvisExprView, ParseErrorView> {
    let i = negation_len(ts);
    match expr_group_at(ts, i) {
        Err(e) => Err(e),
        Ok(condition) => if !operator_at(ts, i + 1, '?', ':') {
            Err(fail(ErrorKind::Missing, i + 1))
        } else {
            match expr_group_at(ts, i + 3) {
                Err(e) => Err(e),
                Ok(alternative) => if ts.len() != i + 4 {
                    Err(fail(ErrorKind::Missing, i + 4))
                } else {
                    Ok(ElvisExprView { condition, alternative, negated: punct_at(ts, 0, '!') })
                },
            }
        },
    }
}

/// The expansion of the Elvis form: the ternary whose result is the
/// condition, written a second time.
pub open spec fn elvis_expansion(e: ElvisExprView) -> Seq<char> {
    cond_expansion(
        CondExprView {
            condition: e.condition,
            result: e.condition,
            alternative: e.alternative,
            negated: e.negated,
        },
    )
}

/// What `elv_impl` returns for the tokens `ts`.
pub open spec fn elv_text(ts: Seq<Token>) -> Result<Seq<char>, ParseErrorView> {
    match elvis_grammar(ts) {
        Ok(e) => Ok(elvis_expansion(e)),
        Err(e) => Err(e),
    }
}

impl ElvisExpr {
    /// Parses the Elvis form.
    pub fn parse(tokens: &Vec<Token>) -> (r: Result<ElvisExpr, ParseError>)
        ensures
            elvis_of(r) == elvis_grammar(tokens@),
    {
        let (negated, i) = leading_negation(tokens);
        let condition = match expr_group(tokens, i) {
            Ok(text) => text,
            Err(e) => { return Err(e); },
        };
        if !has_operator(tokens, i + 1, '?', ':') {
            return Err(error(ErrorKind::Missing, i + 1));
        }
        let alternative = match expr_group(tokens, i + 3) {
            Ok(text) => text,
            Err(e) => { return Err(e); },
        };
        if tokens.len() != i + 4 {
            return Err(error(ErrorKind::Missing, i + 4));
        }
        Ok(ElvisExpr { condition, alternative, negated })
    }

    /// Writes the expansion. The condition is written twice: once in the
    /// test and once as the result.
    pub fn expand(&self) -> (out: String)
        ensures
            out@ == elvis_expansion(self@),
    {
        let test = write_truth_test(self.condition.as_str(), self.negated);
        let mut out = String::from_str("{ use shoogah::AsBool; if ");
        out.append(test.as_str());
        out.append(" { ");
        out.append(self.condition.as_str());
        out.append(" } else { ");
        out.append(self.alternative.as_str());
        out.append(" } }");
        out
    }
}

/// Expands `(!)?(cond) ?: (alt)` into an if/else that yields `cond` when it
/// is truthy and `alt` otherwise.
pub fn elv_impl(input: &Vec<Token>) -> (r: Result<String, ParseError>)
    ensures
        text_of(r) == elv_text(input@),
{
    match ElvisExpr::parse(input) {
        Ok(e) => Ok(e.expand()),
        Err(e) => Err(e),
    }
}

/// A conditional assignment to the variable that is tested:
/// `(condition) ?= (alternative)`. The assignment happens only when the
/// variable is falsy.
#[derive(Clone, Debug, PartialEq, Eq)]
pub struct ElvisAssign {
    pub condition: String,
    pub alternative: String,
    pub negated: bool,
}

/// What an `ElvisAssign` holds, as sequences of characters.
pub struct ElvisAssignView {
    pub condition: Seq<char>,
    pub alternative: Seq<char>,
    pub negated: bool,
}

impl View for ElvisAssign {
    type V = ElvisAssignView;

    open spec fn view(&self) -> ElvisAssignView {
        ElvisAssignView {
            condition: self.condition@,
            alternative: self.alternative@,
            negated: self.negated,
        }
    }
}

/// A result that carries an `ElvisAssign`, with the assignment taken by its
/// view.
pub open spec fn assign_of(r: Result<ElvisAssign, ParseError>) -> Result<
    ElvisAssignView,
    ParseErrorView,
> {
    match r {
        Ok(e) => Ok(e@),
        Err(e) => Err(e@),
    }
}

/// The grammar of Elvis assignment: an optional `!`, a parenthesized bare
/// identifier, the operator `?=`, a parenthesized expression, and nothing
/// more.
pub open spec fn assign_grammar(ts: Seq<Token>) -> Result<ElvisAssignView, ParseErrorView> {
    let i = negation_len(ts);
    match ident_group_at(ts, i) {
        Err(e) => Err(e),
        Ok(condition) => if !operator_at(ts, i + 1, '?', '=') {
            Err(fail(ErrorKind::Missing, i + 1))
        } else {
            match expr_group_at(ts, i + 3) {
                Err(e) => Err(e),
                Ok(alternative) => if ts.len() != i + 4 {
                    Err(fail(ErrorKind::Missing, i + 4))
                } else {
                    Ok(ElvisAssignView { condition, alternative, negated: punct_at(ts, 0, '!') })
                },
            }
        },
    }
}

/// The expansion of Elvis assignment: the variable is assigned the
/// alternative when its truthiness test fails; with `negated`, when the test
/// holds.
pub open spec fn assign_expansion(e: ElvisAssignView) -> Seq<char> {
    "{ use shoogah::AsBool; if "@ + truth_test(e.condition, !e.negated) + " { "@ + e.condition
        + " = "@ + e.alternative + "; } }"@
}

/// What `ela_impl` returns for the tokens `ts`.
pub open spec fn ela_text(ts: Seq<Token>) -> Result<Seq<char>, ParseErrorView> {
    match assign_grammar(ts) {
        Ok(e) => Ok(assign_expansion(e)),
        Err(e) => Err(e),
    }
}

impl ElvisAssign {
    /// Parses Elvis assignment.
    pub fn parse(tokens: &Vec<Token>) -> (r: Result<ElvisAssign, ParseError>)
        ensures
            assign_of(r) == assign_grammar(tokens@),
    {
        let (negated, i) = leading_negation(tokens);
        let condition = match ident_group(tokens, i) {
            Ok(text) => text,
            Err(e) => { return Err(e); },
        };
        if !has_operator(tokens, i + 1, '?', '=') {
            return Err(error(ErrorKind::Missing, i + 1));
        }
        let alternative = match expr_group(tokens, i + 3) {
            Ok(text) => text,
            Err(e) => { return Err(e); },
        };
        if tokens.len() != i + 4 {
            return Err(error(ErrorKind::Missing, i + 4));
        }
        Ok(ElvisAssign { condition, alternative, negated })
    }

    /// Writes the expansion. The same identifier stands in the test and on
    /// the left of the assignment.
    pub fn expand(&self) -> (out: String)
        ensures
            out@ == assign_expansion(self@),
    {
        let test = write_truth_test(self.condition.as_str(), !self.negated);
        let mut out = String::from_str("{ use shoogah::AsBool; if ");
        out.append(test.as_str());
        out.append(" { ");
        out.append(self.condition.as_str());
        out.append(" = ");
        out.append(self.alternative.as_str());
        out.append("; } }");
        out
    }
}

/// Expands `(!)?(ident) ?= (alt)` into an assignment of `alt` to `ident`
/// that happens only when `ident` is falsy (with `!`: only when truthy).
pub fn ela_impl(input: &Vec<Token>) -> (r: Result<String, ParseError>)
    ensures
        text_of(r) == ela_text(input@),
{
    match ElvisAssign::parse(input) {
        Ok(e) => Ok(e.expand()),
        Err(e) => Err(e),
    }
}

/// A well-formed ternary, `(c) ? (r) : (a)` with an optional leading `!`,
/// expands to a conditional on the truthiness of `c` that yields `r` when
/// the test holds and `a` otherwise; with the `!` the test is negated, so
/// the two branches change places.
pub proof fn law_ternary(ts: Seq<Token>, c: Seq<char>, r: Seq<char>, a: Seq<char>)
    requires
        expr_parses(c),
        expr_parses(r),
        expr_parses(a),
        ts.len() == negation_len(ts) + 5,
        paren_at(ts, negation_len(ts)) == Some(c),
        punct_at(ts, negation_len(ts) + 1, '?'),
        paren_at(ts, negation_len(ts) + 2) == Some(r),
        punct_at(ts, negation_len(ts) + 3, ':'),
        paren_at(ts, negation_len(ts) + 4) == Some(a),
    ensures
        !punct_at(ts, 0, '!') ==> cxp_text(ts) == Ok::<Seq<char>, ParseErrorView>(
            "{ use shoogah::AsBool; if "@ + ("("@ + c + ").as_bool()"@) + " { "@ + r
                + " } else { "@ + a + " } }"@,
        ),
        punct_at(ts, 0, '!') ==> cxp_text(ts) == Ok::<Seq<char>, ParseErrorView>(
            "{ use shoogah::AsBool; if "@ + ("!(("@ + c + ").as_bool())"@) + " { "@ + r
                + " } else { "@ + a + " } }"@,
        ),
{
}

/// A well-formed Elvis expression, `(c) ?: (a)` with an optional leading
/// `!`, expands to the ternary whose result is `c` itself: it yields `c`
/// when the test on `c` holds and `a` otherwise.
pub proof fn law_elvis(ts: Seq<Token>, c: Seq<char>, a: Seq<char>)
    requires
        expr_parses(c),
        expr_parses(a),
        ts.len() == negation_len(ts) + 4,
        paren_at(ts, negation_len(ts)) == Some(c),
        operator_at(ts, negation_len(ts) + 1, '?', ':'),
        paren_at(ts, negation_len(ts) + 3) == Some(a),
    ensures
        elv_text(ts) == Ok::<Seq<char>, ParseErrorView>(
            "{ use shoogah::AsBool; if "@ + truth_test(c, punct_at(ts, 0, '!')) + " { "@ + c
                + " } else { "@ + a + " } }"@,
        ),
        elv_text(ts) == Ok::<Seq<char>, ParseErrorView>(
            cond_expansion(
                CondExprView {
                    condition: c,
                    result: c,
                    alternative: a,
                    negated: punct_at(ts, 0, '!'),
                },
            ),
        ),
{
}

/// A well-formed Elvis assignment, `(x) ?= (a)`, expands to an assignment
/// of `a` to `x` that is guarded by the negated truthiness test of `x`: it
/// happens only when `x` is falsy, and `x` is otherwise left alone. With a
/// leading `!` the guard is the plain test.
pub proof fn law_elvis_assignment(ts: Seq<Token>, x: Seq<char>, a: Seq<char>)
    requires
        ident_parses(x),
        expr_parses(a),
        ts.len() == negation_len(ts) + 4,
        paren_at(ts, negation_len(ts)) == Some(x),
        operator_at(ts, negation_len(ts) + 1, '?', '='),
        paren_at(ts, negation_len(ts) + 3) == Some(a),
    ensures
        !punct_at(ts, 0, '!') ==> ela_text(ts) == Ok::<Seq<char>, ParseErrorView>(
            "{ use shoogah::AsBool; if "@ + ("!(("@ + x + ").as_bool())"@) + " { "@ + x + " = "@
                + a + "; } }"@,
        ),
        punct_at(ts, 0, '!') ==> ela_text(ts) == Ok::<Seq<char>, ParseErrorView>(
            "{ use shoogah::AsBool; if "@ + ("("@ + x + ").as_bool()"@) + " { "@ + x + " = "@ + a
                + "; } }"@,
        ),
{
}

} // verus!
