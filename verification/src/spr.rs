//! Field spreading: `(iterable) *.field1 *.field2 ...`.

use vstd::prelude::*;
use crate::token::{Token, ErrorKind, ParseError, fail, operator_at, paren_at, text_of, texts, has_operator, ParseErrorView, error};
use crate::host::{expr_parses, expr_group_at, name_at, expr_group, name};

verus! {

/// An iterable and the fields to project out of its items, in order.
#[derive(Clone, Debug, PartialEq, Eq)]
pub struct Spread {
    pub iterable: String,
    pub fields: Vec<String>,
}

/// What a `Spread` holds, as sequences of characters.
pub struct SpreadView {
    pub iterable: Seq<char>,
    pub fields: Seq<Seq<char>>,
}

impl View for Spread {
    type V = SpreadView;

    open spec fn view(&self) -> SpreadView {
        SpreadView { iterable: self.iterable@, fields: texts(self.fields@) }
    }
}

/// A result that carries a `Spread`, taken by its view.
pub open spec fn spread_of(r: Result<Spread, ParseError>) -> Result<SpreadView, ParseErrorView> {
    match r {
        Ok(e) => Ok(e@),
        Err(e) => Err(e@),
    }
}

/// The projections from position `i` on, after those in `found`: each is
/// the operator `*.` and a name. The error is that of the first position
/// that does not fit.
pub open spec fn fields_from(ts: Seq<Token>, i: int, found: Seq<Seq<char>>) -> Result<
    Seq<Seq<char>>,
    ParseErrorView,
>
    decreases ts.len() - i,
{
    if i >= ts.len() || i < 0 {
        Ok(found)
    } else if !operator_at(ts, i, '*', '.') {
        Err(fail(ErrorKind::Missing, i))
    } else {
        match name_at(ts, i + 2) {
            Err(e) => Err(e),
            Ok(field) => fields_from(ts, i + 3, found.push(field)),
        }
    }
}

/// The grammar: a parenthesized expression, then any number of
/// projections.
pub open spec fn spread_grammar(ts: Seq<Token>) -> Result<SpreadView, ParseErrorView> {
    match expr_group_at(ts, 0) {
        Err(e) => Err(e),
        Ok(iterable) => match fields_from(ts, 1, Seq::empty()) {
            Err(e) => Err(e),
            Ok(fields) => Ok(SpreadView { iterable, fields }),
        },
    }
}

/// `base` followed by one mapping step for each field, in order: each step
/// projects its field out of what the steps before it produced.
pub open spec fn projections(base: Seq<char>, fields: Seq<Seq<char>>) -> Seq<char>
    decreases fields.len(),
{
    if fields.len() == 0 {
        base
    } else {
        projections(base, fields.drop_last()) + ".map(|it| it."@ + fields.last() + ")"@
    }
}

/// The iterable, in parentheses so that it stays one unit whatever
/// expression it is, followed by the step that clones its items.
pub open spec fn cloned_items(iterable: Seq<char>) -> Seq<char> {
    "("@ + iterable + ")"@ + ".iter().cloned()"@
}

/// The expansion: the items of the iterable are cloned, the projections
/// are applied in order, and the results are collected.
pub open spec fn spread_expansion(e: SpreadView) -> Seq<char> {
    projections(cloned_items(e.iterable), e.fields) + ".collect()"@
}

/// What `spr_impl` returns for the tokens `ts`.
pub open spec fn spr_text(ts: Seq<Token>) -> Result<Seq<char>, ParseErrorView> {
    match spread_grammar(ts) {
        Ok(e) => Ok(spread_expansion(e)),
        Err(e) => Err(e),
    }
}

impl Spread {
    /// Parses the spread form.
    pub fn parse(tokens: &Vec<Token>) -> (r: Result<Spread, ParseError>)
        ensures
            spread_of(r) == spread_grammar(tokens@),
    {
        let iterable = match expr_group(tokens, 0) {
            Ok(text) => text,
            Err(e) => { return Err(e); },
        };
        let mut fields: Vec<String> = Vec::new();
        let mut i: usize = 1;
        assert(texts(fields@) =~= Seq::<Seq<char>>::empty());
        while i < tokens.len()
            invariant
                1 <= i,
                expr_group_at(tokens@, 0) == Ok::<Seq<char>, ParseErrorView>(iterable@),
                fields_from(tokens@, 1, Seq::empty()) == fields_from(tokens@, i as int, texts(fields@)),
            decreases tokens.len() - i,
        {
            if !has_operator(tokens, i, '*', '.') {
                return Err(error(ErrorKind::Missing, i));
            }
            let field = match name(tokens, i + 2) {
                Ok(text) => text,
                Err(e) => { return Err(e); },
            };
            proof {
                assert(texts(fields@.push(field)) =~= texts(fields@).push(field@));
            }
            fields.push(field);
            i = i + 3;
        }
        Ok(Spread { iterable, fields })
    }

    /// Writes the expansion.
    pub fn expand(&self) -> (out: String)
        ensures
            out@ == spread_expansion(self@),
    {
        let mut out = String::from_str("(");
        out.append(self.iterable.as_str());
        out.append(")");
        out.append(".iter().cloned()");
        let ghost base = out@;
        let mut k: usize = 0;
        assert(texts(self.fields@).subrange(0, 0).len() == 0);
        while k < self.fields.len()
            invariant
                k <= self.fields.len(),
                out@ == projections(base, texts(self.fields@).subrange(0, k as int)),
            decreases self.fields.len() - k,
        {
            out.append(".map(|it| it.");
            out.append(self.fields[k].as_str());
            out.append(")");
            proof {
                let next = texts(self.fields@).subrange(0, k + 1);
                assert(next.drop_last() =~= texts(self.fields@).subrange(0, k as int));
                assert(next.last() == self.fields@[k as int]@);
            }
            k = k + 1;
        }
        assert(texts(self.fields@).subrange(0, k as int) =~= texts(self.fields@));
        out.append(".collect()");
        out
    }
}

/// Expands `(iterable) *.f1 *.f2 ...` into a chain that clones each item,
/// projects `f1` out of it, `f2` out of that, and so on, and collects the
/// results.
pub fn spr_impl(input: &Vec<Token>) -> (r: Result<String, ParseError>)
    ensures
        text_of(r) == spr_text(input@),
{
    match Spread::parse(input) {
        Ok(e) => Ok(e.expand()),
        Err(e) => Err(e),
    }
}

/// With no projection, a well-formed spread expands to a collection of the
/// cloned items and nothing else: a copy of the sequence.
pub proof fn law_spread_copy(ts: Seq<Token>, iterable: Seq<char>)
    requires
        ts.len() == 1,
        paren_at(ts, 0) == Some(iterable),
        expr_parses(iterable),
    ensures
        spr_text(ts) == Ok::<Seq<char>, ParseErrorView>(
            "("@ + iterable + ")"@ + ".iter().cloned()"@ + ".collect()"@,
        ),
{
}

/// Each further projection wraps what came before it: the expansion for
/// the fields `fields` followed by `last` is the expansion for `fields`
/// with one more mapping step, which projects `last`, before the results
/// are collected.
pub proof fn law_spread_chain(iterable: Seq<char>, fields: Seq<Seq<char>>, last: Seq<char>)
    ensures
        spread_expansion(SpreadView { iterable, fields: fields.push(last) }) == projections(
            "("@ + iterable + ")"@ + ".iter().cloned()"@,
            fields,
        ) + ".map(|it| it."@ + last + ")"@ + ".collect()"@,
{
    assert(fields.push(last).drop_last() =~= fields);
}

} // verus!
