//! String interpolation: a string literal in which each marker `${...}`
//! holds an expression.

use vstd::prelude::*;
use crate::token::{Token, ErrorKind, ParseError, fail, text_of, texts, ParseErrorView, error};
use crate::host::{embedded_at, str_literal_value, embedded, str_value};

verus! {

/// The pieces of an interpolation: the format string, in which a
/// placeholder `{}` stands for each marker, and the expressions of the
/// markers from left to right.
#[derive(Clone, Debug, PartialEq, Eq)]
pub struct Interpolation {
    pub fmt_str: String,
    pub expressions: Vec<String>,
}

/// What an `Interpolation` holds, as sequences of characters.
pub struct InterpolationView {
    pub fmt_str: Seq<char>,
    pub expressions: Seq<Seq<char>>,
}

impl View for Interpolation {
    type V = InterpolationView;

    open spec fn view(&self) -> InterpolationView {
        InterpolationView { fmt_str: self.fmt_str@, expressions: texts(self.expressions@) }
    }
}

/// A result that carries an `Interpolation`, taken by its view.
pub open spec fn interpolation_of(r: Result<Interpolation, ParseError>) -> Result<
    InterpolationView,
    ParseErrorView,
> {
    match r {
        Ok(e) => Ok(e@),
        Err(e) => Err(e@),
    }
}

/// A marker opens at position `i`: the characters `${`.
pub open spec fn marker_at(s: Seq<char>, i: int) -> bool {
    0 <= i && i + 1 < s.len() && s[i] == '$' && s[i + 1] == '{'
}

/// The number of characters before the first `}` of `s`; the length of `s`
/// where it holds none.
pub open spec fn first_brace(s: Seq<char>) -> nat
    decreases s.len(),
{
    if s.len() == 0 || s[0] == '}' {
        0
    } else {
        1 + first_brace(s.skip(1))
    }
}

/// The interpolation read from position `i` on, after the format string
/// `fmt` and the expressions `found`. A marker runs from `${` to the next
/// `}`; the text between them must be an expression, else the host
/// parser's error is the result; a placeholder takes the marker's place.
/// With nothing between them, `${}` is no marker and is kept as text. Every other character is kept as it is.
pub open spec fn markers_from(s: Seq<char>, i: int, fmt: Seq<char>, found: Seq<Seq<char>>)
    -> Result<InterpolationView, ParseErrorView>
    decreases s.len() - i,
{
    if i >= s.len() || i < 0 {
        Ok(InterpolationView { fmt_str: fmt, expressions: found })
    } else if marker_at(s, i) {
        let close = i + 2 + first_brace(s.skip(i + 2));
        if close >= s.len() {
            Err(fail(ErrorKind::Unterminated, i))
        } else if close == i + 2 {
            markers_from(s, i + 1, fmt.push(s[i]), found)
        } else {
            match embedded_at(s.subrange(i + 2, close), i + 2) {
                Err(e) => Err(e),
                Ok(inner) => markers_from(s, close + 1, fmt + "{}"@, found.push(inner)),
            }
        }
    } else {
        markers_from(s, i + 1, fmt.push(s[i]), found)
    }
}

/// The interpolation that the text `s` holds.
pub open spec fn interpolation_in(s: Seq<char>) -> Result<InterpolationView, ParseErrorView> {
    markers_from(s, 0, Seq::empty(), Seq::empty())
}

/// The text of the literal token at position `i`, if there is one.
pub open spec fn literal_at(ts: Seq<Token>, i: int) -> Option<Seq<char>> {
    if 0 <= i < ts.len() {
        match ts[i] {
            Token::Literal(text) => Some(text@),
            _ => None,
        }
    } else {
        None
    }
}

/// The grammar: one string literal, whose value holds the interpolation,
/// and nothing more.
pub open spec fn interpolation_grammar(ts: Seq<Token>) -> Result<InterpolationView, ParseErrorView> {
    match literal_at(ts, 0) {
        None => Err(fail(ErrorKind::Missing, 0)),
        Some(text) => match str_literal_value(text) {
            None => Err(fail(ErrorKind::Grammar, 0)),
            Some(value) => match interpolation_in(value) {
                Err(e) => Err(e),
                Ok(found) => if ts.len() != 1 {
                    Err(fail(ErrorKind::Missing, 1))
                } else {
                    Ok(found)
                },
            },
        },
    }
}

/// How one character is written inside a string literal.
pub open spec fn escaped_char(c: char) -> Seq<char> {
    if c == '"' {
        seq!['\\', '"']
    } else if c == '\\' {
        seq!['\\', '\\']
    } else if c == '\n' {
        seq!['\\', 'n']
    } else if c == '\r' {
        seq!['\\', 'r']
    } else if c == '\t' {
        seq!['\\', 't']
    } else if c == '\0' {
        seq!['\\', '0']
    } else {
        seq![c]
    }
}

/// The characters of `s`, each as it is written inside a string literal.
pub open spec fn escaped(s: Seq<char>) -> Seq<char>
    decreases s.len(),
{
    if s.len() == 0 {
        Seq::empty()
    } else {
        escaped(s.drop_last()) + escaped_char(s.last())
    }
}

/// The string literal whose value is `s`.
pub open spec fn string_literal(s: Seq<char>) -> Seq<char> {
    seq!['"'] + escaped(s) + seq!['"']
}

/// The expressions as further arguments of a call: each after a comma.
pub open spec fn arguments(expressions: Seq<Seq<char>>) -> Seq<char>
    decreases expressions.len(),
{
    if expressions.len() == 0 {
        Seq::empty()
    } else {
        arguments(expressions.drop_last()) + ", "@ + expressions.last()
    }
}

/// The expansion: with no expression, the string literal alone; otherwise
/// a formatting call on the format string and the expressions in order.
pub open spec fn interpolation_expansion(e: InterpolationView) -> Seq<char> {
    if e.expressions.len() == 0 {
        string_literal(e.fmt_str)
    } else {
        "format!("@ + string_literal(e.fmt_str) + arguments(e.expressions) + ")"@
    }
}

/// What `sin_impl` returns for the tokens `ts`.
pub open spec fn sin_text(ts: Seq<Token>) -> Result<Seq<char>, ParseErrorView> {
    match interpolation_grammar(ts) {
        Ok(e) => Ok(interpolation_expansion(e)),
        Err(e) => Err(e),
    }
}

/// Finds the first `}` at or after position `from` in `s`, which has `n`
/// characters; gives `n` where there is none.
pub fn find_close(s: &str, n: usize, from: usize) -> (j: usize)
    requires
        n == s@.len(),
        from <= n,
    ensures
        j == from + first_brace(s@.skip(from as int)),
        from <= j <= n,
{
    let mut j: usize = from;
    while j < n
        invariant
            n == s@.len(),
            from <= j <= n,
            from + first_brace(s@.skip(from as int)) == j + first_brace(s@.skip(j as int)),
        decreases n - j,
    {
        if s.get_char(j) == '}' {
            return j;
        }
        proof {
            assert(s@.skip(j as int).skip(1) =~= s@.skip(j + 1));
        }
        j = j + 1;
    }
    j
}

/// Writes the string literal whose value is `s`.
pub fn write_string_literal(s: &str) -> (out: String)
    ensures
        out@ == string_literal(s@),
{
    let n = s.unicode_len();
    let mut out = String::new();
    out.push('"');
    let mut k: usize = 0;
    assert(s@.subrange(0, 0).len() == 0);
    assert(out@ =~= seq!['"'] + escaped(s@.subrange(0, 0)));
    while k < n
        invariant
            n == s@.len(),
            k <= n,
            out@ == seq!['"'] + escaped(s@.subrange(0, k as int)),
        decreases n - k,
    {
        let c = s.get_char(k);
        let ghost before = out@;
        if c == '"' {
            out.push('\\');
            out.push('"');
        } else if c == '\\' {
            out.push('\\');
            out.push('\\');
        } else if c == '\n' {
            out.push('\\');
            out.push('n');
        } else if c == '\r' {
            out.push('\\');
            out.push('r');
        } else if c == '\t' {
            out.push('\\');
            out.push('t');
        } else if c == '\0' {
            out.push('\\');
            out.push('0');
        } else {
            out.push(c);
        }
        proof {
            let next = s@.subrange(0, k + 1);
            assert(next.drop_last() =~= s@.subrange(0, k as int));
            assert(next.last() == c);
            assert(out@ =~= before + escaped_char(c));
            assert(out@ =~= seq!['"'] + escaped(next));
        }
        k = k + 1;
    }
    assert(s@.subrange(0, k as int) =~= s@);
    out.push('"');
    assert(out@ =~= string_literal(s@));
    out
}

impl Interpolation {
    /// Reads the interpolation that the text `value` holds.
    pub fn scan(value: &str) -> (r: Result<Interpolation, ParseError>)
        ensures
            interpolation_of(r) == interpolation_in(value@),
    {
        let n = value.unicode_len();
        let mut fmt_str = String::new();
        let mut expressions: Vec<String> = Vec::new();
        let mut i: usize = 0;
        assert(texts(expressions@) =~= Seq::<Seq<char>>::empty());
        while i < n
            invariant
                n == value@.len(),
                interpolation_in(value@) == markers_from(
                    value@,
                    i as int,
                    fmt_str@,
                    texts(expressions@),
                ),
            decreases n - i,
        {
            let c = value.get_char(i);
            if c == '$' && n - i > 1 && value.get_char(i + 1) == '{' {
                let close = find_close(value, n, i + 2);
                if close >= n {
                    return Err(error(ErrorKind::Unterminated, i));
                }
                if close == i + 2 {
                    fmt_str.push(c);
                    i = i + 1;
                    continue;
                }
                let expression = match embedded(value.substring_char(i + 2, close), i + 2) {
                    Ok(inner) => inner,
                    Err(e) => { return Err(e); },
                };
                proof {
                    assert(texts(expressions@.push(expression)) =~= texts(expressions@).push(
                        expression@,
                    ));
                }
                fmt_str.append("{}");
                expressions.push(expression);
                i = close + 1;
            } else {
                fmt_str.push(c);
                i = i + 1;
            }
        }
        Ok(Interpolation { fmt_str, expressions })
    }

    /// Parses an interpolation from one string literal.
    pub fn parse(tokens: &Vec<Token>) -> (r: Result<Interpolation, ParseError>)
        ensures
            interpolation_of(r) == interpolation_grammar(tokens@),
    {
        if tokens.len() == 0 {
            return Err(error(ErrorKind::Missing, 0));
        }
        let value = match &tokens[0] {
            Token::Literal(text) => match str_value(text.as_str()) {
                Some(value) => value,
                None => { return Err(error(ErrorKind::Grammar, 0)); },
            },
            _ => { return Err(error(ErrorKind::Missing, 0)); },
        };
        let found = match Interpolation::scan(value.as_str()) {
            Ok(found) => found,
            Err(e) => { return Err(e); },
        };
        if tokens.len() != 1 {
            return Err(error(ErrorKind::Missing, 1));
        }
        Ok(found)
    }

    /// Writes the expansion.
    pub fn expand(&self) -> (out: String)
        ensures
            out@ == interpolation_expansion(self@),
    {
        let literal = write_string_literal(self.fmt_str.as_str());
        if self.expressions.len() == 0 {
            assert(texts(self.expressions@).len() == 0);
            return literal;
        }
        let mut out = String::from_str("format!(");
        out.append(literal.as_str());
        let ghost head = out@;
        let mut k: usize = 0;
        assert(texts(self.expressions@).subrange(0, 0).len() == 0);
        assert(out@ =~= head + arguments(texts(self.expressions@).subrange(0, 0)));
        while k < self.expressions.len()
            invariant
                k <= self.expressions.len(),
                out@ == head + arguments(texts(self.expressions@).subrange(0, k as int)),
            decreases self.expressions.len() - k,
        {
            out.append(", ");
            out.append(self.expressions[k].as_str());
            proof {
                let next = texts(self.expressions@).subrange(0, k + 1);
                assert(next.drop_last() =~= texts(self.expressions@).subrange(0, k as int));
                assert(next.last() == self.expressions@[k as int]@);
                assert(out@ =~= head + arguments(next));
            }
            k = k + 1;
        }
        assert(texts(self.expressions@).subrange(0, k as int) =~= texts(self.expressions@));
        out.append(")");
        out
    }
}

/// Expands a string literal with `${...}` markers into a formatting call
/// on the expressions of the markers, or, where it holds no marker, into
/// the literal itself.
pub fn sin_impl(input: &Vec<Token>) -> (r: Result<String, ParseError>)
    ensures
        text_of(r) == sin_text(input@),
{
    match Interpolation::parse(input) {
        Ok(e) => Ok(e.expand()),
        Err(e) => Err(e),
    }
}

/// A run of text in which no marker opens is kept as it is: reading from
/// `a` is reading from `b` with the characters between them added to the
/// format string.
pub proof fn lemma_plain_run(s: Seq<char>, a: int, b: int, fmt: Seq<char>, found: Seq<Seq<char>>)
    requires
        0 <= a <= b <= s.len(),
        forall|k: int| a <= k < b ==> !marker_at(s, k),
    ensures
        markers_from(s, a, fmt, found) == markers_from(s, b, fmt + s.subrange(a, b), found),
    decreases b - a,
{
    if a == b {
        assert(fmt + s.subrange(a, b) =~= fmt);
    } else {
        assert(!marker_at(s, a));
        lemma_plain_run(s, a + 1, b, fmt.push(s[a]), found);
        assert(fmt.push(s[a]) + s.subrange(a + 1, b) =~= fmt + s.subrange(a, b));
    }
}

/// Where `s` holds no `}`, the search for one runs to the end of `s`.
pub proof fn lemma_no_brace(s: Seq<char>)
    requires
        forall|k: int| 0 <= k < s.len() ==> s[k] != '}',
    ensures
        first_brace(s) == s.len(),
    decreases s.len(),
{
    if s.len() > 0 {
        lemma_no_brace(s.skip(1));
    }
}

/// A text in which no marker opens is its own format string, with no
/// expression, and expands to the string literal alone, with no formatting
/// call.
pub proof fn law_no_markers(s: Seq<char>)
    requires
        forall|k: int| 0 <= k < s.len() ==> !marker_at(s, k),
    ensures
        interpolation_in(s) == Ok::<InterpolationView, ParseErrorView>(
            InterpolationView { fmt_str: s, expressions: Seq::empty() },
        ),
        interpolation_expansion(InterpolationView { fmt_str: s, expressions: Seq::empty() })
            == string_literal(s),
{
    lemma_plain_run(s, 0, s.len() as int, Seq::empty(), Seq::empty());
    assert(Seq::<char>::empty() + s.subrange(0, s.len() as int) =~= s);
}

/// A marker that is opened and never closed is a parse error at the place
/// where it opens: where the first marker of `s` opens at `i` and no `}`
/// follows it, reading `s` fails there.
pub proof fn law_unterminated(s: Seq<char>, i: int)
    requires
        marker_at(s, i),
        forall|k: int| 0 <= k < i ==> !marker_at(s, k),
        forall|k: int| i + 2 <= k < s.len() ==> s[k] != '}',
    ensures
        interpolation_in(s) == Err::<InterpolationView, ParseErrorView>(
            fail(ErrorKind::Unterminated, i),
        ),
{
    lemma_plain_run(s, 0, i, Seq::empty(), Seq::empty());
    lemma_no_brace(s.skip(i + 2));
}

} // verus!
