//! The token model that every transformer reads, and the parse error they
//! share.

use vstd::prelude::*;

verus! {

/// How a group of tokens is delimited.
#[derive(Clone, Copy, Debug, PartialEq, Eq, Structural)]
pub enum Delimiter {
    Parenthesis,
    Brace,
    Bracket,
    Invisible,
}

/// One lexical token of a macro invocation's argument list.
///
/// A group is kept as its delimiter and the source text between the
/// delimiters: the transformers never look inside an embedded expression.
#[derive(Clone, Debug, PartialEq, Eq)]
pub enum Token {
    /// A name, by its text.
    Ident(String),
    /// A punctuation character, and whether the next token follows it
    /// without a space (so that the two read as one operator).
    Punct(char, bool),
    /// A literal, by its source text.
    Literal(String),
    /// A delimited group, by its delimiter and the text inside it.
    Group(Delimiter, String),
}

/// The class of a parse failure.
#[derive(Clone, Copy, Debug, PartialEq, Eq, Structural)]
pub enum ErrorKind {
    /// A required delimiter, separator or operator is missing, or tokens are
    /// left over.
    Missing,
    /// A position holds something outside the set that the form allows.
    Grammar,
    /// The text of an embedded expression is not an expression.
    Expression,
    /// An interpolation marker is opened and never closed.
    Unterminated,
}

/// A parse failure: its class, the position at which it was found (an
/// index into the tokens; for interpolation, into the characters of the
/// string), and, where the host parser refused an embedded expression, the
/// message with which it did so.
#[derive(Clone, Debug, PartialEq, Eq)]
pub struct ParseError {
    pub kind: ErrorKind,
    pub at: usize,
    pub detail: String,
}

/// What a `ParseError` holds, the message as a sequence of characters.
pub struct ParseErrorView {
    pub kind: ErrorKind,
    pub at: usize,
    pub detail: Seq<char>,
}

impl View for ParseError {
    type V = ParseErrorView;

    open spec fn view(&self) -> ParseErrorView {
        ParseErrorView { kind: self.kind, at: self.at, detail: self.detail@ }
    }
}

/// The error of class `kind` at position `i`, with no message.
pub open spec fn fail(kind: ErrorKind, i: int) -> ParseErrorView {
    ParseErrorView { kind, at: i as usize, detail: Seq::empty() }
}

/// The error at position `i` for an embedded expression that the host
/// parser refused with the message `detail`.
pub open spec fn refused(i: int, detail: Seq<char>) -> ParseErrorView {
    ParseErrorView { kind: ErrorKind::Expression, at: i as usize, detail }
}

/// Makes the error of class `kind` at position `at`, with no message.
pub fn error(kind: ErrorKind, at: usize) -> (e: ParseError)
    ensures
        e@ == fail(kind, at as int),
{
    ParseError { kind, at, detail: String::new() }
}

/// Position `i` holds the punctuation character `c`.
pub open spec fn punct_at(ts: Seq<Token>, i: int, c: char) -> bool {
    0 <= i < ts.len() && ts[i] == Token::Punct(c, true) || 0 <= i < ts.len() && ts[i]
        == Token::Punct(c, false)
}

/// Positions `i` and `i + 1` hold the two-character operator `a b`: `a`
/// joined to what follows, then `b`.
pub open spec fn operator_at(ts: Seq<Token>, i: int, a: char, b: char) -> bool {
    0 <= i < ts.len() && ts[i] == Token::Punct(a, true) && punct_at(ts, i + 1, b)
}

/// The text inside the parenthesized group at position `i`, if there is one.
pub open spec fn paren_at(ts: Seq<Token>, i: int) -> Option<Seq<char>> {
    if 0 <= i < ts.len() {
        match ts[i] {
            Token::Group(Delimiter::Parenthesis, text) => Some(text@),
            _ => None,
        }
    } else {
        None
    }
}

/// The text of the identifier token at position `i`, if there is one.
pub open spec fn ident_at(ts: Seq<Token>, i: int) -> Option<Seq<char>> {
    if 0 <= i < ts.len() {
        match ts[i] {
            Token::Ident(text) => Some(text@),
            _ => None,
        }
    } else {
        None
    }
}

/// The number of tokens that an optional leading `!` takes: 1 or 0.
pub open spec fn negation_len(ts: Seq<Token>) -> int {
    if punct_at(ts, 0, '!') {
        1
    } else {
        0
    }
}

/// A result that carries text, with the text taken by its view.
pub open spec fn text_of(r: Result<String, ParseError>) -> Result<Seq<char>, ParseErrorView> {
    match r {
        Ok(s) => Ok(s@),
        Err(e) => Err(e@),
    }
}

/// The views of a sequence of strings.
pub open spec fn texts(v: Seq<String>) -> Seq<Seq<char>> {
    v.map_values(|s: String| s@)
}

/// Tests whether position `i` holds the punctuation character `c`.
pub fn has_punct(tokens: &Vec<Token>, i: usize, c: char) -> (b: bool)
    ensures
        b == punct_at(tokens@, i as int, c),
{
    if i < tokens.len() {
        match &tokens[i] {
            Token::Punct(ch, _) => *ch == c,
            _ => false,
        }
    } else {
        false
    }
}

/// Tests whether positions `i` and `i + 1` hold the operator `a b`.
pub fn has_operator(tokens: &Vec<Token>, i: usize, a: char, b: char) -> (r: bool)
    ensures
        r == operator_at(tokens@, i as int, a, b),
{
    if i < tokens.len() {
        match &tokens[i] {
            Token::Punct(ch, joint) => *ch == a && *joint && has_punct(tokens, i + 1, b),
            _ => false,
        }
    } else {
        false
    }
}

/// Whether the tokens open with `!`, and how many tokens that takes.
pub fn leading_negation(tokens: &Vec<Token>) -> (r: (bool, usize))
    ensures
        r.0 == punct_at(tokens@, 0, '!'),
        r.1 as int == negation_len(tokens@),
{
    if has_punct(tokens, 0, '!') {
        (true, 1)
    } else {
        (false, 0)
    }
}

/// `String::push` appends one character to the string.
pub assume_specification[ String::push ](s: &mut String, c: char)
    ensures
        final(s)@ == old(s)@.push(c),
;

/// The text that opens a group.
pub open spec fn opening(d: Delimiter) -> Seq<char> {
    match d {
        Delimiter::Parenthesis => "("@,
        Delimiter::Brace => "{"@,
        Delimiter::Bracket => "["@,
        Delimiter::Invisible => ""@,
    }
}

/// The text that closes a group.
pub open spec fn closing(d: Delimiter) -> Seq<char> {
    match d {
        Delimiter::Parenthesis => ")"@,
        Delimiter::Brace => "}"@,
        Delimiter::Bracket => "]"@,
        Delimiter::Invisible => ""@,
    }
}

/// The source text of one token. A space follows it, unless it is a
/// punctuation character joined to the next token.
pub open spec fn token_text(t: Token) -> Seq<char> {
    match t {
        Token::Ident(s) => s@ + " "@,
        Token::Punct(c, joint) => if joint {
            seq![c]
        } else {
            seq![c] + " "@
        },
        Token::Literal(s) => s@ + " "@,
        Token::Group(d, s) => opening(d) + s@ + closing(d) + " "@,
    }
}

/// The source text of a sequence of tokens: the texts of the tokens, in
/// order.
pub open spec fn render(ts: Seq<Token>) -> Seq<char>
    decreases ts.len(),
{
    if ts.len() == 0 {
        Seq::empty()
    } else {
        render(ts.drop_last()) + token_text(ts.last())
    }
}

/// Appends the source text of one token.
pub fn write_token(out: &mut String, t: &Token)
    ensures
        final(out)@ == old(out)@ + token_text(*t),
{
    let ghost before = out@;
    match t {
        Token::Ident(s) => {
            out.append(s.as_str());
            out.append(" ");
            assert(out@ =~= before + (s@ + " "@));
        },
        Token::Punct(c, joint) => {
            out.push(*c);
            if !*joint {
                out.append(" ");
            }
            assert(out@ =~= before + token_text(*t));
        },
        Token::Literal(s) => {
            out.append(s.as_str());
            out.append(" ");
            assert(out@ =~= before + (s@ + " "@));
        },
        Token::Group(d, s) => {
            match d {
                Delimiter::Parenthesis => out.append("("),
                Delimiter::Brace => out.append("{"),
                Delimiter::Bracket => out.append("["),
                Delimiter::Invisible => out.append(""),
            }
            out.append(s.as_str());
            match d {
                Delimiter::Parenthesis => out.append(")"),
                Delimiter::Brace => out.append("}"),
                Delimiter::Bracket => out.append("]"),
                Delimiter::Invisible => out.append(""),
            }
            out.append(" ");
            assert(out@ =~= before + (opening(*d) + s@ + closing(*d) + " "@));
        },
    }
}

/// Writes the source text of the tokens from position `from` up to, and
/// without, position `to`.
pub fn write_tokens(tokens: &Vec<Token>, from: usize, to: usize) -> (out: String)
    requires
        from <= to <= tokens@.len(),
    ensures
        out@ == render(tokens@.subrange(from as int, to as int)),
{
    let mut out = String::new();
    let mut k: usize = from;
    assert(tokens@.subrange(from as int, from as int).len() == 0);
    while k < to
        invariant
            from <= k <= to <= tokens@.len(),
            out@ == render(tokens@.subrange(from as int, k as int)),
        decreases to - k,
    {
        write_token(&mut out, &tokens[k]);
        proof {
            let next = tokens@.subrange(from as int, k + 1);
            assert(next.drop_last() =~= tokens@.subrange(from as int, k as int));
            assert(next.last() == tokens@[k as int]);
        }
        k = k + 1;
    }
    out
}

} // verus!
