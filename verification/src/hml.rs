//! Map literals: a comma-separated sequence of `key: value` entries, or the
//! single token `:` for the empty map.

use vstd::prelude::*;
use crate::token::{Token, ErrorKind, ParseError, fail, punct_at, render, text_of, has_punct, write_tokens, ParseErrorView, error};
use crate::host::{expr_parses, ident_parses, is_expr, is_ident};

verus! {

/// The key of an entry: a variable, by its name, or a literal, by its
/// source text.
#[derive(Clone, Debug, PartialEq, Eq)]
pub enum Key {
    Variable(String),
    Literal(String),
}

/// What a `Key` holds, as a sequence of characters.
pub enum KeyView {
    Variable(Seq<char>),
    Literal(Seq<char>),
}

impl View for Key {
    type V = KeyView;

    open spec fn view(&self) -> KeyView {
        match *self {
            Key::Variable(s) => KeyView::Variable(s@),
            Key::Literal(s) => KeyView::Literal(s@),
        }
    }
}

/// One `key: value` pair. The value is the source text of an expression.
#[derive(Clone, Debug, PartialEq, Eq)]
pub struct MapEntry {
    pub key: Key,
    pub value: String,
}

/// What a `MapEntry` holds, as sequences of characters.
pub struct MapEntryView {
    pub key: KeyView,
    pub value: Seq<char>,
}

impl View for MapEntry {
    type V = MapEntryView;

    open spec fn view(&self) -> MapEntryView {
        MapEntryView { key: self.key@, value: self.value@ }
    }
}

/// A map literal: its entries in source order, or `None` for the empty-map
/// marker.
#[derive(Clone, Debug, PartialEq, Eq)]
pub struct MapLiteral {
    pub entries: Option<Vec<MapEntry>>,
}

/// What a `MapLiteral` holds.
pub struct MapLiteralView {
    pub entries: Option<Seq<MapEntryView>>,
}

/// The views of a sequence of entries.
pub open spec fn entry_views(v: Seq<MapEntry>) -> Seq<MapEntryView> {
    v.map_values(|e: MapEntry| e@)
}

impl View for MapLiteral {
    type V = MapLiteralView;

    open spec fn view(&self) -> MapLiteralView {
        MapLiteralView {
            entries: match self.entries {
                Some(v) => Some(entry_views(v@)),
                None => None,
            },
        }
    }
}

/// A result that carries a `Key` and the position after it, the key taken
/// by its view.
pub open spec fn key_of(r: Result<(Key, usize), ParseError>) -> Result<
    (KeyView, int),
    ParseErrorView,
> {
    match r {
        Ok((key, end)) => Ok((key@, end as int)),
        Err(e) => Err(e@),
    }
}

/// A result that carries an entry and the position after its value, the
/// entry taken by its view.
pub open spec fn entry_of(r: Result<(MapEntry, usize), ParseError>) -> Result<
    (MapEntryView, int),
    ParseErrorView,
> {
    match r {
        Ok((entry, end)) => Ok((entry@, end as int)),
        Err(e) => Err(e@),
    }
}

/// A result that carries a `MapLiteral`, taken by its view.
pub open spec fn map_of(r: Result<MapLiteral, ParseError>) -> Result<MapLiteralView, ParseErrorView> {
    match r {
        Ok(m) => Ok(m@),
        Err(e) => Err(e@),
    }
}

/// The text is one of the two boolean literals.
pub open spec fn is_bool_word(text: Seq<char>) -> bool {
    text == "true"@ || text == "false"@
}

/// The character is a decimal digit.
pub open spec fn is_digit(c: char) -> bool {
    c == '0' || c == '1' || c == '2' || c == '3' || c == '4' || c == '5' || c == '6' || c == '7'
        || c == '8' || c == '9'
}

/// The text of the numeric literal token at position `i`, if there is one:
/// a literal that begins with a digit.
pub open spec fn number_at(ts: Seq<Token>, i: int) -> Option<Seq<char>> {
    if 0 <= i < ts.len() {
        match ts[i] {
            Token::Literal(s) => if s@.len() > 0 && is_digit(s@[0]) {
                Some(s@)
            } else {
                None
            },
            _ => None,
        }
    } else {
        None
    }
}

/// The key expected at position `i`, with the position after it. A literal
/// key is a literal token, the word `true` or `false`, or `-` and a numeric
/// literal, which takes two tokens; a variable key is an identifier that
/// is no keyword. Anything else is an error.
pub open spec fn key_at(ts: Seq<Token>, i: int) -> Result<(KeyView, int), ParseErrorView> {
    if 0 <= i < ts.len() {
        match ts[i] {
            Token::Ident(s) => if is_bool_word(s@) {
                Ok((KeyView::Literal(s@), i + 1))
            } else if ident_parses(s@) {
                Ok((KeyView::Variable(s@), i + 1))
            } else {
                Err(fail(ErrorKind::Grammar, i))
            },
            Token::Literal(s) => Ok((KeyView::Literal(s@), i + 1)),
            Token::Punct(c, _) => match number_at(ts, i + 1) {
                Some(number) => if c == '-' {
                    Ok((KeyView::Literal("-"@ + number), i + 2))
                } else {
                    Err(fail(ErrorKind::Grammar, i))
                },
                None => Err(fail(ErrorKind::Grammar, i)),
            },
            _ => Err(fail(ErrorKind::Grammar, i)),
        }
    } else {
        Err(fail(ErrorKind::Grammar, i))
    }
}

/// Where the value that begins at `start` ends: the largest position `e`
/// with `start < e <= end` such that the tokens from `start` up to `e`
/// spell one expression and `e` is the end of the tokens or holds a comma.
/// It is `start` if there is no such position.
pub open spec fn value_end(ts: Seq<Token>, start: int, end: int) -> int
    decreases end - start,
{
    if end <= start {
        start
    } else if (end == ts.len() || punct_at(ts, end, ',')) && expr_parses(
        render(ts.subrange(start, end)),
    ) {
        end
    } else {
        value_end(ts, start, end - 1)
    }
}

/// The entry expected at position `i`, with the position after its value:
/// a key, a colon, and a value.
pub open spec fn entry_at(ts: Seq<Token>, i: int) -> Result<(MapEntryView, int), ParseErrorView> {
    match key_at(ts, i) {
        Err(e) => Err(e),
        Ok((key, colon)) => if !punct_at(ts, colon, ':') {
            Err(fail(ErrorKind::Missing, colon))
        } else {
            let end = value_end(ts, colon + 1, ts.len() as int);
            if end <= colon + 1 {
                Err(fail(ErrorKind::Expression, colon + 1))
            } else {
                Ok((MapEntryView { key, value: render(ts.subrange(colon + 1, end)) }, end))
            }
        },
    }
}

/// The entries from position `i` on, after those in `found`. A comma
/// separates the entries, and one may follow the last.
pub open spec fn entries_from(ts: Seq<Token>, i: int, found: Seq<MapEntryView>) -> Result<
    Seq<MapEntryView>,
    ParseErrorView,
>
    decreases ts.len() - i,
{
    if i >= ts.len() || i < 0 {
        Ok(found)
    } else {
        match entry_at(ts, i) {
            Err(e) => Err(e),
            Ok((entry, end)) => if end >= ts.len() {
                Ok(found.push(entry))
            } else {
                entries_from(ts, end + 1, found.push(entry))
            },
        }
    }
}

/// The grammar of a map literal: the single token `:`, or entries.
pub open spec fn map_grammar(ts: Seq<Token>) -> Result<MapLiteralView, ParseErrorView> {
    if punct_at(ts, 0, ':') {
        if ts.len() != 1 {
            Err(fail(ErrorKind::Missing, 1))
        } else {
            Ok(MapLiteralView { entries: None })
        }
    } else {
        match entries_from(ts, 0, Seq::empty()) {
            Err(e) => Err(e),
            Ok(entries) => Ok(MapLiteralView { entries: Some(entries) }),
        }
    }
}

/// The decimal digit for `d`.
pub open spec fn digit(d: nat) -> char {
    if d == 0 {
        '0'
    } else if d == 1 {
        '1'
    } else if d == 2 {
        '2'
    } else if d == 3 {
        '3'
    } else if d == 4 {
        '4'
    } else if d == 5 {
        '5'
    } else if d == 6 {
        '6'
    } else if d == 7 {
        '7'
    } else if d == 8 {
        '8'
    } else {
        '9'
    }
}

/// The decimal numeral of `n`.
pub open spec fn decimal(n: nat) -> Seq<char>
    decreases n,
{
    if n < 10 {
        seq![digit(n)]
    } else {
        decimal(n / 10).push(digit(n % 10))
    }
}

/// The source text of a key.
pub open spec fn key_text(k: KeyView) -> Seq<char> {
    match k {
        KeyView::Variable(s) => s,
        KeyView::Literal(s) => s,
    }
}

/// The statement that inserts one entry.
pub open spec fn insert_text(e: MapEntryView) -> Seq<char> {
    "temp_map.insert("@ + key_text(e.key) + ", "@ + e.value + "); "@
}

/// The statements that insert the entries, in order.
pub open spec fn inserts(entries: Seq<MapEntryView>) -> Seq<char>
    decreases entries.len(),
{
    if entries.len() == 0 {
        Seq::empty()
    } else {
        inserts(entries.drop_last()) + insert_text(entries.last())
    }
}

/// The expansion: for the empty-map marker, a call that makes an empty
/// map; otherwise a block that makes a map with room for as many entries
/// as the literal has, inserts them in source order and yields the map.
pub open spec fn map_expansion(m: MapLiteralView) -> Seq<char> {
    match m.entries {
        None => "std::collections::HashMap::new()"@,
        Some(entries) => "{ let mut temp_map = std::collections::HashMap::with_capacity("@
            + decimal(entries.len()) + "usize); "@ + inserts(entries) + "temp_map }"@,
    }
}

/// What `hml_impl` returns for the tokens `ts`.
pub open spec fn hml_text(ts: Seq<Token>) -> Result<Seq<char>, ParseErrorView> {
    match map_grammar(ts) {
        Ok(m) => Ok(map_expansion(m)),
        Err(e) => Err(e),
    }
}

/// The digit for `d`.
pub fn digit_char(d: usize) -> (c: char)
    requires
        d < 10,
    ensures
        c == digit(d as nat),
{
    if d == 0 {
        '0'
    } else if d == 1 {
        '1'
    } else if d == 2 {
        '2'
    } else if d == 3 {
        '3'
    } else if d == 4 {
        '4'
    } else if d == 5 {
        '5'
    } else if d == 6 {
        '6'
    } else if d == 7 {
        '7'
    } else if d == 8 {
        '8'
    } else {
        '9'
    }
}

/// Appends the decimal numeral of `n`.
pub fn write_decimal(out: &mut String, n: usize)
    ensures
        final(out)@ == old(out)@ + decimal(n as nat),
    decreases n,
{
    let ghost before = out@;
    if n >= 10 {
        write_decimal(out, n / 10);
    }
    out.push(digit_char(n % 10));
    assert(out@ =~= before + decimal(n as nat));
}

/// Tests whether the character is a decimal digit.
pub fn is_digit_char(c: char) -> (b: bool)
    ensures
        b == is_digit(c),
{
    c == '0' || c == '1' || c == '2' || c == '3' || c == '4' || c == '5' || c == '6' || c == '7'
        || c == '8' || c == '9'
}

/// The text of the numeric literal token at position `i`, if there is one.
pub fn number(tokens: &Vec<Token>, i: usize) -> (r: Option<&str>)
    ensures
        match r {
            Some(text) => number_at(tokens@, i as int) == Some(text@),
            None => number_at(tokens@, i as int).is_none(),
        },
{
    if i < tokens.len() {
        match &tokens[i] {
            Token::Literal(s) => {
                if s.as_str().unicode_len() > 0 && is_digit_char(s.as_str().get_char(0)) {
                    Some(s.as_str())
                } else {
                    None
                }
            },
            _ => None,
        }
    } else {
        None
    }
}

/// Finds where the value that begins at `start` ends, and writes its text.
pub fn find_value(tokens: &Vec<Token>, start: usize) -> (r: Option<(usize, String)>)
    requires
        start <= tokens@.len(),
    ensures
        match r {
            Some((end, text)) => start < end <= tokens@.len() && end as int == value_end(
                tokens@,
                start as int,
                tokens@.len() as int,
            ) && text@ == render(tokens@.subrange(start as int, end as int)),
            None => value_end(tokens@, start as int, tokens@.len() as int) <= start,
        },
{
    let mut end: usize = tokens.len();
    while end > start
        invariant
            start <= end <= tokens@.len(),
            value_end(tokens@, start as int, tokens@.len() as int) == value_end(
                tokens@,
                start as int,
                end as int,
            ),
        decreases end,
    {
        if end == tokens.len() || has_punct(tokens, end, ',') {
            let text = write_tokens(tokens, start, end);
            if is_expr(text.as_str()) {
                return Some((end, text));
            }
        }
        end = end - 1;
    }
    None
}

impl Key {
    /// Parses the key at position `i`, and gives the position after it.
    pub fn parse(tokens: &Vec<Token>, i: usize) -> (r: Result<(Key, usize), ParseError>)
        ensures
            key_of(r) == key_at(tokens@, i as int),
            r matches Ok((_, end)) ==> i < end <= tokens@.len(),
    {
        if i < tokens.len() {
            match &tokens[i] {
                Token::Ident(s) => {
                    if s.eq(&String::from_str("true")) || s.eq(&String::from_str("false")) {
                        Ok((Key::Literal(s.clone()), i + 1))
                    } else if is_ident(s.as_str()) {
                        Ok((Key::Variable(s.clone()), i + 1))
                    } else {
                        Err(error(ErrorKind::Grammar, i))
                    }
                },
                Token::Literal(s) => Ok((Key::Literal(s.clone()), i + 1)),
                Token::Punct(c, _) => {
                    match number(tokens, i + 1) {
                        Some(digits) => {
                            if *c == '-' {
                                let mut text = String::from_str("-");
                                text.append(digits);
                                Ok((Key::Literal(text), i + 2))
                            } else {
                                Err(error(ErrorKind::Grammar, i))
                            }
                        },
                        None => Err(error(ErrorKind::Grammar, i)),
                    }
                },
                _ => Err(error(ErrorKind::Grammar, i)),
            }
        } else {
            Err(error(ErrorKind::Grammar, i))
        }
    }

    /// The source text of the key.
    pub fn text(&self) -> (s: &str)
        ensures
            s@ == key_text(self@),
    {
        match self {
            Key::Variable(s) => s.as_str(),
            Key::Literal(s) => s.as_str(),
        }
    }
}

impl MapEntry {
    /// Parses the entry at position `i`, and gives the position after its
    /// value.
    pub fn parse(tokens: &Vec<Token>, i: usize) -> (r: Result<(MapEntry, usize), ParseError>)
        ensures
            entry_of(r) == entry_at(tokens@, i as int),
            r matches Ok((_, end)) ==> i + 2 < end <= tokens@.len(),
    {
        let (key, colon) = match Key::parse(tokens, i) {
            Ok(found) => found,
            Err(e) => { return Err(e); },
        };
        if !has_punct(tokens, colon, ':') {
            return Err(error(ErrorKind::Missing, colon));
        }
        assert(colon < tokens.len());
        match find_value(tokens, colon + 1) {
            Some((end, value)) => Ok((MapEntry { key, value }, end)),
            None => Err(error(ErrorKind::Expression, colon + 1)),
        }
    }

    /// Writes the statement that inserts the entry.
    pub fn write_insert(&self) -> (out: String)
        ensures
            out@ == insert_text(self@),
    {
        let mut out = String::from_str("temp_map.insert(");
        out.append(self.key.text());
        out.append(", ");
        out.append(self.value.as_str());
        out.append("); ");
        out
    }
}

impl MapLiteral {
    /// Parses a map literal.
    pub fn parse(tokens: &Vec<Token>) -> (r: Result<MapLiteral, ParseError>)
        ensures
            map_of(r) == map_grammar(tokens@),
    {
        if has_punct(tokens, 0, ':') {
            if tokens.len() != 1 {
                return Err(error(ErrorKind::Missing, 1));
            }
            return Ok(MapLiteral { entries: None });
        }
        let mut entries: Vec<MapEntry> = Vec::new();
        let mut i: usize = 0;
        assert(entry_views(entries@) =~= Seq::<MapEntryView>::empty());
        while i < tokens.len()
            invariant
                !punct_at(tokens@, 0, ':'),
                entries_from(tokens@, 0, Seq::empty()) == entries_from(
                    tokens@,
                    i as int,
                    entry_views(entries@),
                ),
            decreases tokens.len() - i,
        {
            let (entry, end) = match MapEntry::parse(tokens, i) {
                Ok(found) => found,
                Err(e) => { return Err(e); },
            };
            proof {
                assert(entry_views(entries@.push(entry)) =~= entry_views(entries@).push(entry@));
            }
            entries.push(entry);
            if end == tokens.len() {
                return Ok(MapLiteral { entries: Some(entries) });
            }
            i = end + 1;
        }
        Ok(MapLiteral { entries: Some(entries) })
    }

    /// Writes the expansion.
    pub fn expand(&self) -> (out: String)
        ensures
            out@ == map_expansion(self@),
    {
        match &self.entries {
            None => String::from_str("std::collections::HashMap::new()"),
            Some(entries) => {
                let mut out = String::from_str(
                    "{ let mut temp_map = std::collections::HashMap::with_capacity(",
                );
                write_decimal(&mut out, entries.len());
                out.append("usize); ");
                let ghost head = out@;
                let mut k: usize = 0;
                assert(entry_views(entries@).subrange(0, 0).len() == 0);
                assert(out@ =~= head + inserts(entry_views(entries@).subrange(0, 0)));
                while k < entries.len()
                    invariant
                        k <= entries.len(),
                        out@ == head + inserts(entry_views(entries@).subrange(0, k as int)),
                    decreases entries.len() - k,
                {
                    let statement = entries[k].write_insert();
                    out.append(statement.as_str());
                    proof {
                        let next = entry_views(entries@).subrange(0, k + 1);
                        assert(next.drop_last() =~= entry_views(entries@).subrange(0, k as int));
                        assert(next.last() == entries@[k as int]@);
                        assert(out@ =~= head + inserts(next));
                    }
                    k = k + 1;
                }
                assert(entry_views(entries@).subrange(0, k as int) =~= entry_views(entries@));
                out.append("temp_map }");
                out
            },
        }
    }
}

/// Expands a map literal into the construction of a hash map: for `:` the
/// empty map; for entries, a map sized for their number into which each
/// is inserted in source order, so that of two entries with one key the
/// later one stays.
pub fn hml_impl(input: &Vec<Token>) -> (r: Result<String, ParseError>)
    ensures
        text_of(r) == hml_text(input@),
{
    match MapLiteral::parse(input) {
        Ok(m) => Ok(m.expand()),
        Err(e) => Err(e),
    }
}

/// The empty-map marker, and no tokens at all, both expand to an empty
/// map: the marker to a direct construction with no bindings, the empty
/// input to a map made with room for no entries.
pub proof fn law_empty_map(ts: Seq<Token>)
    requires
        ts.len() <= 1,
        ts.len() == 1 ==> punct_at(ts, 0, ':'),
    ensures
        ts.len() == 1 ==> hml_text(ts) == Ok::<Seq<char>, ParseErrorView>(
            "std::collections::HashMap::new()"@,
        ),
        ts.len() == 0 ==> hml_text(ts) == Ok::<Seq<char>, ParseErrorView>(
            "{ let mut temp_map = std::collections::HashMap::with_capacity("@ + seq!['0']
                + "usize); "@ + Seq::<char>::empty() + "temp_map }"@,
        ),
{
}

/// Entries are inserted in source order, and the map is made with room
/// for exactly as many entries as the literal has: the expansion for the
/// entries `entries` followed by `last` ends with the insertion of `last`,
/// after the insertions of all of `entries`, so a later entry overwrites
/// an earlier one with the same key.
pub proof fn law_insertion_order(entries: Seq<MapEntryView>, last: MapEntryView)
    ensures
        inserts(entries.push(last)) == inserts(entries) + insert_text(last),
        map_expansion(MapLiteralView { entries: Some(entries.push(last)) })
            == "{ let mut temp_map = std::collections::HashMap::with_capacity("@ + decimal(
            entries.len() + 1,
        ) + "usize); "@ + (inserts(entries) + insert_text(last)) + "temp_map }"@,
{
    assert(entries.push(last).drop_last() =~= entries);
}

} // verus!
