//! Paths of the `query` command, such as `.foo[0]["bar"][1:3]`: their grammar, and how an index
//! or a range selects from a sequence.
use vstd::prelude::*;

use crate::primitive::{i64_from_str_radix, radix_value};
use crate::text::chars_of;

verus! {

/// A token of a path: a number, a string (a field name), or `.` (the whole value).
#[derive(Debug, Clone, PartialEq)]
pub enum Token {
    Number(i64),
    String(String),
    Dot,
}

/// A part of a path: an index (`.name`, `["name"]`, `[0]`, `.`) or a range (`[from:to]`).
#[derive(Debug, Clone, PartialEq)]
pub enum Part<I> {
    Index(I),
    Range(Option<I>, Option<I>),
}

/// The value of a [`Token`].
pub enum TokenSpec {
    Number(i64),
    String(Seq<char>),
    Dot,
}

/// The value of a [`Part`] of tokens.
pub enum PartSpec {
    Index(TokenSpec),
    Range(Option<TokenSpec>, Option<TokenSpec>),
}

impl View for Token {
    type V = TokenSpec;

    open spec fn view(&self) -> TokenSpec {
        match self {
            Token::Number(i) => TokenSpec::Number(*i),
            Token::String(s) => TokenSpec::String(s@),
            Token::Dot => TokenSpec::Dot,
        }
    }
}

pub open spec fn opt_token_view(t: Option<Token>) -> Option<TokenSpec> {
    match t {
        Some(t) => Some(t@),
        None => None,
    }
}

impl View for Part<Token> {
    type V = PartSpec;

    open spec fn view(&self) -> PartSpec {
        match self {
            Part::Index(t) => PartSpec::Index(t@),
            Part::Range(a, b) => PartSpec::Range(opt_token_view(*a), opt_token_view(*b)),
        }
    }
}

pub open spec fn parts_view(ps: Seq<Part<Token>>) -> Seq<PartSpec> {
    ps.map_values(|p: Part<Token>| p@)
}

/// Why a path could not be read: no part of the grammar matches the text at this point.
#[derive(Debug, PartialEq, Eq, Clone, Copy)]
pub struct QueryParseError;

impl Token {
    /// If the value is integer, return it, else fail with the token itself.
    pub fn as_int(&self) -> (r: Result<i64, Token>)
        ensures
            match self {
                Token::Number(i) => r == Ok::<i64, Token>(*i),
                _ => r matches Err(t) && t@ == self@,
            },
    {
        match self {
            Token::Number(i) => Ok(*i),
            Token::String(s) => Err(Token::String(s.clone())),
            Token::Dot => Err(Token::Dot),
        }
    }
}

pub open spec fn is_digit(c: char) -> bool {
    '0' <= c && c <= '9'
}

pub open spec fn is_identifier_initial(c: char) -> bool {
    c == '$' || c == '_' || ('a' <= c && c <= 'z') || ('A' <= c && c <= 'Z')
}

pub open spec fn is_identifier_trailing(c: char) -> bool {
    is_identifier_initial(c) || is_digit(c)
}

/// The number of digits at the start of `s`.
pub open spec fn leading_digits(s: Seq<char>) -> nat
    decreases s.len(),
{
    if s.len() > 0 && is_digit(s[0]) {
        1 + leading_digits(s.drop_first())
    } else {
        0
    }
}

/// The number of identifier characters at the start of `s`.
pub open spec fn leading_identifier_chars(s: Seq<char>) -> nat
    decreases s.len(),
{
    if s.len() > 0 && is_identifier_trailing(s[0]) {
        1 + leading_identifier_chars(s.drop_first())
    } else {
        0
    }
}

/// The index of the first `"` in `s` at or after `i`.
pub open spec fn quote_from(s: Seq<char>, i: int) -> Option<int>
    decreases s.len() - i,
{
    if i < 0 || i >= s.len() {
        None
    } else if s[i] == '"' {
        Some(i)
    } else {
        quote_from(s, i + 1)
    }
}

/// A number at the start of `s`: an optional sign and one or more digits, in the range of
/// `i64`; with the number of characters it takes.
pub open spec fn number_spec(s: Seq<char>) -> Option<(nat, i64)> {
    let sign: nat = if s.len() > 0 && (s[0] == '+' || s[0] == '-') {
        1
    } else {
        0
    };
    let k = leading_digits(s.subrange(sign as int, s.len() as int));
    if k == 0 {
        None
    } else {
        match radix_value(s.subrange(0, (sign + k) as int), 10) {
            Some(v) => Some(((sign + k) as nat, v)),
            None => None,
        }
    }
}

/// A string at the start of `s`: the characters between a `"` and the next `"`.
pub open spec fn string_spec(s: Seq<char>) -> Option<(nat, Seq<char>)> {
    if s.len() > 0 && s[0] == '"' {
        match quote_from(s, 1) {
            Some(j) => Some(((j + 1) as nat, s.subrange(1, j))),
            None => None,
        }
    } else {
        None
    }
}

/// The length of an identifier at the start of `s`: a letter, `$` or `_`, followed by letters,
/// digits, `$` and `_`.
pub open spec fn identifier_spec(s: Seq<char>) -> Option<nat> {
    if s.len() > 0 && is_identifier_initial(s[0]) {
        Some(1 + leading_identifier_chars(s.drop_first()))
    } else {
        None
    }
}

/// A number, or else a string.
pub open spec fn expression_spec(s: Seq<char>) -> Option<(nat, TokenSpec)> {
    match number_spec(s) {
        Some((n, v)) => Some((n, TokenSpec::Number(v))),
        None => match string_spec(s) {
            Some((n, c)) => Some((n, TokenSpec::String(c))),
            None => None,
        },
    }
}

/// `.`
pub open spec fn dot_spec(s: Seq<char>) -> Option<(nat, PartSpec)> {
    if s.len() > 0 && s[0] == '.' {
        Some((1, PartSpec::Index(TokenSpec::Dot)))
    } else {
        None
    }
}

/// `.` followed by an identifier: the field of that name.
pub open spec fn field_spec(s: Seq<char>) -> Option<(nat, PartSpec)> {
    if s.len() > 0 && s[0] == '.' {
        match identifier_spec(s.drop_first()) {
            Some(k) => Some(((1 + k) as nat, PartSpec::Index(TokenSpec::String(s.subrange(1, (1 + k) as int))))),
            None => None,
        }
    } else {
        None
    }
}

/// A field, or else `.`.
pub open spec fn field_or_dot_spec(s: Seq<char>) -> Option<(nat, PartSpec)> {
    match field_spec(s) {
        Some(r) => Some(r),
        None => dot_spec(s),
    }
}

/// An optional expression, `:`, and an optional expression: a range.
pub open spec fn range_spec(s: Seq<char>) -> Option<(nat, PartSpec)> {
    let (n1, from) = match expression_spec(s) {
        Some((n, t)) => (n, Some(t)),
        None => (0nat, None),
    };
    if n1 < s.len() && s[n1 as int] == ':' {
        let s2 = s.subrange((n1 + 1) as int, s.len() as int);
        let (n2, to) = match expression_spec(s2) {
            Some((n, t)) => (n, Some(t)),
            None => (0nat, None),
        };
        Some(((n1 + 1 + n2) as nat, PartSpec::Range(from, to)))
    } else {
        None
    }
}

/// An expression, as an index.
pub open spec fn index_spec(s: Seq<char>) -> Option<(nat, PartSpec)> {
    match expression_spec(s) {
        Some((n, t)) => Some((n, PartSpec::Index(t))),
        None => None,
    }
}

/// A range, or else an index, between `[` and `]`.
pub open spec fn path_part_spec(s: Seq<char>) -> Option<(nat, PartSpec)> {
    if s.len() > 0 && s[0] == '[' {
        let inner = s.drop_first();
        let r = match range_spec(inner) {
            Some(x) => Some(x),
            None => index_spec(inner),
        };
        match r {
            Some((n, p)) => if 1 + n < s.len() && s[(1 + n) as int] == ']' {
                Some(((n + 2) as nat, p))
            } else {
                None
            },
            None => None,
        }
    } else {
        None
    }
}

/// A field, or else a bracketed part.
pub open spec fn trail_part_spec(s: Seq<char>) -> Option<(nat, PartSpec)> {
    match field_spec(s) {
        Some(r) => Some(r),
        None => path_part_spec(s),
    }
}

/// As many fields and bracketed parts as follow one another at the start of `s`.
pub open spec fn path_trail_spec(s: Seq<char>) -> (nat, Seq<PartSpec>)
    decreases s.len(),
{
    match trail_part_spec(s) {
        Some((n, p)) => if 0 < n <= s.len() {
            let (m, ps) = path_trail_spec(s.subrange(n as int, s.len() as int));
            ((n + m) as nat, seq![p] + ps)
        } else {
            (0, Seq::empty())
        },
        None => (0, Seq::empty()),
    }
}

/// A path: a field or `.`, followed by fields and bracketed parts.
pub open spec fn path_spec(s: Seq<char>) -> Option<(nat, Seq<PartSpec>)> {
    match field_or_dot_spec(s) {
        Some((n, head)) => {
            let (m, tail) = path_trail_spec(s.subrange(n as int, s.len() as int));
            Some(((n + m) as nat, seq![head] + tail))
        },
        None => None,
    }
}

/// The text of `input` from character `pos` on.
pub open spec fn rest_at(input: Seq<char>, pos: int) -> Seq<char> {
    input.subrange(pos, input.len() as int)
}

proof fn lemma_leading_digits_bound(s: Seq<char>)
    ensures
        leading_digits(s) <= s.len(),
        forall|i: int| 0 <= i < leading_digits(s) ==> is_digit(s[i]),
        leading_digits(s) < s.len() ==> !is_digit(s[leading_digits(s) as int]),
    decreases s.len(),
{
    if s.len() > 0 && is_digit(s[0]) {
        lemma_leading_digits_bound(s.drop_first());
        assert forall|i: int| 0 <= i < leading_digits(s) implies is_digit(s[i]) by {
            if i > 0 {
                assert(s[i] == s.drop_first()[i - 1]);
            }
        }
    }
}

/// The number of digits in `cs` from `pos` on.
fn count_digits(cs: &Vec<char>, pos: usize) -> (r: usize)
    requires
        pos <= cs@.len(),
    ensures
        r == leading_digits(rest_at(cs@, pos as int)),
        pos + r <= cs@.len(),
{
    let mut i: usize = pos;
    while i < cs.len() && '0' <= cs[i] && cs[i] <= '9'
        invariant
            pos <= i <= cs@.len(),
            leading_digits(rest_at(cs@, pos as int)) == (i - pos) + leading_digits(rest_at(cs@, i as int)),
        decreases cs@.len() - i,
    {
        assert(rest_at(cs@, i as int).drop_first() =~= rest_at(cs@, i + 1));
        i = i + 1;
    }
    i - pos
}

/// The number of identifier characters in `cs` from `pos` on.
fn count_identifier_chars(cs: &Vec<char>, pos: usize) -> (r: usize)
    requires
        pos <= cs@.len(),
    ensures
        r == leading_identifier_chars(rest_at(cs@, pos as int)),
        pos + r <= cs@.len(),
{
    let mut i: usize = pos;
    while i < cs.len() && is_identifier_trailing_char(cs[i])
        invariant
            pos <= i <= cs@.len(),
            leading_identifier_chars(rest_at(cs@, pos as int)) == (i - pos) + leading_identifier_chars(
                rest_at(cs@, i as int),
            ),
        decreases cs@.len() - i,
    {
        assert(rest_at(cs@, i as int).drop_first() =~= rest_at(cs@, i + 1));
        i = i + 1;
    }
    i - pos
}

fn is_identifier_initial_char(c: char) -> (r: bool)
    ensures
        r == is_identifier_initial(c),
{
    c == '$' || c == '_' || ('a' <= c && c <= 'z') || ('A' <= c && c <= 'Z')
}

fn is_identifier_trailing_char(c: char) -> (r: bool)
    ensures
        r == is_identifier_trailing(c),
{
    is_identifier_initial_char(c) || ('0' <= c && c <= '9')
}

/// A number in `cs` at `pos`, with the number of characters it takes.
fn number_at(input: &str, cs: &Vec<char>, pos: usize) -> (r: Option<(usize, i64)>)
    requires
        cs@ == input@,
        pos <= cs@.len(),
    ensures
        match r {
            Some((n, v)) => number_spec(rest_at(cs@, pos as int)) == Some((n as nat, v)) && pos + n
                <= cs@.len(),
            None => number_spec(rest_at(cs@, pos as int)) is None,
        },
{
    let ghost s = rest_at(cs@, pos as int);
    let sign: usize = if pos < cs.len() && (cs[pos] == '+' || cs[pos] == '-') {
        1
    } else {
        0
    };
    assert(s.subrange(sign as int, s.len() as int) =~= rest_at(cs@, pos + sign));
    let k = count_digits(cs, pos + sign);
    if k == 0 {
        return None;
    }
    let text = input.substring_char(pos, pos + sign + k);
    assert(text@ =~= s.subrange(0, sign + k));
    match i64_from_str_radix(text, 10) {
        Some(v) => Some((sign + k, v)),
        None => None,
    }
}

/// The index of the first `"` in `cs` at or after `i`.
fn quote_at_or_after(cs: &Vec<char>, i: usize) -> (r: Option<usize>)
    requires
        i <= cs@.len(),
    ensures
        match r {
            Some(j) => quote_from(cs@, i as int) == Some(j as int),
            None => quote_from(cs@, i as int) is None,
        },
{
    let mut j: usize = i;
    while j < cs.len()
        invariant
            i <= j <= cs@.len(),
            quote_from(cs@, i as int) == quote_from(cs@, j as int),
        decreases cs@.len() - j,
    {
        if cs[j] == '"' {
            return Some(j);
        }
        j = j + 1;
    }
    None
}

proof fn lemma_quote_shift(s: Seq<char>, t: Seq<char>, k: int, i: int)
    requires
        0 <= k <= s.len(),
        t == s.subrange(k, s.len() as int),
        0 <= i,
    ensures
        match quote_from(t, i) {
            Some(j) => quote_from(s, i + k) == Some(j + k),
            None => quote_from(s, i + k) is None,
        },
    decreases t.len() - i,
{
    if i < t.len() {
        assert(t[i] == s[i + k]);
        if t[i] != '"' {
            lemma_quote_shift(s, t, k, i + 1);
        }
    }
}

proof fn lemma_quote_bound(s: Seq<char>, i: int)
    ensures
        quote_from(s, i) matches Some(j) ==> i <= j < s.len() && s[j] == '"',
    decreases s.len() - i,
{
    if 0 <= i < s.len() && s[i] != '"' {
        lemma_quote_bound(s, i + 1);
    }
}

/// A string in `cs` at `pos`, with the number of characters it takes.
fn string_at(input: &str, cs: &Vec<char>, pos: usize) -> (r: Option<(usize, String)>)
    requires
        cs@ == input@,
        pos <= cs@.len(),
    ensures
        match r {
            Some((n, v)) => string_spec(rest_at(cs@, pos as int)) == Some((n as nat, v@)) && pos + n
                <= cs@.len(),
            None => string_spec(rest_at(cs@, pos as int)) is None,
        },
{
    let ghost s = rest_at(cs@, pos as int);
    if pos < cs.len() && cs[pos] == '"' {
        proof {
            lemma_quote_shift(cs@, s, pos as int, 1);
            lemma_quote_bound(cs@, pos + 1);
        }
        match quote_at_or_after(cs, pos + 1) {
            Some(j) => {
                let text = input.substring_char(pos + 1, j);
                assert(text@ =~= s.subrange(1, j - pos));
                Some((j - pos + 1, String::from_str(text)))
            },
            None => None,
        }
    } else {
        None
    }
}

/// The length of an identifier in `cs` at `pos`.
fn identifier_at(cs: &Vec<char>, pos: usize) -> (r: Option<usize>)
    requires
        pos <= cs@.len(),
    ensures
        match r {
            Some(k) => identifier_spec(rest_at(cs@, pos as int)) == Some(k as nat) && pos + k <= cs@.len(),
            None => identifier_spec(rest_at(cs@, pos as int)) is None,
        },
{
    let ghost s = rest_at(cs@, pos as int);
    if pos < cs.len() && is_identifier_initial_char(cs[pos]) {
        assert(s.drop_first() =~= rest_at(cs@, pos + 1));
        let k = count_identifier_chars(cs, pos + 1);
        Some(1 + k)
    } else {
        None
    }
}

/// A number, or else a string, in `cs` at `pos`.
fn expression_at(input: &str, cs: &Vec<char>, pos: usize) -> (r: Option<(usize, Token)>)
    requires
        cs@ == input@,
        pos <= cs@.len(),
    ensures
        match r {
            Some((n, t)) => expression_spec(rest_at(cs@, pos as int)) == Some((n as nat, t@)) && pos
                + n <= cs@.len(),
            None => expression_spec(rest_at(cs@, pos as int)) is None,
        },
{
    match number_at(input, cs, pos) {
        Some((n, v)) => Some((n, Token::Number(v))),
        None => match string_at(input, cs, pos) {
            Some((n, c)) => Some((n, Token::String(c))),
            None => None,
        },
    }
}

/// A field in `cs` at `pos`.
fn field_at(input: &str, cs: &Vec<char>, pos: usize) -> (r: Option<(usize, Part<Token>)>)
    requires
        cs@ == input@,
        pos <= cs@.len(),
    ensures
        match r {
            Some((n, p)) => field_spec(rest_at(cs@, pos as int)) == Some((n as nat, p@)) && 0 < n && pos + n
                <= cs@.len(),
            None => field_spec(rest_at(cs@, pos as int)) is None,
        },
{
    let ghost s = rest_at(cs@, pos as int);
    if pos < cs.len() && cs[pos] == '.' {
        assert(s.drop_first() =~= rest_at(cs@, pos + 1));
        match identifier_at(cs, pos + 1) {
            Some(k) => {
                let name = input.substring_char(pos + 1, pos + 1 + k);
                assert(name@ =~= s.subrange(1, 1 + k));
                Some((1 + k, Part::Index(Token::String(String::from_str(name)))))
            },
            None => None,
        }
    } else {
        None
    }
}

/// A field, or else `.`, in `cs` at `pos`.
fn field_or_dot_at(input: &str, cs: &Vec<char>, pos: usize) -> (r: Option<(usize, Part<Token>)>)
    requires
        cs@ == input@,
        pos <= cs@.len(),
    ensures
        match r {
            Some((n, p)) => field_or_dot_spec(rest_at(cs@, pos as int)) == Some((n as nat, p@)) && 0 < n
                && pos + n <= cs@.len(),
            None => field_or_dot_spec(rest_at(cs@, pos as int)) is None,
        },
{
    match field_at(input, cs, pos) {
        Some(r) => Some(r),
        None => {
            if pos < cs.len() && cs[pos] == '.' {
                Some((1, Part::Index(Token::Dot)))
            } else {
                None
            }
        },
    }
}

/// A range in `cs` at `pos`.
fn range_at(input: &str, cs: &Vec<char>, pos: usize) -> (r: Option<(usize, Part<Token>)>)
    requires
        cs@ == input@,
        pos <= cs@.len(),
    ensures
        match r {
            Some((n, p)) => range_spec(rest_at(cs@, pos as int)) == Some((n as nat, p@)) && pos + n
                <= cs@.len(),
            None => range_spec(rest_at(cs@, pos as int)) is None,
        },
{
    let ghost s = rest_at(cs@, pos as int);
    let len = cs.len();
    let first = expression_at(input, cs, pos);
    let n1: usize = match &first {
        Some((n, _)) => *n,
        None => 0,
    };
    assert(pos + n1 <= cs@.len());
    if pos + n1 < cs.len() && cs[pos + n1] == ':' {
        assert(s.subrange(n1 + 1, s.len() as int) =~= rest_at(cs@, pos + n1 + 1));
        let from = match first {
            Some((_, t)) => Some(t),
            None => None,
        };
        let second = expression_at(input, cs, pos + n1 + 1);
        let n2: usize = match &second {
            Some((n, _)) => *n,
            None => 0,
        };
        let to = match second {
            Some((_, t)) => Some(t),
            None => None,
        };
        Some((n1 + 1 + n2, Part::Range(from, to)))
    } else {
        None
    }
}

/// A bracketed range or index in `cs` at `pos`.
fn path_part_at(input: &str, cs: &Vec<char>, pos: usize) -> (r: Option<(usize, Part<Token>)>)
    requires
        cs@ == input@,
        pos <= cs@.len(),
    ensures
        match r {
            Some((n, p)) => path_part_spec(rest_at(cs@, pos as int)) == Some((n as nat, p@)) && 0 < n
                && pos + n <= cs@.len(),
            None => path_part_spec(rest_at(cs@, pos as int)) is None,
        },
{
    let ghost s = rest_at(cs@, pos as int);
    if pos < cs.len() && cs[pos] == '[' {
        assert(s.drop_first() =~= rest_at(cs@, pos + 1));
        let inner = match range_at(input, cs, pos + 1) {
            Some(x) => Some(x),
            None => match expression_at(input, cs, pos + 1) {
                Some((n, t)) => Some((n, Part::Index(t))),
                None => None,
            },
        };
        match inner {
            Some((n, p)) => {
                if pos + 1 + n < cs.len() && cs[pos + 1 + n] == ']' {
                    Some((n + 2, p))
                } else {
                    None
                }
            },
            None => None,
        }
    } else {
        None
    }
}

/// As many fields and bracketed parts as follow one another in `cs` from `pos` on, with the
/// number of characters they take.
fn path_trail_at(input: &str, cs: &Vec<char>, pos: usize) -> (r: (usize, Vec<Part<Token>>))
    requires
        cs@ == input@,
        pos <= cs@.len(),
    ensures
        path_trail_spec(rest_at(cs@, pos as int)) == (r.0 as nat, parts_view(r.1@)),
        pos + r.0 <= cs@.len(),
    decreases cs@.len() - pos,
{
    let ghost s = rest_at(cs@, pos as int);
    let len = cs.len();
    let next = match field_at(input, cs, pos) {
        Some(x) => Some(x),
        None => path_part_at(input, cs, pos),
    };
    match next {
        Some((k, p)) => {
            assert(s.subrange(k as int, s.len() as int) =~= rest_at(cs@, pos + k));
            let (m, mut parts) = path_trail_at(input, cs, pos + k);
            let ghost tail = parts_view(parts@);
            let ghost pv = p@;
            parts.insert(0, p);
            assert(parts_view(parts@) =~= seq![pv] + tail);
            (k + m, parts)
        },
        None => {
            let parts: Vec<Part<Token>> = Vec::new();
            assert(parts_view(parts@) =~= Seq::<PartSpec>::empty());
            (0, parts)
        },
    }
}

/// Reads a path: `.` or a field, followed by any number of fields and bracketed indexes or
/// ranges; returns the rest of the input that is not part of the path, and the path's parts.
pub fn path(input: &str) -> (r: Result<(&str, Vec<Part<Token>>), QueryParseError>)
    ensures
        match path_spec(input@) {
            Some((n, ps)) => r matches Ok((rest, parts)) && rest@ == rest_at(input@, n as int)
                && parts_view(parts@) == ps,
            None => r is Err,
        },
{
    let cs = chars_of(input);
    assert(rest_at(cs@, 0) =~= input@);
    let (n, head) = match field_or_dot_at(input, &cs, 0) {
        Some(x) => x,
        None => {
            return Err(QueryParseError);
        },
    };
    assert(rest_at(input@, n as int) =~= rest_at(cs@, n as int));
    let (m, tail) = path_trail_at(input, &cs, n);
    let ghost hv = head@;
    let ghost tv = parts_view(tail@);
    let mut parts: Vec<Part<Token>> = Vec::new();
    parts.push(head);
    let mut tail = tail;
    parts.append(&mut tail);
    assert(parts_view(parts@) =~= seq![hv] + tv);
    let rest = input.substring_char(n + m, cs.len());
    Ok((rest, parts))
}

/// Reads a string: the text between a `"` and the next `"`; returns the rest of the input and
/// the string.
pub fn string(input: &str) -> (r: Result<(&str, Token), QueryParseError>)
    ensures
        match string_spec(input@) {
            Some((n, c)) => r matches Ok((rest, t)) && rest@ == rest_at(input@, n as int) && t@
                == TokenSpec::String(c),
            None => r is Err,
        },
{
    let cs = chars_of(input);
    assert(rest_at(cs@, 0) =~= input@);
    match string_at(input, &cs, 0) {
        Some((n, c)) => Ok((input.substring_char(n, cs.len()), Token::String(c))),
        None => Err(QueryParseError),
    }
}

/// Reads a number: an optional sign and one or more digits, in the range of `i64`; returns the
/// rest of the input and the number.
pub fn number(input: &str) -> (r: Result<(&str, Token), QueryParseError>)
    ensures
        match number_spec(input@) {
            Some((n, v)) => r matches Ok((rest, t)) && rest@ == rest_at(input@, n as int) && t@
                == TokenSpec::Number(v),
            None => r is Err,
        },
{
    let cs = chars_of(input);
    assert(rest_at(cs@, 0) =~= input@);
    match number_at(input, &cs, 0) {
        Some((n, v)) => Ok((input.substring_char(n, cs.len()), Token::Number(v))),
        None => Err(QueryParseError),
    }
}

/// Reads an identifier: a letter, `$` or `_`, followed by letters, digits, `$` and `_`; returns
/// the rest of the input and the identifier.
pub fn identifier(input: &str) -> (r: Result<(&str, &str), QueryParseError>)
    ensures
        match identifier_spec(input@) {
            Some(k) => r matches Ok((rest, id)) && rest@ == rest_at(input@, k as int) && id@
                == input@.subrange(0, k as int),
            None => r is Err,
        },
{
    let cs = chars_of(input);
    assert(rest_at(cs@, 0) =~= input@);
    match identifier_at(&cs, 0) {
        Some(k) => Ok((input.substring_char(k, cs.len()), input.substring_char(0, k))),
        None => Err(QueryParseError),
    }
}

/// The position in a sequence of `len` values that `index` refers to: counted from the start,
/// or from the end when it is negative.
pub open spec fn index_position(len: nat, index: i64) -> int {
    if index < 0 {
        len + index
    } else {
        index as int
    }
}

/// The position in a sequence of `len` values that `index` refers to.
pub fn as_index(len: usize, index: i64) -> (r: usize)
    requires
        index < 0 ==> index > i64::MIN && -index <= len,
        index >= 0 ==> index <= usize::MAX,
    ensures
        r == index_position(len as nat, index),
{
    if index < 0 {
        len - ((-index) as usize)
    } else {
        index as usize
    }
}

/// The values of a sequence of `len` values that the range `[from:to]` selects: they start at
/// the position `from` refers to (or the start) and end before the position `to` refers to (or
/// the end); none where the start comes after the end.
pub fn range_window(len: usize, from: Option<i64>, to: Option<i64>) -> (r: (usize, usize))
    requires
        from matches Some(f) ==> (f < 0 ==> f > i64::MIN && -f <= len) && (f >= 0 ==> f <= usize::MAX),
        to matches Some(t) ==> (t < 0 ==> t > i64::MIN && -t <= len) && (t >= 0 ==> t <= usize::MAX),
    ensures
        ({
            let start = match from {
                Some(f) => index_position(len as nat, f),
                None => 0,
            };
            let end = match to {
                Some(t) => index_position(len as nat, t),
                None => len as int,
            };
            &&& r.0 == start
            &&& r.1 == if start > end {
                0
            } else {
                end - start
            }
        }),
{
    let from_idx: usize = match from {
        Some(f) => as_index(len, f),
        None => 0,
    };
    let to_idx: usize = match to {
        Some(t) => as_index(len, t),
        None => len,
    };
    let run = if from_idx > to_idx {
        0
    } else {
        to_idx - from_idx
    };
    (from_idx, run)
}

/// Whether `c` is an ASCII letter, an ASCII digit, `$` or `_`.
pub open spec fn ascii_word_char(c: char) -> bool {
    ('a' <= c && c <= 'z') || ('A' <= c && c <= 'Z') || ('0' <= c && c <= '9') || c == '$' || c == '_'
}

proof fn lemma_leading_word_chars(s: Seq<char>)
    ensures
        leading_identifier_chars(s) <= s.len(),
        forall|i: int| 0 <= i < leading_identifier_chars(s) ==> ascii_word_char(#[trigger] s[i]),
        leading_identifier_chars(s) == s.len() || !ascii_word_char(s[leading_identifier_chars(s) as int]),
    decreases s.len(),
{
    if s.len() > 0 && is_identifier_trailing(s[0]) {
        let t = s.drop_first();
        lemma_leading_word_chars(t);
        assert forall|i: int| 0 <= i < leading_identifier_chars(s) implies ascii_word_char(#[trigger] s[i]) by {
            if i > 0 {
                assert(s[i] == t[i - 1]);
            }
        }
        if leading_identifier_chars(t) < t.len() {
            assert(s[leading_identifier_chars(s) as int] == t[leading_identifier_chars(t) as int]);
        }
    }
}

/// An identifier is the longest run of ASCII letters, digits, `$` and `_` at the start of the
/// text, provided it does not start with a digit: letters of either case may start or continue
/// it, and it stops only before another character or the end.
pub proof fn law_identifier_is_longest_word(s: Seq<char>)
    ensures
        match identifier_spec(s) {
            Some(k) => {
                &&& 1 <= k <= s.len()
                &&& !('0' <= s[0] && s[0] <= '9')
                &&& forall|i: int| 0 <= i < k ==> ascii_word_char(#[trigger] s[i])
                &&& k == s.len() || !ascii_word_char(s[k as int])
            },
            None => s.len() == 0 || !ascii_word_char(s[0]) || ('0' <= s[0] && s[0] <= '9'),
        },
{
    if s.len() > 0 && is_identifier_initial(s[0]) {
        let t = s.drop_first();
        lemma_leading_word_chars(t);
        let k = 1 + leading_identifier_chars(t);
        assert forall|i: int| 0 <= i < k implies ascii_word_char(#[trigger] s[i]) by {
            if i > 0 {
                assert(s[i] == t[i - 1]);
            }
        }
        if k < s.len() {
            assert(s[k as int] == t[leading_identifier_chars(t) as int]);
        }
    }
}

} // verus!
