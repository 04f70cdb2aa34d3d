//! The `to json` command: how Ion values are down-converted to JSON values.
use base64::Engine;
use vstd::prelude::*;

use crate::commands::IonCliCommand;
use crate::text::{copy_string, str_equals, string_from_chars};

verus! {

/// Converts Ion data to JSON.
pub struct ToJsonCommand;

impl IonCliCommand for ToJsonCommand {
    fn name(&self) -> (r: &'static str)
        ensures
            r@ == "json"@,
    {
        "json"
    }

    fn about(&self) -> (r: &'static str)
        ensures
            r@ == "Converts Ion data to JSON."@,
    {
        "Converts Ion data to JSON."
    }
}

/// An Ion value as the conversion reads it: a null of any type, a boolean, an integer, a float
/// by its IEEE-754 bits, a decimal or timestamp by its Ion text, a symbol by its text (`None`
/// when unknown), a string, the bytes of a blob or clob, a list, an s-expression, or a struct
/// with its fields in order, each named by its text (`None` when unknown).
#[derive(Debug, PartialEq)]
pub enum IonValue {
    Null,
    Bool(bool),
    Int(i128),
    Float(u64),
    Decimal(String),
    Timestamp(String),
    Symbol(Option<String>),
    Str(String),
    Lob(Vec<u8>),
    List(Vec<IonValue>),
    SExp(Vec<IonValue>),
    Struct(Vec<(Option<String>, IonValue)>),
}

/// A JSON value: null, a boolean, an integer, a finite float by its IEEE-754 bits, a number by
/// its JSON text, a string, an array, or an object with its members in order, each name once.
#[derive(Debug, PartialEq)]
pub enum JsonValue {
    Null,
    Bool(bool),
    Int(i128),
    Float(u64),
    Number(String),
    Str(String),
    Array(Vec<JsonValue>),
    Object(Vec<(String, JsonValue)>),
}

/// The value of an [`IonValue`].
pub enum IonSpec {
    Null,
    Bool(bool),
    Int(i128),
    Float(u64),
    Decimal(Seq<char>),
    Timestamp(Seq<char>),
    Symbol(Option<Seq<char>>),
    Str(Seq<char>),
    Lob(Seq<u8>),
    List(Seq<IonSpec>),
    SExp(Seq<IonSpec>),
    Struct(Seq<(Option<Seq<char>>, IonSpec)>),
}

/// The value of a [`JsonValue`].
pub enum JsonSpec {
    Null,
    Bool(bool),
    Int(i128),
    Float(u64),
    Number(Seq<char>),
    Str(Seq<char>),
    Array(Seq<JsonSpec>),
    Object(Seq<(Seq<char>, JsonSpec)>),
}

pub open spec fn opt_text(s: Option<String>) -> Option<Seq<char>> {
    match s {
        Some(t) => Some(t@),
        None => None,
    }
}

pub open spec fn ion_view(v: IonValue) -> IonSpec
    decreases v,
{
    match v {
        IonValue::Null => IonSpec::Null,
        IonValue::Bool(b) => IonSpec::Bool(b),
        IonValue::Int(i) => IonSpec::Int(i),
        IonValue::Float(bits) => IonSpec::Float(bits),
        IonValue::Decimal(d) => IonSpec::Decimal(d@),
        IonValue::Timestamp(t) => IonSpec::Timestamp(t@),
        IonValue::Symbol(s) => IonSpec::Symbol(opt_text(s)),
        IonValue::Str(s) => IonSpec::Str(s@),
        IonValue::Lob(b) => IonSpec::Lob(b@),
        IonValue::List(vs) => IonSpec::List(ion_seq_view(vs@)),
        IonValue::SExp(vs) => IonSpec::SExp(ion_seq_view(vs@)),
        IonValue::Struct(fs) => IonSpec::Struct(ion_fields_view(fs@)),
    }
}

pub open spec fn ion_seq_view(vs: Seq<IonValue>) -> Seq<IonSpec>
    decreases vs,
{
    Seq::new(vs.len(), |i: int| if 0 <= i < vs.len() { ion_view(vs[i]) } else { arbitrary() })
}

pub open spec fn ion_fields_view(fs: Seq<(Option<String>, IonValue)>) -> Seq<(Option<Seq<char>>, IonSpec)>
    decreases fs,
{
    Seq::new(
        fs.len(),
        |i: int|
            if 0 <= i < fs.len() {
                (opt_text(fs[i].0), ion_view(fs[i].1))
            } else {
                arbitrary()
            },
    )
}

impl View for IonValue {
    type V = IonSpec;

    open spec fn view(&self) -> IonSpec {
        ion_view(*self)
    }
}

pub open spec fn json_view(v: JsonValue) -> JsonSpec
    decreases v,
{
    match v {
        JsonValue::Null => JsonSpec::Null,
        JsonValue::Bool(b) => JsonSpec::Bool(b),
        JsonValue::Int(i) => JsonSpec::Int(i),
        JsonValue::Float(bits) => JsonSpec::Float(bits),
        JsonValue::Number(t) => JsonSpec::Number(t@),
        JsonValue::Str(s) => JsonSpec::Str(s@),
        JsonValue::Array(vs) => JsonSpec::Array(json_seq_view(vs@)),
        JsonValue::Object(ms) => JsonSpec::Object(json_members_view(ms@)),
    }
}

pub open spec fn json_seq_view(vs: Seq<JsonValue>) -> Seq<JsonSpec>
    decreases vs,
{
    Seq::new(vs.len(), |i: int| if 0 <= i < vs.len() { json_view(vs[i]) } else { arbitrary() })
}

pub open spec fn json_members_view(ms: Seq<(String, JsonValue)>) -> Seq<(Seq<char>, JsonSpec)>
    decreases ms,
{
    Seq::new(
        ms.len(),
        |i: int|
            if 0 <= i < ms.len() {
                (ms[i].0@, json_view(ms[i].1))
            } else {
                arbitrary()
            },
    )
}

impl View for JsonValue {
    type V = JsonSpec;

    open spec fn view(&self) -> JsonSpec {
        json_view(*self)
    }
}

/// Whether the IEEE-754 double with the bits `bits` is finite: its exponent is not all ones.
pub open spec fn float_is_finite(bits: u64) -> bool {
    (bits / 0x10_0000_0000_0000) % 0x800 != 0x7ff
}

pub open spec fn is_digit(c: char) -> bool {
    '0' <= c <= '9'
}

/// One or more decimal digits.
pub open spec fn digits(s: Seq<char>) -> bool {
    s.len() > 0 && forall|i: int| 0 <= i < s.len() ==> is_digit(#[trigger] s[i])
}

/// The integer part of a JSON number: `0`, or digits without a leading zero.
pub open spec fn json_int_part(s: Seq<char>) -> bool {
    s == seq!['0'] || (digits(s) && s[0] != '0')
}

/// The fraction part of a JSON number: nothing, or `.` and digits.
pub open spec fn json_fraction(s: Seq<char>) -> bool {
    s.len() == 0 || (s[0] == '.' && digits(s.drop_first()))
}

/// The exponent part of a JSON number: nothing, or `e` or `E`, an optional sign and digits.
pub open spec fn json_exponent(s: Seq<char>) -> bool {
    s.len() == 0 || ((s[0] == 'e' || s[0] == 'E') && (digits(s.drop_first()) || (s.len() > 1 && (s[1]
        == '+' || s[1] == '-') && digits(s.drop_first().drop_first()))))
}

/// Whether `s` is a JSON number: an optional `-`, an integer part, a fraction part and an
/// exponent part, and nothing else.
pub open spec fn json_number_text(s: Seq<char>) -> bool {
    let body = if s.len() > 0 && s[0] == '-' {
        s.drop_first()
    } else {
        s
    };
    exists|i: int, j: int|
        #![trigger body.subrange(0, i), body.subrange(i, j)]
        0 <= i <= j <= body.len() && json_int_part(body.subrange(0, i)) && json_fraction(body.subrange(i, j))
            && json_exponent(body.subrange(j, body.len() as int))
}

/// Calls `serde_json::Number::from_str` on `text` and tells whether it succeeded. With the
/// `arbitrary_precision` feature, its source accepts exactly a JSON number with nothing after
/// it, of any size.
#[verifier::external_body]
fn json_number_accepts(text: &str) -> (r: bool)
    ensures
        r == json_number_text(text@),
{
    text.parse::<serde_json::Number>().is_ok()
}

/// The character of the standard base64 alphabet for the 6-bit value `v`.
pub open spec fn base64_char(v: int) -> char {
    "ABCDEFGHIJKLMNOPQRSTUVWXYZabcdefghijklmnopqrstuvwxyz0123456789+/"@[v]
}

/// The standard base64 encoding of `b`, padded with `=`.
pub open spec fn base64_text(b: Seq<u8>) -> Seq<char>
    decreases b.len(),
{
    if b.len() == 0 {
        Seq::empty()
    } else {
        let b0 = b[0] as int;
        if b.len() == 1 {
            seq![base64_char(b0 / 4), base64_char((b0 % 4) * 16), '=', '=']
        } else {
            let b1 = b[1] as int;
            if b.len() == 2 {
                seq![base64_char(b0 / 4), base64_char((b0 % 4) * 16 + b1 / 16), base64_char((b1 % 16) * 4), '=']
            } else {
                let b2 = b[2] as int;
                seq![
                    base64_char(b0 / 4),
                    base64_char((b0 % 4) * 16 + b1 / 16),
                    base64_char((b1 % 16) * 4 + b2 / 64),
                    base64_char(b2 % 64),
                ] + base64_text(b.subrange(3, b.len() as int))
            }
        }
    }
}

/// Calls `base64`'s `STANDARD` engine to encode `bytes`: the standard alphabet, padded.
#[verifier::external_body]
fn base64_standard(bytes: &[u8]) -> (r: String)
    ensures
        r@ == base64_text(bytes@),
{
    base64::engine::general_purpose::STANDARD.encode(bytes)
}

/// A character of a decimal's text in JSON: the exponent marker `d` becomes `e`.
pub open spec fn exponent_char(c: char) -> char {
    if c == 'd' {
        'e'
    } else {
        c
    }
}

/// The JSON number text of a decimal's Ion text `d`: its exponent marker `d` becomes `e`, and
/// a trailing `.` without digits is dropped.
pub open spec fn decimal_json_text(d: Seq<char>) -> Seq<char> {
    let t = d.map_values(|c: char| exponent_char(c));
    if t.len() > 0 && t.last() == '.' {
        t.drop_last()
    } else {
        t
    }
}

/// The message of a decimal that is no JSON number.
pub open spec fn not_a_number_text(d: Seq<char>) -> Seq<char> {
    d + " could not be turned into a Number"@
}

/// The index of the member named `k`, or -1.
pub open spec fn member_index(ms: Seq<(Seq<char>, JsonSpec)>, k: Seq<char>) -> int
    decreases ms.len(),
{
    if ms.len() == 0 {
        -1
    } else if ms.last().0 == k {
        ms.len() - 1
    } else {
        member_index(ms.drop_last(), k)
    }
}

/// The members after setting `k` to `v`: a member of that name takes the new value in its
/// place, otherwise the member is added at the end.
pub open spec fn member_insert(ms: Seq<(Seq<char>, JsonSpec)>, k: Seq<char>, v: JsonSpec) -> Seq<(Seq<char>, JsonSpec)> {
    let i = member_index(ms, k);
    if i >= 0 {
        ms.update(i, (k, v))
    } else {
        ms.push((k, v))
    }
}

/// The JSON value of the Ion value `v`, or the message of a decimal that is no JSON number:
/// nulls and non-finite floats become null, symbols with unknown text become null, decimals
/// become numbers, timestamps and symbols become strings, blobs and clobs become base64 text,
/// lists and s-expressions become arrays, and structs become objects, a field with unknown
/// name taking the name `$0` and a later field replacing an earlier one of the same name.
pub open spec fn json_of(v: IonSpec) -> Result<JsonSpec, Seq<char>>
    decreases v, 1nat,
{
    match v {
        IonSpec::Null => Ok(JsonSpec::Null),
        IonSpec::Bool(b) => Ok(JsonSpec::Bool(b)),
        IonSpec::Int(i) => Ok(JsonSpec::Int(i)),
        IonSpec::Float(bits) => if float_is_finite(bits) {
            Ok(JsonSpec::Float(bits))
        } else {
            Ok(JsonSpec::Null)
        },
        IonSpec::Decimal(d) => if json_number_text(decimal_json_text(d)) {
            Ok(JsonSpec::Number(decimal_json_text(d)))
        } else {
            Err(not_a_number_text(d))
        },
        IonSpec::Timestamp(t) => Ok(JsonSpec::Str(t)),
        IonSpec::Symbol(s) => match s {
            Some(t) => Ok(JsonSpec::Str(t)),
            None => Ok(JsonSpec::Null),
        },
        IonSpec::Str(s) => Ok(JsonSpec::Str(s)),
        IonSpec::Lob(b) => Ok(JsonSpec::Str(base64_text(b))),
        IonSpec::List(vs) => match json_array(vs) {
            Ok(js) => Ok(JsonSpec::Array(js)),
            Err(e) => Err(e),
        },
        IonSpec::SExp(vs) => match json_array(vs) {
            Ok(js) => Ok(JsonSpec::Array(js)),
            Err(e) => Err(e),
        },
        IonSpec::Struct(fs) => match json_object(fs, Seq::empty()) {
            Ok(ms) => Ok(JsonSpec::Object(ms)),
            Err(e) => Err(e),
        },
    }
}

/// The JSON values of `vs`, in order, or the first message.
pub open spec fn json_array(vs: Seq<IonSpec>) -> Result<Seq<JsonSpec>, Seq<char>>
    decreases vs, 0nat,
{
    if vs.len() == 0 {
        Ok(Seq::empty())
    } else {
        match json_of(vs[0]) {
            Err(e) => Err(e),
            Ok(j) => match json_array(vs.subrange(1, vs.len() as int)) {
                Ok(js) => Ok(seq![j] + js),
                Err(e) => Err(e),
            },
        }
    }
}

/// The members `acc` with the fields `fs` set in order, or the first message.
pub open spec fn json_object(fs: Seq<(Option<Seq<char>>, IonSpec)>, acc: Seq<(Seq<char>, JsonSpec)>) -> Result<
    Seq<(Seq<char>, JsonSpec)>,
    Seq<char>,
>
    decreases fs, 0nat,
{
    if fs.len() == 0 {
        Ok(acc)
    } else {
        let name = match fs[0].0 {
            Some(t) => t,
            None => "$0"@,
        };
        match json_of(fs[0].1) {
            Err(e) => Err(e),
            Ok(j) => json_object(fs.subrange(1, fs.len() as int), member_insert(acc, name, j)),
        }
    }
}

pub open spec fn json_result_view(r: Result<JsonValue, String>) -> Result<JsonSpec, Seq<char>> {
    match r {
        Ok(j) => Ok(j@),
        Err(e) => Err(e@),
    }
}

/// The JSON number text of the decimal text `d` (see `decimal_json_text`).
fn decimal_json_string(d: &String) -> (r: String)
    ensures
        r@ == decimal_json_text(d@),
{
    let text = d.as_str();
    let n = text.unicode_len();
    let mut chars: Vec<char> = Vec::new();
    let mut i: usize = 0;
    while i < n
        invariant
            n == d@.len(),
            text@ == d@,
            i <= n,
            chars@ =~= d@.subrange(0, i as int).map_values(|c: char| exponent_char(c)),
        decreases n - i,
    {
        let c = text.get_char(i);
        if c == 'd' {
            chars.push('e');
        } else {
            chars.push(c);
        }
        i = i + 1;
        assert(chars@ =~= d@.subrange(0, i as int).map_values(|c: char| exponent_char(c)));
    }
    assert(d@.subrange(0, n as int) =~= d@);
    let len = chars.len();
    if len > 0 && chars[len - 1] == '.' {
        chars.pop();
    }
    string_from_chars(&chars)
}

/// Whether the double with the bits `bits` is finite.
fn bits_are_finite(bits: u64) -> (r: bool)
    ensures
        r == float_is_finite(bits),
{
    (bits / 0x10_0000_0000_0000) % 0x800 != 0x7ff
}

/// Sets the member `k` of `members` to `v` (see `member_insert`).
fn insert_member(members: &mut Vec<(String, JsonValue)>, k: String, v: JsonValue)
    ensures
        json_members_view(final(members)@) == member_insert(json_members_view(old(members)@), k@, v@),
{
    let ghost view = json_members_view(members@);
    let mut j: usize = members.len();
    assert(view.subrange(0, j as int) =~= view);
    while j > 0
        invariant
            j <= members@.len(),
            members@ == old(members)@,
            view == json_members_view(members@),
            member_index(view, k@) == member_index(view.subrange(0, j as int), k@),
        decreases j,
    {
        let ghost prefix = view.subrange(0, j as int);
        assert(prefix.drop_last() =~= view.subrange(0, j - 1));
        assert(prefix.last() == view[j - 1]);
        if str_equals(members[j - 1].0.as_str(), k.as_str()) {
            assert(member_index(view, k@) == j - 1);
            let ghost before = members@;
            let ghost kv = (k@, v@);
            members.set(j - 1, (k, v));
            assert(json_members_view(members@) =~= view.update(j - 1, kv)) by {
                assert forall|t: int| 0 <= t < members@.len() && t != j - 1 implies members@[t] == before[t] by {}
                assert(members@[j - 1].0@ == kv.0);
                assert(json_view(members@[j - 1].1) == kv.1);
            }
            assert(member_insert(view, kv.0, kv.1) == view.update(j - 1, kv));
            return;
        }
        j = j - 1;
    }
    assert(member_index(view.subrange(0, 0), k@) == -1);
    let ghost before = members@;
    members.push((k, v));
    assert(json_members_view(members@) =~= view.push((k@, v@))) by {
        assert forall|t: int| 0 <= t < before.len() implies members@[t] == before[t] by {}
    }
}

/// Converts an Ion value to a JSON value (see `json_of`).
pub fn to_json_value(v: &IonValue) -> (r: Result<JsonValue, String>)
    ensures
        json_result_view(r) == json_of(v@),
    decreases v, 1nat,
{
    match v {
        IonValue::Null => Ok(JsonValue::Null),
        IonValue::Bool(b) => Ok(JsonValue::Bool(*b)),
        IonValue::Int(i) => Ok(JsonValue::Int(*i)),
        IonValue::Float(bits) => {
            if bits_are_finite(*bits) {
                Ok(JsonValue::Float(*bits))
            } else {
                Ok(JsonValue::Null)
            }
        },
        IonValue::Decimal(d) => {
            let text = decimal_json_string(d);
            if json_number_accepts(text.as_str()) {
                Ok(JsonValue::Number(text))
            } else {
                let mut message = copy_string(d);
                message.append(" could not be turned into a Number");
                Err(message)
            }
        },
        IonValue::Timestamp(t) => Ok(JsonValue::Str(copy_string(t))),
        IonValue::Symbol(s) => match s {
            Some(t) => Ok(JsonValue::Str(copy_string(t))),
            None => Ok(JsonValue::Null),
        },
        IonValue::Str(s) => Ok(JsonValue::Str(copy_string(s))),
        IonValue::Lob(b) => Ok(JsonValue::Str(base64_standard(b.as_slice()))),
        IonValue::List(vs) => match to_json_array(vs) {
            Ok(js) => Ok(JsonValue::Array(js)),
            Err(e) => Err(e),
        },
        IonValue::SExp(vs) => match to_json_array(vs) {
            Ok(js) => Ok(JsonValue::Array(js)),
            Err(e) => Err(e),
        },
        IonValue::Struct(fs) => match to_json_object(fs) {
            Ok(ms) => Ok(JsonValue::Object(ms)),
            Err(e) => Err(e),
        },
    }
}

/// Converts the values `vs` in order, stopping at the first that fails.
#[verifier::loop_isolation(false)]
fn to_json_array(vs: &Vec<IonValue>) -> (r: Result<Vec<JsonValue>, String>)
    ensures
        match json_array(ion_seq_view(vs@)) {
            Ok(js) => r matches Ok(out) && json_seq_view(out@) == js,
            Err(e) => r matches Err(m) && m@ == e,
        },
    decreases vs, 0nat,
{
    let ghost all = ion_seq_view(vs@);
    let mut out: Vec<JsonValue> = Vec::new();
    let mut i: usize = 0;
    assert(all.subrange(0, all.len() as int) =~= all);
    assert(json_seq_view(out@) + Seq::<JsonSpec>::empty() =~= json_seq_view(out@));
    while i < vs.len()
        invariant
            all == ion_seq_view(vs@),
            all.len() == vs@.len(),
            i <= vs@.len(),
            json_array(all) == match json_array(all.subrange(i as int, all.len() as int)) {
                Ok(js) => Ok(json_seq_view(out@) + js),
                Err(e) => Err(e),
            },
        decreases vs@.len() - i,
    {
        let ghost rest = all.subrange(i as int, all.len() as int);
        assert(rest[0] == all[i as int]);
        assert(all[i as int] == vs@[i as int]@);
        assert(rest.subrange(1, rest.len() as int) =~= all.subrange(i + 1, all.len() as int));
        match to_json_value(&vs[i]) {
            Ok(j) => {
                let ghost before = json_seq_view(out@);
                out.push(j);
                assert(json_seq_view(out@) =~= before.push(j@));
                assert forall|js: Seq<JsonSpec>| #![auto] before + (seq![j@] + js) =~= json_seq_view(out@) + js by {}
            },
            Err(e) => {
                return Err(e);
            },
        }
        i = i + 1;
    }
    assert(all.subrange(i as int, all.len() as int) =~= Seq::<IonSpec>::empty());
    assert(json_seq_view(out@) + Seq::<JsonSpec>::empty() =~= json_seq_view(out@));
    Ok(out)
}

/// Converts the fields `fs` in order into members, stopping at the first that fails.
#[verifier::loop_isolation(false)]
fn to_json_object(fs: &Vec<(Option<String>, IonValue)>) -> (r: Result<Vec<(String, JsonValue)>, String>)
    ensures
        match json_object(ion_fields_view(fs@), Seq::empty()) {
            Ok(ms) => r matches Ok(out) && json_members_view(out@) == ms,
            Err(e) => r matches Err(m) && m@ == e,
        },
    decreases fs, 0nat,
{
    let ghost all = ion_fields_view(fs@);
    let mut out: Vec<(String, JsonValue)> = Vec::new();
    let mut i: usize = 0;
    assert(all.subrange(0, all.len() as int) =~= all);
    assert(json_members_view(out@) =~= Seq::<(Seq<char>, JsonSpec)>::empty());
    while i < fs.len()
        invariant
            all == ion_fields_view(fs@),
            all.len() == fs@.len(),
            i <= fs@.len(),
            json_object(all, Seq::empty()) == json_object(
                all.subrange(i as int, all.len() as int),
                json_members_view(out@),
            ),
        decreases fs@.len() - i,
    {
        let ghost rest = all.subrange(i as int, all.len() as int);
        assert(rest[0] == all[i as int]);
        assert(all[i as int] == (opt_text(fs@[i as int].0), fs@[i as int].1@));
        assert(rest.subrange(1, rest.len() as int) =~= all.subrange(i + 1, all.len() as int));
        let name = match &fs[i].0 {
            Some(t) => copy_string(t),
            None => String::from_str("$0"),
        };
        match to_json_value(&fs[i].1) {
            Ok(j) => {
                insert_member(&mut out, name, j);
            },
            Err(e) => {
                return Err(e);
            },
        }
        i = i + 1;
    }
    assert(all.subrange(i as int, all.len() as int) =~= Seq::<(Option<Seq<char>>, IonSpec)>::empty());
    Ok(out)
}

/// A float becomes JSON null exactly when it is NaN or an infinity, that is when all its exponent
/// bits are set, whatever its sign; any other float, negative ones included, stays the same
/// number. Flipping the sign bit never changes whether a float becomes null.
pub proof fn law_float_to_json(bits: u64)
    ensures
        json_of(IonSpec::Float(bits)) == if bits & 0x7ff0_0000_0000_0000u64 == 0x7ff0_0000_0000_0000u64 {
            Ok::<JsonSpec, Seq<char>>(JsonSpec::Null)
        } else {
            Ok::<JsonSpec, Seq<char>>(JsonSpec::Float(bits))
        },
        (json_of(IonSpec::Float(bits)) == Ok::<JsonSpec, Seq<char>>(JsonSpec::Null)) == (json_of(
            IonSpec::Float(bits ^ 0x8000_0000_0000_0000u64),
        ) == Ok::<JsonSpec, Seq<char>>(JsonSpec::Null)),
{
    let flipped = bits ^ 0x8000_0000_0000_0000u64;
    assert(((bits / 0x10_0000_0000_0000u64) % 0x800u64 != 0x7ffu64) == (bits & 0x7ff0_0000_0000_0000u64
        != 0x7ff0_0000_0000_0000u64)) by (bit_vector);
    assert(((flipped / 0x10_0000_0000_0000u64) % 0x800u64 != 0x7ffu64) == ((bits / 0x10_0000_0000_0000u64)
        % 0x800u64 != 0x7ffu64)) by (bit_vector)
        requires
            flipped == bits ^ 0x8000_0000_0000_0000u64,
    ;
}

} // verus!
