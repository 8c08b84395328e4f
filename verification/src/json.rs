//! The JSON wire format used by the API, as a small value model together
//! with a verified serializer and parser.
//!
//! Objects keep their fields in textual order; numbers are restricted to
//! the 64-bit signed integers that the modeled endpoints exchange.

use vstd::prelude::*;

verus! {

broadcast use vstd::std_specs::vec::group_vec_axioms, vstd::seq::group_seq_axioms, vstd::utf8::char_is_scalar, vstd::utf8::char_u32_cast;

/// A JSON value as the library's own plain data.
#[derive(Debug)]
pub enum Json {
    Null,
    Bool(bool),
    Int(i64),
    Str(String),
    Arr(Vec<Json>),
    Obj(Vec<(String, Json)>),
}

/// The mathematical model of a JSON value.
pub enum JsonV {
    Null,
    Bool(bool),
    Int(int),
    Str(Seq<char>),
    Arr(Seq<JsonV>),
    Obj(Seq<(Seq<char>, JsonV)>),
}

pub open spec fn json_view(j: Json) -> JsonV
    decreases j,
{
    match j {
        Json::Null => JsonV::Null,
        Json::Bool(b) => JsonV::Bool(b),
        Json::Int(n) => JsonV::Int(n as int),
        Json::Str(s) => JsonV::Str(s@),
        Json::Arr(v) => JsonV::Arr(json_view_seq(v@)),
        Json::Obj(v) => JsonV::Obj(json_view_fields(v@)),
    }
}

pub open spec fn json_view_seq(s: Seq<Json>) -> Seq<JsonV>
    decreases s,
{
    if s.len() == 0 {
        Seq::empty()
    } else {
        seq![json_view(s[0])] + json_view_seq(s.subrange(1, s.len() as int))
    }
}

pub open spec fn json_view_fields(s: Seq<(String, Json)>) -> Seq<(Seq<char>, JsonV)>
    decreases s,
{
    if s.len() == 0 {
        Seq::empty()
    } else {
        seq![(s[0].0@, json_view(s[0].1))] + json_view_fields(s.subrange(1, s.len() as int))
    }
}

impl View for Json {
    type V = JsonV;

    open spec fn view(&self) -> JsonV {
        json_view(*self)
    }
}

impl DeepView for Json {
    type V = JsonV;

    open spec fn deep_view(&self) -> JsonV {
        json_view(*self)
    }
}

/// The two sequence views agree with pointwise application of `json_view`.
pub broadcast proof fn lemma_json_view_seq(s: Seq<Json>)
    ensures
        (#[trigger] json_view_seq(s)).len() == s.len(),
        forall|i: int| 0 <= i < s.len() ==> json_view_seq(s)[i] == json_view(s[i]),
    decreases s.len(),
{
    if s.len() > 0 {
        lemma_json_view_seq(s.subrange(1, s.len() as int));
    }
}

pub broadcast proof fn lemma_json_view_fields(s: Seq<(String, Json)>)
    ensures
        (#[trigger] json_view_fields(s)).len() == s.len(),
        forall|i: int|
            0 <= i < s.len() ==> json_view_fields(s)[i] == (s[i].0@, json_view(s[i].1)),
    decreases s.len(),
{
    if s.len() > 0 {
        lemma_json_view_fields(s.subrange(1, s.len() as int));
    }
}

/// Looks a key up among an object's fields; the first occurrence wins.
pub open spec fn obj_get(fields: Seq<(Seq<char>, JsonV)>, key: Seq<char>) -> Option<JsonV>
    decreases fields.len(),
{
    if fields.len() == 0 {
        None
    } else if fields[0].0 == key {
        Some(fields[0].1)
    } else {
        obj_get(fields.subrange(1, fields.len() as int), key)
    }
}

// ---------------------------------------------------------------------------
// Serialization: the canonical text of a JSON value (no whitespace).
// ---------------------------------------------------------------------------

pub open spec fn hex_digit(n: int) -> char {
    if n < 10 {
        ((48 + n) as u32) as char
    } else {
        ((87 + n) as u32) as char
    }
}

/// How one character appears inside a serialized string literal.
pub open spec fn esc_char(c: char) -> Seq<char> {
    if c == '"' {
        seq!['\\', '"']
    } else if c == '\\' {
        seq!['\\', '\\']
    } else if c == '\n' {
        seq!['\\', 'n']
    } else if c == '\r' {
        seq!['\\', 'r']
    } else if c == '\t' {
        seq!['\\', 't']
    } else if (c as u32) < 0x20 {
        seq!['\\', 'u', '0', '0', hex_digit((c as u32 / 16) as int), hex_digit((c as u32 % 16) as int)]
    } else {
        seq![c]
    }
}

pub open spec fn str_body_text(s: Seq<char>) -> Seq<char>
    decreases s.len(),
{
    if s.len() == 0 {
        Seq::empty()
    } else {
        esc_char(s[0]) + str_body_text(s.subrange(1, s.len() as int))
    }
}

/// A serialized string literal: quotes around the escaped body.
pub open spec fn str_text(s: Seq<char>) -> Seq<char> {
    seq!['"'] + str_body_text(s) + seq!['"']
}

pub open spec fn digit_char(n: int) -> char {
    ((48 + n) as u32) as char
}

pub open spec fn uint_text(n: nat) -> Seq<char>
    decreases n,
{
    if n < 10 {
        seq![digit_char(n as int)]
    } else {
        uint_text(n / 10) + seq![digit_char((n % 10) as int)]
    }
}

pub open spec fn int_text(n: int) -> Seq<char> {
    if n < 0 {
        seq!['-'] + uint_text((-n) as nat)
    } else {
        uint_text(n as nat)
    }
}

pub open spec fn json_text(j: JsonV) -> Seq<char>
    decreases j, 1int,
{
    match j {
        JsonV::Null => seq!['n', 'u', 'l', 'l'],
        JsonV::Bool(b) => if b {
            seq!['t', 'r', 'u', 'e']
        } else {
            seq!['f', 'a', 'l', 's', 'e']
        },
        JsonV::Int(n) => int_text(n),
        JsonV::Str(s) => str_text(s),
        JsonV::Arr(elems) => seq!['['] + arr_body_text(elems) + seq![']'],
        JsonV::Obj(fields) => seq!['{'] + obj_body_text(fields) + seq!['}'],
    }
}

pub open spec fn arr_body_text(elems: Seq<JsonV>) -> Seq<char>
    decreases elems, 0int,
{
    if elems.len() == 0 {
        Seq::empty()
    } else if elems.len() == 1 {
        json_text(elems[0])
    } else {
        json_text(elems[0]) + seq![','] + arr_body_text(elems.subrange(1, elems.len() as int))
    }
}

pub open spec fn obj_body_text(fields: Seq<(Seq<char>, JsonV)>) -> Seq<char>
    decreases fields, 0int,
{
    if fields.len() == 0 {
        Seq::empty()
    } else if fields.len() == 1 {
        str_text(fields[0].0) + seq![':'] + json_text(fields[0].1)
    } else {
        str_text(fields[0].0) + seq![':'] + json_text(fields[0].1) + seq![','] + obj_body_text(
            fields.subrange(1, fields.len() as int),
        )
    }
}

// ---------------------------------------------------------------------------
// Parsing: a recursive-descent reading of JSON text, written first as spec
// functions; the executable parser mirrors them step for step.
//
// Each parsing function takes the whole text and a start position and yields
// the parsed value together with the position just past it, or `None` when
// the text does not match the grammar at that position.
// ---------------------------------------------------------------------------

pub open spec fn is_ws(c: char) -> bool {
    c == ' ' || c == '\t' || c == '\n' || c == '\r'
}

pub open spec fn is_digit(c: char) -> bool {
    '0' <= c && c <= '9'
}

pub open spec fn is_hex(c: char) -> bool {
    is_digit(c) || ('a' <= c && c <= 'f') || ('A' <= c && c <= 'F')
}

pub open spec fn hex_val(c: char) -> int {
    if is_digit(c) {
        c as int - 48
    } else if 'a' <= c && c <= 'f' {
        c as int - 87
    } else {
        c as int - 55
    }
}

pub open spec fn skip_ws(s: Seq<char>, i: int) -> int
    decreases s.len() - i,
{
    if 0 <= i && i < s.len() && is_ws(s[i]) {
        skip_ws(s, i + 1)
    } else {
        i
    }
}

pub proof fn lemma_skip_ws(s: Seq<char>, i: int)
    requires
        0 <= i <= s.len(),
    ensures
        i <= skip_ws(s, i) <= s.len(),
        skip_ws(s, i) < s.len() ==> !is_ws(s[skip_ws(s, i)]),
    decreases s.len() - i,
{
    if i < s.len() && is_ws(s[i]) {
        lemma_skip_ws(s, i + 1);
    }
}

/// Digits accumulated left to right; fails as soon as the value passes
/// `limit`, which is how the bounded integers of the model are enforced.
pub open spec fn parse_digits(s: Seq<char>, i: int, acc: int, limit: int) -> Option<(int, int)>
    decreases s.len() - i,
{
    if 0 <= i && i < s.len() && is_digit(s[i]) {
        let acc2 = acc * 10 + (s[i] as int - 48);
        if acc2 > limit {
            None
        } else {
            parse_digits(s, i + 1, acc2, limit)
        }
    } else {
        Some((acc, i))
    }
}

/// A JSON number at position `i` (the caller has seen a digit or a minus
/// sign there).  Only integers that fit in 64 signed bits are accepted:
/// fractions, exponents and anything wider do not occur on this wire.
pub open spec fn parse_number(s: Seq<char>, i: int) -> Option<(JsonV, int)> {
    let neg = s[i] == '-';
    let start = if neg {
        i + 1
    } else {
        i
    };
    let limit: int = if neg {
        0x8000_0000_0000_0000
    } else {
        0x7fff_ffff_ffff_ffff
    };
    if start >= s.len() || !is_digit(s[start]) {
        None
    } else {
        match parse_digits(s, start, 0, limit as int) {
            Some((n, j)) => {
                if s[start] == '0' && j != start + 1 {
                    None  // leading zero
                } else if j < s.len() && (s[j] == '.' || s[j] == 'e' || s[j] == 'E') {
                    None  // not an integer
                } else {
                    Some((JsonV::Int(if neg { -n } else { n }), j))
                }
            },
            None => None,
        }
    }
}

pub open spec fn is_scalar_value(v: int) -> bool {
    (0 <= v && v < 0xD800) || (0xE000 <= v && v <= 0x10FFFF)
}

/// The body of a string literal starting just past the opening quote,
/// up to and including the closing quote.
pub open spec fn parse_string_body(s: Seq<char>, i: int) -> Option<(Seq<char>, int)>
    decreases s.len() - i,
{
    if i < 0 || i >= s.len() {
        None
    } else if s[i] == '"' {
        Some((Seq::empty(), i + 1))
    } else if s[i] == '\\' {
        if i + 1 >= s.len() {
            None
        } else {
            let e = s[i + 1];
            if e == 'u' {
                parse_unicode_escape(s, i)
            } else {
                let c = if e == '"' {
                    Some('"')
                } else if e == '\\' {
                    Some('\\')
                } else if e == '/' {
                    Some('/')
                } else if e == 'b' {
                    Some('\u{8}')
                } else if e == 'f' {
                    Some('\u{c}')
                } else if e == 'n' {
                    Some('\n')
                } else if e == 'r' {
                    Some('\r')
                } else if e == 't' {
                    Some('\t')
                } else {
                    None
                };
                match c {
                    Some(c) => match parse_string_body(s, i + 2) {
                        Some((rest, j)) => Some((seq![c] + rest, j)),
                        None => None,
                    },
                    None => None,
                }
            }
        }
    } else if ' ' > s[i] {
        None  // raw control characters are not allowed in string literals
    } else {
        match parse_string_body(s, i + 1) {
            Some((rest, j)) => Some((seq![s[i]] + rest, j)),
            None => None,
        }
    }
}

/// Four hex digits at position `i`, or `None`.
pub open spec fn hex4(s: Seq<char>, i: int) -> Option<int> {
    if 0 <= i && i + 4 <= s.len() && is_hex(s[i]) && is_hex(s[i + 1]) && is_hex(s[i + 2]) && is_hex(
        s[i + 3],
    ) {
        Some(hex_val(s[i]) * 0x1000 + hex_val(s[i + 1]) * 0x100 + hex_val(s[i + 2]) * 16 + hex_val(
            s[i + 3],
        ))
    } else {
        None
    }
}

/// A `\uXXXX` escape at position `i` (where `s[i] == '\\'` and
/// `s[i+1] == 'u'`), pairing surrogates as UTF-16 does.
pub open spec fn parse_unicode_escape(s: Seq<char>, i: int) -> Option<(Seq<char>, int)>
    decreases s.len() - i, 0int,
{
    match hex4(s, i + 2) {
        None => None,
        Some(v) => {
            if is_scalar_value(v) {
                match parse_string_body(s, i + 6) {
                    Some((rest, j)) => Some((seq![v as char] + rest, j)),
                    None => None,
                }
            } else if 0xD800 <= v && v < 0xDC00 && i + 8 <= s.len() && s[i + 6] == '\\' && s[i + 7]
                == 'u' {
                match hex4(s, i + 8) {
                    None => None,
                    Some(w) => {
                        if 0xDC00 <= w && w < 0xE000 {
                            let code = 0x10000 + (v - 0xD800) * 0x400 + (w - 0xDC00);
                            match parse_string_body(s, i + 12) {
                                Some((rest, j)) => Some((seq![code as char] + rest, j)),
                                None => None,
                            }
                        } else {
                            None
                        }
                    },
                }
            } else {
                None
            }
        },
    }
}

/// A JSON value beginning at `i`, leading whitespace allowed.
pub open spec fn parse_value(s: Seq<char>, i: int) -> Option<(JsonV, int)>
    decreases s.len() - i, 0int,
{
    let j = skip_ws(s, i);
    if j < i || j >= s.len() {
        None
    } else {
        let c = s[j];
        if c == 'n' {
            if j + 4 <= s.len() && s[j + 1] == 'u' && s[j + 2] == 'l' && s[j + 3] == 'l' {
                Some((JsonV::Null, j + 4))
            } else {
                None
            }
        } else if c == 't' {
            if j + 4 <= s.len() && s[j + 1] == 'r' && s[j + 2] == 'u' && s[j + 3] == 'e' {
                Some((JsonV::Bool(true), j + 4))
            } else {
                None
            }
        } else if c == 'f' {
            if j + 5 <= s.len() && s[j + 1] == 'a' && s[j + 2] == 'l' && s[j + 3] == 's' && s[j + 4]
                == 'e' {
                Some((JsonV::Bool(false), j + 5))
            } else {
                None
            }
        } else if c == '"' {
            match parse_string_body(s, j + 1) {
                Some((str, j2)) => Some((JsonV::Str(str), j2)),
                None => None,
            }
        } else if c == '-' || is_digit(c) {
            parse_number(s, j)
        } else if c == '[' {
            match parse_array(s, j + 1) {
                Some((elems, j2)) => Some((JsonV::Arr(elems), j2)),
                None => None,
            }
        } else if c == '{' {
            match parse_object(s, j + 1) {
                Some((fields, j2)) => Some((JsonV::Obj(fields), j2)),
                None => None,
            }
        } else {
            None
        }
    }
}

/// Array elements from just past the opening bracket, up to and including
/// the closing bracket.
pub open spec fn parse_array(s: Seq<char>, i: int) -> Option<(Seq<JsonV>, int)>
    decreases s.len() - i, 1int,
{
    let j = skip_ws(s, i);
    if j < i || j >= s.len() {
        None
    } else if s[j] == ']' {
        Some((Seq::empty(), j + 1))
    } else {
        match parse_value(s, j) {
            Some((v, j2)) => {
                if j2 <= j || j2 > s.len() {
                    None
                } else {
                    match parse_array_tail(s, j2) {
                        Some((rest, j3)) => Some((seq![v] + rest, j3)),
                        None => None,
                    }
                }
            },
            None => None,
        }
    }
}

/// What follows an array element: a comma and more elements, or the
/// closing bracket.
pub open spec fn parse_array_tail(s: Seq<char>, i: int) -> Option<(Seq<JsonV>, int)>
    decreases s.len() - i, 0int,
{
    let j = skip_ws(s, i);
    if j < i || j >= s.len() {
        None
    } else if s[j] == ']' {
        Some((Seq::empty(), j + 1))
    } else if s[j] == ',' {
        match parse_value(s, j + 1) {
            Some((v, j2)) => {
                if j2 <= j + 1 || j2 > s.len() {
                    None
                } else {
                    match parse_array_tail(s, j2) {
                        Some((rest, j3)) => Some((seq![v] + rest, j3)),
                        None => None,
                    }
                }
            },
            None => None,
        }
    } else {
        None
    }
}

/// One `"key": value` pair starting at `i`, leading whitespace allowed.
pub open spec fn parse_member(s: Seq<char>, i: int) -> Option<((Seq<char>, JsonV), int)>
    decreases s.len() - i, 0int,
{
    let j = skip_ws(s, i);
    if j < i || j >= s.len() || s[j] != '"' {
        None
    } else {
        match parse_string_body(s, j + 1) {
            Some((key, j2)) => {
                if j2 <= j {
                    None
                } else {
                    let j3 = skip_ws(s, j2);
                    if j3 < j2 || j3 >= s.len() || s[j3] != ':' {
                        None
                    } else {
                        match parse_value(s, j3 + 1) {
                            Some((v, j4)) => Some(((key, v), j4)),
                            None => None,
                        }
                    }
                }
            },
            None => None,
        }
    }
}

/// Object members from just past the opening brace, up to and including
/// the closing brace.
pub open spec fn parse_object(s: Seq<char>, i: int) -> Option<(Seq<(Seq<char>, JsonV)>, int)>
    decreases s.len() - i, 2int,
{
    let j = skip_ws(s, i);
    if j < i || j >= s.len() {
        None
    } else if s[j] == '}' {
        Some((Seq::empty(), j + 1))
    } else {
        match parse_member(s, j) {
            Some((kv, j2)) => {
                if j2 <= j || j2 > s.len() {
                    None
                } else {
                    match parse_object_tail(s, j2) {
                        Some((rest, j3)) => Some((seq![kv] + rest, j3)),
                        None => None,
                    }
                }
            },
            None => None,
        }
    }
}

/// What follows an object member: a comma and more members, or the
/// closing brace.
pub open spec fn parse_object_tail(s: Seq<char>, i: int) -> Option<(Seq<(Seq<char>, JsonV)>, int)>
    decreases s.len() - i, 1int,
{
    let j = skip_ws(s, i);
    if j < i || j >= s.len() {
        None
    } else if s[j] == '}' {
        Some((Seq::empty(), j + 1))
    } else if s[j] == ',' {
        match parse_member(s, j + 1) {
            Some((kv, j2)) => {
                if j2 <= j + 1 || j2 > s.len() {
                    None
                } else {
                    match parse_object_tail(s, j2) {
                        Some((rest, j3)) => Some((seq![kv] + rest, j3)),
                        None => None,
                    }
                }
            },
            None => None,
        }
    } else {
        None
    }
}

/// A complete JSON document: one value with nothing but whitespace after it.
pub open spec fn parse_json(s: Seq<char>) -> Option<JsonV> {
    match parse_value(s, 0) {
        Some((v, j)) => {
            if skip_ws(s, j) == s.len() {
                Some(v)
            } else {
                None
            }
        },
        None => None,
    }
}

} // verus!

use vstd::prelude::*;

verus! {

// ---------------------------------------------------------------------------
// Small executable string primitives.
// ---------------------------------------------------------------------------

/// Relies on String::push: appends exactly the given character.
#[verifier::external_body]
pub fn push_char(s: &mut String, c: char)
    ensures
        final(s)@ == old(s)@ + seq![c],
{
    s.push(c);
}

/// Relies on char::from_u32: `Some` exactly for Unicode scalar values,
/// returning the character with that code point.
#[verifier::external_body]
pub fn char_from_u32(v: u32) -> (r: Option<char>)
    ensures
        r == if v < 0xD800 || (0xE000 <= v && v <= 0x10FFFF) {
            Some(v as char)
        } else {
            None::<char>
        },
{
    char::from_u32(v)
}

/// The characters of a string as a vector, for position-based scanning.
pub fn str_to_chars(s: &str) -> (r: Vec<char>)
    ensures
        r@ == s@,
{
    let n = s.unicode_len();
    let mut v: Vec<char> = Vec::new();
    let mut i: usize = 0;
    while i < n
        invariant
            i <= n,
            n == s@.len(),
            v@ == s@.subrange(0, i as int),
        decreases n - i,
    {
        v.push(s.get_char(i));
        i = i + 1;
    }
    proof {
        assert(v@ =~= s@);
    }
    v
}

/// Character-for-character string comparison.
pub fn str_eq(a: &str, b: &str) -> (r: bool)
    ensures
        r == (a@ == b@),
{
    let na = a.unicode_len();
    let nb = b.unicode_len();
    if na != nb {
        proof {
            assert(a@ != b@) by {
                assert(a@.len() != b@.len());
            }
        }
        return false;
    }
    let mut i: usize = 0;
    while i < na
        invariant
            i <= na,
            na == a@.len(),
            na == b@.len(),
            forall|k: int| 0 <= k < i ==> a@[k] == b@[k],
        decreases na - i,
    {
        if a.get_char(i) != b.get_char(i) {
            return false;
        }
        i = i + 1;
    }
    proof {
        assert(a@ =~= b@);
    }
    true
}

// ---------------------------------------------------------------------------
// The executable serializer.
// ---------------------------------------------------------------------------

fn e_hex_digit(n: u8) -> (r: char)
    requires
        n < 16,
    ensures
        r == hex_digit(n as int),
{
    if n < 10 {
        (48 + n) as char
    } else {
        (87 + n) as char
    }
}

fn e_esc_char(c: char, out: &mut String)
    ensures
        final(out)@ == old(out)@ + esc_char(c),
{
    if c == '"' {
        push_char(out, '\\');
        push_char(out, '"');
    } else if c == '\\' {
        push_char(out, '\\');
        push_char(out, '\\');
    } else if c == '\n' {
        push_char(out, '\\');
        push_char(out, 'n');
    } else if c == '\r' {
        push_char(out, '\\');
        push_char(out, 'r');
    } else if c == '\t' {
        push_char(out, '\\');
        push_char(out, 't');
    } else if (c as u32) < 0x20 {
        let v = c as u32;
        push_char(out, '\\');
        push_char(out, 'u');
        push_char(out, '0');
        push_char(out, '0');
        push_char(out, e_hex_digit((v / 16) as u8));
        push_char(out, e_hex_digit((v % 16) as u8));
    } else {
        push_char(out, c);
    }
}

fn e_str_text(s: &str, out: &mut String)
    ensures
        final(out)@ == old(out)@ + str_text(s@),
{
    let chars = str_to_chars(s);
    push_char(out, '"');
    let n = chars.len();
    let mut i: usize = 0;
    while i < n
        invariant
            i <= n,
            n == chars@.len(),
            chars@ == s@,
            out@ == old(out)@ + seq!['"'] + str_body_text(s@.subrange(0, i as int)),
        decreases n - i,
    {
        proof {
            lemma_str_body_text_snoc(s@.subrange(0, i as int), s@[i as int]);
            assert(s@.subrange(0, i as int + 1) =~= s@.subrange(0, i as int).push(s@[i as int]));
        }
        e_esc_char(chars[i], out);
        i = i + 1;
    }
    push_char(out, '"');
    proof {
        assert(s@.subrange(0, s@.len() as int) =~= s@);
        assert(final(out)@ =~= old(out)@ + str_text(s@));
    }
}

/// Escaping a string one character longer appends that character's escape.
proof fn lemma_str_body_text_snoc(s: Seq<char>, c: char)
    ensures
        str_body_text(s.push(c)) == str_body_text(s) + esc_char(c),
    decreases s.len(),
{
    let sp = s.push(c);
    assert(sp.len() == s.len() + 1);
    if s.len() == 0 {
        assert(sp[0] == c);
        assert(sp.subrange(1, sp.len() as int) =~= Seq::<char>::empty());
        assert(str_body_text(sp) == esc_char(c) + str_body_text(Seq::<char>::empty()));
        assert(str_body_text(sp) =~= str_body_text(s) + esc_char(c));
    } else {
        assert(sp[0] == s[0]);
        assert(sp.subrange(1, sp.len() as int) =~= s.subrange(1, s.len() as int).push(c));
        lemma_str_body_text_snoc(s.subrange(1, s.len() as int), c);
        assert(str_body_text(sp) == esc_char(s[0]) + (str_body_text(s.subrange(1, s.len() as int))
            + esc_char(c)));
        assert(str_body_text(s) == esc_char(s[0]) + str_body_text(s.subrange(1, s.len() as int)));
        assert(str_body_text(sp) =~= str_body_text(s) + esc_char(c));
    }
}

fn e_uint_text(n: u64, out: &mut String)
    ensures
        final(out)@ == old(out)@ + uint_text(n as nat),
    decreases n,
{
    if n < 10 {
        push_char(out, (48 + n as u8) as char);
    } else {
        e_uint_text(n / 10, out);
        push_char(out, (48 + (n % 10) as u8) as char);
    }
}

fn e_int_text(n: i64, out: &mut String)
    ensures
        final(out)@ == old(out)@ + int_text(n as int),
{
    if n < 0 {
        let mag = (-(n as i128)) as u64;
        push_char(out, '-');
        e_uint_text(mag, out);
    } else {
        e_uint_text(n as u64, out);
    }
}

/// Serializes a JSON value into its canonical text.
pub fn json_to_string(j: &Json) -> (r: String)
    ensures
        r@ == json_text(j@),
{
    let mut out = String::new();
    write_json(j, &mut out);
    out
}

fn write_json(j: &Json, out: &mut String)
    ensures
        final(out)@ == old(out)@ + json_text(j@),
    decreases *j, 0int,
{
    match j {
        Json::Null => {
            push_char(out, 'n');
            push_char(out, 'u');
            push_char(out, 'l');
            push_char(out, 'l');
        },
        Json::Bool(b) => {
            if *b {
                push_char(out, 't');
                push_char(out, 'r');
                push_char(out, 'u');
                push_char(out, 'e');
            } else {
                push_char(out, 'f');
                push_char(out, 'a');
                push_char(out, 'l');
                push_char(out, 's');
                push_char(out, 'e');
            }
        },
        Json::Int(n) => {
            e_int_text(*n, out);
        },
        Json::Str(s) => {
            e_str_text(s.as_str(), out);
        },
        Json::Arr(v) => {
            push_char(out, '[');
            if v.len() > 0 {
                write_arr_body(v, 0, out);
                proof {
                    lemma_json_view_seq(v@);
                    assert(json_view_seq(v@).subrange(0, v@.len() as int) =~= json_view_seq(v@));
                }
            } else {
                proof {
                    assert(json_view_seq(v@) =~= Seq::<JsonV>::empty());
                }
            }
            push_char(out, ']');
        },
        Json::Obj(v) => {
            push_char(out, '{');
            if v.len() > 0 {
                write_obj_body(v, 0, out);
                proof {
                    lemma_json_view_fields(v@);
                    assert(json_view_fields(v@).subrange(0, v@.len() as int) =~= json_view_fields(
                        v@,
                    ));
                }
            } else {
                proof {
                    assert(json_view_fields(v@) =~= Seq::<(Seq<char>, JsonV)>::empty());
                }
            }
            push_char(out, '}');
        },
    }
    proof {
        assert(out@ =~= old(out)@ + json_text(j@));
    }
}

fn write_arr_body(v: &Vec<Json>, idx: usize, out: &mut String)
    requires
        idx < v@.len(),
    ensures
        final(out)@ == old(out)@ + arr_body_text(json_view_seq(v@).subrange(
            idx as int,
            v@.len() as int,
        )),
    decreases *v, v@.len() - idx,
{
    proof {
        lemma_json_view_seq(v@);
    }
    let n = v.len();
    write_json(&v[idx], out);
    if idx + 1 < n {
        push_char(out, ',');
        write_arr_body(v, idx + 1, out);
    }
    proof {
        let whole = json_view_seq(v@);
        let tail = whole.subrange(idx as int, v@.len() as int);
        assert(tail[0] == json_view(v@[idx as int]));
        if idx + 1 < v@.len() {
            assert(whole.subrange(idx as int + 1, v@.len() as int) =~= tail.subrange(
                1,
                tail.len() as int,
            ));
        }
        assert(out@ =~= old(out)@ + arr_body_text(tail));
    }
}

fn write_obj_body(v: &Vec<(String, Json)>, idx: usize, out: &mut String)
    requires
        idx < v@.len(),
    ensures
        final(out)@ == old(out)@ + obj_body_text(json_view_fields(v@).subrange(
            idx as int,
            v@.len() as int,
        )),
    decreases *v, v@.len() - idx,
{
    proof {
        lemma_json_view_fields(v@);
    }
    let n = v.len();
    e_str_text(v[idx].0.as_str(), out);
    push_char(out, ':');
    write_json(&v[idx].1, out);
    if idx + 1 < n {
        push_char(out, ',');
        write_obj_body(v, idx + 1, out);
    }
    proof {
        let whole = json_view_fields(v@);
        let tail = whole.subrange(idx as int, v@.len() as int);
        assert(tail[0] == (v@[idx as int].0@, json_view(v@[idx as int].1)));
        if idx + 1 < v@.len() {
            assert(whole.subrange(idx as int + 1, v@.len() as int) =~= tail.subrange(
                1,
                tail.len() as int,
            ));
        }
        assert(out@ =~= old(out)@ + obj_body_text(tail));
    }
}

} // verus!

verus! {

// ---------------------------------------------------------------------------
// The executable parser.  Each function mirrors its spec counterpart step
// for step, so its contract is exactly "returns what the spec parse says".
// ---------------------------------------------------------------------------

pub open spec fn val_res_view(r: Option<(Json, usize)>) -> Option<(JsonV, int)> {
    match r {
        Some(p) => Some((p.0@, p.1 as int)),
        None => None,
    }
}

pub open spec fn str_res_view(r: Option<(String, usize)>) -> Option<(Seq<char>, int)> {
    match r {
        Some(p) => Some((p.0@, p.1 as int)),
        None => None,
    }
}

pub open spec fn arr_res_view(r: Option<(Vec<Json>, usize)>) -> Option<(Seq<JsonV>, int)> {
    match r {
        Some(p) => Some((json_view_seq(p.0@), p.1 as int)),
        None => None,
    }
}

pub open spec fn obj_res_view(r: Option<(Vec<(String, Json)>, usize)>) -> Option<
    (Seq<(Seq<char>, JsonV)>, int),
> {
    match r {
        Some(p) => Some((json_view_fields(p.0@), p.1 as int)),
        None => None,
    }
}

pub open spec fn mem_res_view(r: Option<((String, Json), usize)>) -> Option<
    ((Seq<char>, JsonV), int),
> {
    match r {
        Some(p) => Some(((p.0.0@, p.0.1@), p.1 as int)),
        None => None,
    }
}

pub open spec fn dig_res_view(r: Option<(u64, usize)>) -> Option<(int, int)> {
    match r {
        Some(p) => Some((p.0 as int, p.1 as int)),
        None => None,
    }
}

fn e_is_ws(c: char) -> (r: bool)
    ensures
        r == is_ws(c),
{
    c == ' ' || c == '\t' || c == '\n' || c == '\r'
}

pub(crate) fn e_is_digit(c: char) -> (r: bool)
    ensures
        r == is_digit(c),
{
    '0' <= c && c <= '9'
}

pub(crate) fn e_is_hex(c: char) -> (r: bool)
    ensures
        r == is_hex(c),
{
    ('0' <= c && c <= '9') || ('a' <= c && c <= 'f') || ('A' <= c && c <= 'F')
}

pub(crate) fn e_hex_val(c: char) -> (r: u32)
    requires
        is_hex(c),
    ensures
        r as int == hex_val(c),
        r < 16,
{
    if '0' <= c && c <= '9' {
        c as u32 - 48
    } else if 'a' <= c && c <= 'f' {
        c as u32 - 87
    } else {
        c as u32 - 55
    }
}

fn e_skip_ws(s: &Vec<char>, i: usize) -> (r: usize)
    requires
        i <= s@.len(),
    ensures
        r as int == skip_ws(s@, i as int),
        i <= r && r as int <= s@.len(),
    decreases s@.len() - i,
{
    if i < s.len() && e_is_ws(s[i]) {
        e_skip_ws(s, i + 1)
    } else {
        i
    }
}

fn e_parse_digits(s: &Vec<char>, i: usize, acc: u64, limit: u64) -> (r: Option<(u64, usize)>)
    requires
        i <= s@.len(),
        acc <= limit,
        limit <= 0x8000_0000_0000_0000,
    ensures
        dig_res_view(r) == parse_digits(s@, i as int, acc as int, limit as int),
        match r {
            Some(p) => p.0 <= limit && i <= p.1 && p.1 <= s@.len(),
            None => true,
        },
    decreases s@.len() - i,
{
    if i < s.len() && e_is_digit(s[i]) {
        let d = s[i] as u32 - 48;
        let wide = acc as u128 * 10 + d as u128;
        if wide > limit as u128 {
            None
        } else {
            e_parse_digits(s, i + 1, wide as u64, limit)
        }
    } else {
        Some((acc, i))
    }
}

fn e_parse_number(s: &Vec<char>, i: usize) -> (r: Option<(Json, usize)>)
    requires
        i < s@.len(),
    ensures
        val_res_view(r) == parse_number(s@, i as int),
        match r {
            Some(p) => p.1 <= s@.len(),
            None => true,
        },
{
    let n = s.len();
    let neg = s[i] == '-';
    let start = if neg {
        i + 1
    } else {
        i
    };
    if start >= n || !e_is_digit(s[start]) {
        return None;
    }
    let limit: u64 = if neg {
        0x8000_0000_0000_0000
    } else {
        0x7fff_ffff_ffff_ffff
    };
    match e_parse_digits(s, start, 0, limit) {
        Some((n, j)) => {
            if s[start] == '0' && j != start + 1 {
                None
            } else if j < s.len() && (s[j] == '.' || s[j] == 'e' || s[j] == 'E') {
                None
            } else {
                let val: i64 = if neg {
                    if n == 0x8000_0000_0000_0000 {
                        i64::MIN
                    } else {
                        -(n as i64)
                    }
                } else {
                    n as i64
                };
                Some((Json::Int(val), j))
            }
        },
        None => None,
    }
}

fn e_hex4(s: &Vec<char>, i: usize) -> (r: Option<u32>)
    requires
        i <= s@.len(),
    ensures
        match r {
            Some(v) => hex4(s@, i as int) == Some(v as int) && i + 4 <= s@.len() && v < 0x10000,
            None => hex4(s@, i as int) is None,
        },
{
    if s.len() - i >= 4 && e_is_hex(s[i]) && e_is_hex(s[i + 1]) && e_is_hex(s[i + 2]) && e_is_hex(
        s[i + 3],
    ) {
        let v = e_hex_val(s[i]) * 0x1000 + e_hex_val(s[i + 1]) * 0x100 + e_hex_val(s[i + 2]) * 16
            + e_hex_val(s[i + 3]);
        Some(v)
    } else {
        None
    }
}

/// A string made of one character followed by the given rest.
pub(crate) fn cons_str(c: char, rest: String) -> (r: String)
    ensures
        r@ == seq![c] + rest@,
{
    let mut out = String::new();
    push_char(&mut out, c);
    out.append(rest.as_str());
    proof {
        assert(out@ =~= seq![c] + rest@);
    }
    out
}

fn e_parse_string_body(s: &Vec<char>, i: usize) -> (r: Option<(String, usize)>)
    requires
        i <= s@.len(),
    ensures
        str_res_view(r) == parse_string_body(s@, i as int),
        match r {
            Some(p) => p.1 <= s@.len(),
            None => true,
        },
    decreases s@.len() - i, 1int,
{
    if i >= s.len() {
        return None;
    }
    let c = s[i];
    if c == '"' {
        return Some((String::new(), i + 1));
    }
    if c == '\\' {
        if s.len() - i < 2 {
            return None;
        }
        let e = s[i + 1];
        if e == 'u' {
            return e_parse_unicode_escape(s, i);
        }
        let dec: Option<char> = if e == '"' {
            Some('"')
        } else if e == '\\' {
            Some('\\')
        } else if e == '/' {
            Some('/')
        } else if e == 'b' {
            Some('\u{8}')
        } else if e == 'f' {
            Some('\u{c}')
        } else if e == 'n' {
            Some('\n')
        } else if e == 'r' {
            Some('\r')
        } else if e == 't' {
            Some('\t')
        } else {
            None
        };
        match dec {
            Some(dc) => match e_parse_string_body(s, i + 2) {
                Some((rest, j)) => Some((cons_str(dc, rest), j)),
                None => None,
            },
            None => None,
        }
    } else if ' ' > c {
        None
    } else {
        match e_parse_string_body(s, i + 1) {
            Some((rest, j)) => Some((cons_str(c, rest), j)),
            None => None,
        }
    }
}

fn e_parse_unicode_escape(s: &Vec<char>, i: usize) -> (r: Option<(String, usize)>)
    requires
        i + 2 <= s@.len(),
    ensures
        str_res_view(r) == parse_unicode_escape(s@, i as int),
        match r {
            Some(p) => p.1 <= s@.len(),
            None => true,
        },
    decreases s@.len() - i, 0int,
{
    let n = s.len();
    match e_hex4(s, i + 2) {
        None => None,
        Some(v) => {
            if v < 0xD800 || (0xE000 <= v && v <= 0x10FFFF) {
                match char_from_u32(v) {
                    Some(c) => match e_parse_string_body(s, i + 6) {
                        Some((rest, j)) => Some((cons_str(c, rest), j)),
                        None => None,
                    },
                    None => None,
                }
            } else if 0xD800 <= v && v < 0xDC00 {
                if s.len() - i >= 8 && s[i + 6] == '\\' && s[i + 7] == 'u' {
                    match e_hex4(s, i + 8) {
                        None => None,
                        Some(w) => {
                            if 0xDC00 <= w && w < 0xE000 {
                                let code = 0x10000 + (v - 0xD800) * 0x400 + (w - 0xDC00);
                                match char_from_u32(code) {
                                    Some(c) => match e_parse_string_body(s, i + 12) {
                                        Some((rest, j)) => {
                                            let mut out = String::new();
                                            push_char(&mut out, c);
                                            out.append(rest.as_str());
                                            Some((out, j))
                                        },
                                        None => None,
                                    },
                                    None => None,
                                }
                            } else {
                                None
                            }
                        },
                    }
                } else {
                    None
                }
            } else {
                None
            }
        },
    }
}

fn e_parse_value(s: &Vec<char>, i: usize) -> (r: Option<(Json, usize)>)
    requires
        i <= s@.len(),
    ensures
        val_res_view(r) == parse_value(s@, i as int),
        match r {
            Some(p) => p.1 <= s@.len(),
            None => true,
        },
    decreases s@.len() - i, 0int,
{
    let j = e_skip_ws(s, i);
    if j >= s.len() {
        return None;
    }
    let c = s[j];
    if c == 'n' {
        if s.len() - j >= 4 && s[j + 1] == 'u' && s[j + 2] == 'l' && s[j + 3] == 'l' {
            Some((Json::Null, j + 4))
        } else {
            None
        }
    } else if c == 't' {
        if s.len() - j >= 4 && s[j + 1] == 'r' && s[j + 2] == 'u' && s[j + 3] == 'e' {
            Some((Json::Bool(true), j + 4))
        } else {
            None
        }
    } else if c == 'f' {
        if s.len() - j >= 5 && s[j + 1] == 'a' && s[j + 2] == 'l' && s[j + 3] == 's' && s[j + 4]
            == 'e' {
            Some((Json::Bool(false), j + 5))
        } else {
            None
        }
    } else if c == '"' {
        match e_parse_string_body(s, j + 1) {
            Some((str, j2)) => Some((Json::Str(str), j2)),
            None => None,
        }
    } else if c == '-' || e_is_digit(c) {
        e_parse_number(s, j)
    } else if c == '[' {
        match e_parse_array(s, j + 1) {
            Some((elems, j2)) => Some((Json::Arr(elems), j2)),
            None => None,
        }
    } else if c == '{' {
        match e_parse_object(s, j + 1) {
            Some((fields, j2)) => Some((Json::Obj(fields), j2)),
            None => None,
        }
    } else {
        None
    }
}

fn e_parse_array(s: &Vec<char>, i: usize) -> (r: Option<(Vec<Json>, usize)>)
    requires
        i <= s@.len(),
    ensures
        arr_res_view(r) == parse_array(s@, i as int),
        match r {
            Some(p) => p.1 <= s@.len(),
            None => true,
        },
    decreases s@.len() - i, 1int,
{
    let j = e_skip_ws(s, i);
    if j >= s.len() {
        return None;
    }
    if s[j] == ']' {
        let out: Vec<Json> = Vec::new();
        return Some((out, j + 1));
    }
    match e_parse_value(s, j) {
        None => None,
        Some((v, j2)) => {
            if j2 <= j || j2 > s.len() {
                return None;
            }
            match e_parse_array_tail(s, j2) {
                None => None,
                Some((rest, j3)) => {
                    let mut out: Vec<Json> = Vec::new();
                    let ghost gv = v;
                    let ghost grest = rest@;
                    out.push(v);
                    let mut rest = rest;
                    out.append(&mut rest);
                    proof {
                        assert(out@ =~= seq![gv] + grest);
                        assert(out@.subrange(1, out@.len() as int) =~= grest);
                        lemma_view_seq_cons(gv, out@);
                    }
                    Some((out, j3))
                },
            }
        },
    }
}

fn e_parse_array_tail(s: &Vec<char>, i: usize) -> (r: Option<(Vec<Json>, usize)>)
    requires
        i <= s@.len(),
    ensures
        arr_res_view(r) == parse_array_tail(s@, i as int),
        match r {
            Some(p) => p.1 <= s@.len(),
            None => true,
        },
    decreases s@.len() - i, 0int,
{
    let j = e_skip_ws(s, i);
    if j >= s.len() {
        return None;
    }
    if s[j] == ']' {
        let out: Vec<Json> = Vec::new();
        return Some((out, j + 1));
    }
    if s[j] == ',' {
        match e_parse_value(s, j + 1) {
            None => None,
            Some((v, j2)) => {
                if j2 <= j + 1 || j2 > s.len() {
                    return None;
                }
                match e_parse_array_tail(s, j2) {
                    None => None,
                    Some((rest, j3)) => {
                        let mut out: Vec<Json> = Vec::new();
                        let ghost gv = v;
                        let ghost grest = rest@;
                        out.push(v);
                        let mut rest = rest;
                        out.append(&mut rest);
                        proof {
                            assert(out@ =~= seq![gv] + grest);
                            assert(out@.subrange(1, out@.len() as int) =~= grest);
                            lemma_view_seq_cons(gv, out@);
                        }
                        Some((out, j3))
                    },
                }
            },
        }
    } else {
        None
    }
}

/// Unfolds `json_view_seq` over a one-element prepend.
proof fn lemma_view_seq_cons(v: Json, s: Seq<Json>)
    requires
        s.len() >= 1,
        s[0] == v,
    ensures
        json_view_seq(s) == seq![json_view(v)] + json_view_seq(s.subrange(1, s.len() as int)),
{
}

/// Unfolds `json_view_fields` over a one-element prepend.
proof fn lemma_view_fields_cons(kv: (String, Json), s: Seq<(String, Json)>)
    requires
        s.len() >= 1,
        s[0] == kv,
    ensures
        json_view_fields(s) == seq![(kv.0@, json_view(kv.1))] + json_view_fields(
            s.subrange(1, s.len() as int),
        ),
{
}

fn e_parse_member(s: &Vec<char>, i: usize) -> (r: Option<((String, Json), usize)>)
    requires
        i <= s@.len(),
    ensures
        mem_res_view(r) == parse_member(s@, i as int),
        match r {
            Some(p) => p.1 <= s@.len(),
            None => true,
        },
    decreases s@.len() - i, 0int,
{
    let j = e_skip_ws(s, i);
    if j >= s.len() || s[j] != '"' {
        return None;
    }
    match e_parse_string_body(s, j + 1) {
        None => None,
        Some((key, j2)) => {
            if j2 <= j {
                return None;
            }
            let j3 = e_skip_ws(s, j2);
            if j3 >= s.len() || s[j3] != ':' {
                return None;
            }
            match e_parse_value(s, j3 + 1) {
                None => None,
                Some((v, j4)) => Some(((key, v), j4)),
            }
        },
    }
}

fn e_parse_object(s: &Vec<char>, i: usize) -> (r: Option<(Vec<(String, Json)>, usize)>)
    requires
        i <= s@.len(),
    ensures
        obj_res_view(r) == parse_object(s@, i as int),
        match r {
            Some(p) => p.1 <= s@.len(),
            None => true,
        },
    decreases s@.len() - i, 2int,
{
    let j = e_skip_ws(s, i);
    if j >= s.len() {
        return None;
    }
    if s[j] == '}' {
        let out: Vec<(String, Json)> = Vec::new();
        return Some((out, j + 1));
    }
    match e_parse_member(s, j) {
        None => None,
        Some((kv, j2)) => {
            if j2 <= j || j2 > s.len() {
                return None;
            }
            match e_parse_object_tail(s, j2) {
                None => None,
                Some((rest, j3)) => {
                    let mut out: Vec<(String, Json)> = Vec::new();
                    let ghost gkv = kv;
                    let ghost grest = rest@;
                    out.push(kv);
                    let mut rest = rest;
                    out.append(&mut rest);
                    proof {
                        assert(out@ =~= seq![gkv] + grest);
                        assert(out@.subrange(1, out@.len() as int) =~= grest);
                        lemma_view_fields_cons(gkv, out@);
                    }
                    Some((out, j3))
                },
            }
        },
    }
}

fn e_parse_object_tail(s: &Vec<char>, i: usize) -> (r: Option<(Vec<(String, Json)>, usize)>)
    requires
        i <= s@.len(),
    ensures
        obj_res_view(r) == parse_object_tail(s@, i as int),
        match r {
            Some(p) => p.1 <= s@.len(),
            None => true,
        },
    decreases s@.len() - i, 1int,
{
    let j = e_skip_ws(s, i);
    if j >= s.len() {
        return None;
    }
    if s[j] == '}' {
        let out: Vec<(String, Json)> = Vec::new();
        return Some((out, j + 1));
    }
    if s[j] == ',' {
        match e_parse_member(s, j + 1) {
            None => None,
            Some((kv, j2)) => {
                if j2 <= j + 1 || j2 > s.len() {
                    return None;
                }
                match e_parse_object_tail(s, j2) {
                    None => None,
                    Some((rest, j3)) => {
                        let mut out: Vec<(String, Json)> = Vec::new();
                        let ghost gkv = kv;
                        let ghost grest = rest@;
                        out.push(kv);
                        let mut rest = rest;
                        out.append(&mut rest);
                        proof {
                            assert(out@ =~= seq![gkv] + grest);
                            assert(out@.subrange(1, out@.len() as int) =~= grest);
                            lemma_view_fields_cons(gkv, out@);
                        }
                        Some((out, j3))
                    },
                }
            },
        }
    } else {
        None
    }
}

/// Parses a complete JSON document.
pub fn json_from_str(text: &str) -> (r: Option<Json>)
    ensures
        r.deep_view() == parse_json(text@),
{
    let chars = str_to_chars(text);
    match e_parse_value(&chars, 0) {
        None => None,
        Some((v, j)) => {
            let k = e_skip_ws(&chars, j);
            if k == chars.len() {
                Some(v)
            } else {
                None
            }
        },
    }
}

} // verus!

verus! {

/// A deep copy of a JSON value.
#[verifier::loop_isolation(false)]
pub fn clone_json(j: &Json) -> (r: Json)
    ensures
        r@ == j@,
    decreases *j, 0int,
{
    match j {
        Json::Null => Json::Null,
        Json::Bool(b) => Json::Bool(*b),
        Json::Int(n) => Json::Int(*n),
        Json::Str(s) => Json::Str(s.clone()),
        Json::Arr(v) => {
            let mut out: Vec<Json> = Vec::new();
            let n = v.len();
            let mut i: usize = 0;
            while i < n
                invariant
                    i <= n,
                    n == v@.len(),
                    out@.len() == i,
                    forall|k: int| 0 <= k < i ==> json_view(#[trigger] out@[k]) == json_view(v@[k]),
                decreases n - i,
            {
                let c = clone_json_at(v, i);
                out.push(c);
                i = i + 1;
            }
            proof {
                lemma_json_view_seq(out@);
                lemma_json_view_seq(v@);
                assert(json_view_seq(out@) =~= json_view_seq(v@));
            }
            Json::Arr(out)
        },
        Json::Obj(v) => {
            let mut out: Vec<(String, Json)> = Vec::new();
            let n = v.len();
            let mut i: usize = 0;
            while i < n
                invariant
                    i <= n,
                    n == v@.len(),
                    out@.len() == i,
                    forall|k: int|
                        0 <= k < i ==> (#[trigger] out@[k]).0@ == v@[k].0@ && json_view(out@[k].1)
                            == json_view(v@[k].1),
                decreases n - i,
            {
                let key = v[i].0.clone();
                let val = clone_json_field(v, i);
                out.push((key, val));
                i = i + 1;
            }
            proof {
                lemma_json_view_fields(out@);
                lemma_json_view_fields(v@);
                assert(json_view_fields(out@) =~= json_view_fields(v@));
            }
            Json::Obj(out)
        },
    }
}

fn clone_json_at(v: &Vec<Json>, i: usize) -> (r: Json)
    requires
        i < v@.len(),
    ensures
        r@ == v@[i as int]@,
    decreases *v, 1int,
{
    clone_json(&v[i])
}

fn clone_json_field(v: &Vec<(String, Json)>, i: usize) -> (r: Json)
    requires
        i < v@.len(),
    ensures
        r@ == v@[i as int].1@,
    decreases *v, 1int,
{
    clone_json(&v[i].1)
}

/// Finds the first field with the given key among an object's fields.
pub fn e_obj_get<'a>(fields: &'a Vec<(String, Json)>, key: &str) -> (r: Option<&'a Json>)
    ensures
        match r {
            Some(j) => obj_get(json_view_fields(fields@), key@) == Some(j@),
            None => obj_get(json_view_fields(fields@), key@) is None,
        },
{
    proof {
        lemma_json_view_fields(fields@);
        assert(json_view_fields(fields@).subrange(0, fields@.len() as int) =~= json_view_fields(
            fields@,
        ));
    }
    let n = fields.len();
    let mut i: usize = 0;
    while i < n
        invariant
            i <= n,
            n == fields@.len(),
            json_view_fields(fields@).len() == n,
            forall|k: int|
                0 <= k < n ==> #[trigger] json_view_fields(fields@)[k] == (
                    fields@[k].0@,
                    json_view(fields@[k].1),
                ),
            obj_get(json_view_fields(fields@), key@) == obj_get(
                json_view_fields(fields@).subrange(i as int, n as int),
                key@,
            ),
        decreases n - i,
    {
        proof {
            let dv = json_view_fields(fields@);
            let tail = dv.subrange(i as int, n as int);
            assert(tail[0] == dv[i as int]);
            assert(tail.subrange(1, tail.len() as int) =~= dv.subrange(i as int + 1, n as int));
        }
        if str_eq(fields[i].0.as_str(), key) {
            return Some(&fields[i].1);
        }
        i = i + 1;
    }
    proof {
        assert(json_view_fields(fields@).subrange(n as int, n as int) =~= Seq::<
            (Seq<char>, JsonV),
        >::empty());
    }
    None
}

} // verus!

verus! {

// ---------------------------------------------------------------------------
// Typed readers over an object's fields, shared by the response parsers.
// A reader yields `None` when the field is missing or has the wrong shape.
// ---------------------------------------------------------------------------

/// The value of a string field.
pub open spec fn str_field(fields: Seq<(Seq<char>, JsonV)>, key: Seq<char>) -> Option<Seq<char>> {
    match obj_get(fields, key) {
        Some(JsonV::Str(s)) => Some(s),
        _ => None,
    }
}

/// The value of an integer field.
pub open spec fn int_field(fields: Seq<(Seq<char>, JsonV)>, key: Seq<char>) -> Option<int> {
    match obj_get(fields, key) {
        Some(JsonV::Int(n)) => Some(n),
        _ => None,
    }
}

/// The value of a boolean field.
pub open spec fn bool_field(fields: Seq<(Seq<char>, JsonV)>, key: Seq<char>) -> Option<bool> {
    match obj_get(fields, key) {
        Some(JsonV::Bool(b)) => Some(b),
        _ => None,
    }
}

/// An optional string field: absent or `null` reads as `None`, a string as
/// `Some`, and anything else does not read at all.
pub open spec fn opt_str_field(fields: Seq<(Seq<char>, JsonV)>, key: Seq<char>) -> Option<
    Option<Seq<char>>,
> {
    match obj_get(fields, key) {
        None => Some(None),
        Some(JsonV::Null) => Some(None),
        Some(JsonV::Str(s)) => Some(Some(s)),
        Some(_) => None,
    }
}

pub fn e_str_field(fields: &Vec<(String, Json)>, key: &str) -> (r: Option<String>)
    ensures
        r.deep_view() == str_field(json_view_fields(fields@), key@),
{
    match e_obj_get(fields, key) {
        Some(Json::Str(s)) => Some(s.clone()),
        _ => None,
    }
}

pub fn e_int_field(fields: &Vec<(String, Json)>, key: &str) -> (r: Option<i64>)
    ensures
        match r {
            Some(n) => int_field(json_view_fields(fields@), key@) == Some(n as int),
            None => int_field(json_view_fields(fields@), key@) is None,
        },
{
    match e_obj_get(fields, key) {
        Some(Json::Int(n)) => Some(*n),
        _ => None,
    }
}

pub fn e_bool_field(fields: &Vec<(String, Json)>, key: &str) -> (r: Option<bool>)
    ensures
        match r {
            Some(b) => bool_field(json_view_fields(fields@), key@) == Some(b),
            None => bool_field(json_view_fields(fields@), key@) is None,
        },
{
    match e_obj_get(fields, key) {
        Some(Json::Bool(b)) => Some(*b),
        _ => None,
    }
}

pub fn e_opt_str_field(fields: &Vec<(String, Json)>, key: &str) -> (r: Option<Option<String>>)
    ensures
        r.deep_view() == opt_str_field(json_view_fields(fields@), key@),
{
    match e_obj_get(fields, key) {
        None => Some(None),
        Some(Json::Null) => Some(None),
        Some(Json::Str(s)) => Some(Some(s.clone())),
        Some(_) => None,
    }
}

/// The `.tag` discriminant of a tagged union value.
pub open spec fn tag_of(j: JsonV) -> Option<Seq<char>> {
    match j {
        JsonV::Obj(fields) => str_field(fields, ".tag"@),
        _ => None,
    }
}

pub fn e_tag_of(j: &Json) -> (r: Option<String>)
    ensures
        r.deep_view() == tag_of(j@),
{
    match j {
        Json::Obj(fields) => e_str_field(fields, ".tag"),
        _ => None,
    }
}

} // verus!

verus! {

// ---------------------------------------------------------------------------
// The serializer/parser round trip: the canonical text of a well-formed
// value parses back to that value.
// ---------------------------------------------------------------------------

/// A value whose integers fit the wire's 64-bit signed range — exactly the
/// values the executable model can hold.
pub open spec fn wf_json(j: JsonV) -> bool
    decreases j,
{
    match j {
        JsonV::Int(n) => -0x8000_0000_0000_0000 <= n && n <= 0x7fff_ffff_ffff_ffff,
        JsonV::Arr(elems) => wf_json_list(elems),
        JsonV::Obj(fields) => wf_json_fields(fields),
        _ => true,
    }
}

pub open spec fn wf_json_list(elems: Seq<JsonV>) -> bool
    decreases elems,
{
    if elems.len() == 0 {
        true
    } else {
        wf_json(elems[0]) && wf_json_list(elems.subrange(1, elems.len() as int))
    }
}

pub open spec fn wf_json_fields(fields: Seq<(Seq<char>, JsonV)>) -> bool
    decreases fields,
{
    if fields.len() == 0 {
        true
    } else {
        wf_json(fields[0].1) && wf_json_fields(fields.subrange(1, fields.len() as int))
    }
}

/// The view of any executable value is well formed.
pub proof fn lemma_json_view_wf(j: Json)
    ensures
        wf_json(j@),
    decreases j, 1int,
{
    match j {
        Json::Arr(v) => {
            lemma_json_view_seq(v@);
            lemma_json_view_wf_list(v@, 0);
            assert(json_view_seq(v@).subrange(0, v@.len() as int) =~= json_view_seq(v@));
        },
        Json::Obj(v) => {
            lemma_json_view_fields(v@);
            lemma_json_view_wf_fields(v@, 0);
            assert(json_view_fields(v@).subrange(0, v@.len() as int) =~= json_view_fields(v@));
        },
        _ => {},
    }
}

proof fn lemma_json_view_wf_list(v: Seq<Json>, i: int)
    requires
        0 <= i <= v.len(),
    ensures
        wf_json_list(json_view_seq(v).subrange(i, v.len() as int)),
    decreases v, 0int, v.len() - i,
{
    lemma_json_view_seq(v);
    let tail = json_view_seq(v).subrange(i, v.len() as int);
    if i == v.len() {
        assert(tail =~= Seq::<JsonV>::empty());
    } else {
        assert(tail[0] == json_view(v[i]));
        lemma_json_view_wf(v[i]);
        lemma_json_view_wf_list(v, i + 1);
        assert(tail.subrange(1, tail.len() as int) =~= json_view_seq(v).subrange(
            i + 1,
            v.len() as int,
        ));
    }
}

proof fn lemma_json_view_wf_fields(v: Seq<(String, Json)>, i: int)
    requires
        0 <= i <= v.len(),
    ensures
        wf_json_fields(json_view_fields(v).subrange(i, v.len() as int)),
    decreases v, 0int, v.len() - i,
{
    lemma_json_view_fields(v);
    let tail = json_view_fields(v).subrange(i, v.len() as int);
    if i == v.len() {
        assert(tail =~= Seq::<(Seq<char>, JsonV)>::empty());
    } else {
        assert(tail[0] == (v[i].0@, json_view(v[i].1)));
        lemma_json_view_wf(v[i].1);
        lemma_json_view_wf_fields(v, i + 1);
        assert(tail.subrange(1, tail.len() as int) =~= json_view_fields(v).subrange(
            i + 1,
            v.len() as int,
        ));
    }
}

/// `t` appears letter for letter at position `i` of `s`.
pub open spec fn embeds(s: Seq<char>, i: int, t: Seq<char>) -> bool {
    0 <= i && i + t.len() <= s.len() && (forall|k: int| 0 <= k < t.len() ==> s[i + k] == t[k])
}

proof fn lemma_embeds_concat(s: Seq<char>, i: int, a: Seq<char>, b: Seq<char>)
    requires
        embeds(s, i, a + b),
    ensures
        embeds(s, i, a),
        embeds(s, i + a.len(), b),
{
    assert forall|k: int| 0 <= k < a.len() implies s[i + k] == a[k] by {
        assert((a + b)[k] == a[k]);
    }
    assert forall|k: int| 0 <= k < b.len() implies s[i + a.len() + k] == b[k] by {
        assert((a + b)[a.len() + k] == b[k]);
    }
}

proof fn lemma_embeds_at(s: Seq<char>, i: int, t: Seq<char>, k: int)
    requires
        embeds(s, i, t),
        0 <= k < t.len(),
    ensures
        s[i + k] == t[k],
{
}

/// A position after which a number cannot continue: the end, or a character
/// that extends neither an integer nor a float literal.
pub open spec fn delim_ok(s: Seq<char>, p: int) -> bool {
    p == s.len() || !(is_digit(s[p]) || s[p] == '.' || s[p] == 'e' || s[p] == 'E')
}

// --------------------------- numbers ---------------------------------------

proof fn lemma_uint_text_digits(n: nat)
    ensures
        uint_text(n).len() >= 1,
        forall|k: int| 0 <= k < uint_text(n).len() ==> is_digit(#[trigger] uint_text(n)[k]),
        n > 0 ==> uint_text(n)[0] != '0',
        n == 0 ==> uint_text(n) == seq![digit_char(0)],
        is_digit(uint_text(n)[0]),
    decreases n,
{
    if n < 10 {
        assert(digit_char(n as int) as int == 48 + n);
    } else {
        lemma_uint_text_digits(n / 10);
        let a = uint_text(n / 10);
        let d = digit_char((n % 10) as int);
        assert(d as int == 48 + (n % 10));
        assert(uint_text(n) == a + seq![d]);
        assert(forall|k: int| 0 <= k < a.len() ==> uint_text(n)[k] == a[k]);
        assert(uint_text(n)[a.len() as int] == d);
        assert(uint_text(n)[0] == a[0]);
    }
}

/// The value of a digit string folded onto an accumulator, as the parser
/// reads it.
spec fn dval(acc: int, t: Seq<char>) -> int
    decreases t.len(),
{
    if t.len() == 0 {
        acc
    } else {
        dval(acc * 10 + (t[0] as int - 48), t.subrange(1, t.len() as int))
    }
}

/// Whether every intermediate accumulator stays within the limit.
spec fn dval_ok(acc: int, t: Seq<char>, limit: int) -> bool
    decreases t.len(),
{
    if t.len() == 0 {
        true
    } else {
        let a2 = acc * 10 + (t[0] as int - 48);
        a2 <= limit && dval_ok(a2, t.subrange(1, t.len() as int), limit)
    }
}

proof fn lemma_dval_grows(acc: int, t: Seq<char>)
    requires
        acc >= 0,
        forall|k: int| 0 <= k < t.len() ==> is_digit(#[trigger] t[k]),
    ensures
        dval(acc, t) >= acc,
    decreases t.len(),
{
    if t.len() > 0 {
        let d = t[0] as int - 48;
        let a2 = acc * 10 + d;
        assert(is_digit(t[0]));
        assert(d >= 0);
        assert(a2 >= acc);
        assert(forall|k: int|
            0 <= k < t.len() - 1 ==> is_digit(#[trigger] t.subrange(1, t.len() as int)[k]));
        lemma_dval_grows(a2, t.subrange(1, t.len() as int));
    }
}

proof fn lemma_dval_ok(acc: int, t: Seq<char>, limit: int)
    requires
        acc >= 0,
        forall|k: int| 0 <= k < t.len() ==> is_digit(#[trigger] t[k]),
        dval(acc, t) <= limit,
    ensures
        dval_ok(acc, t, limit),
    decreases t.len(),
{
    if t.len() > 0 {
        let d = t[0] as int - 48;
        let a2 = acc * 10 + d;
        assert(is_digit(t[0]));
        let t2 = t.subrange(1, t.len() as int);
        assert(forall|k: int| 0 <= k < t2.len() ==> is_digit(#[trigger] t2[k]));
        lemma_dval_grows(a2, t2);
        lemma_dval_ok(a2, t2, limit);
    }
}

proof fn lemma_dval_snoc(acc: int, t: Seq<char>, d: char)
    ensures
        dval(acc, t.push(d)) == dval(acc, t) * 10 + (d as int - 48),
    decreases t.len(),
{
    let tp = t.push(d);
    if t.len() == 0 {
        assert(tp[0] == d);
        assert(tp.subrange(1, tp.len() as int) =~= Seq::<char>::empty());
        assert(dval(acc * 10 + (d as int - 48), Seq::<char>::empty()) == acc * 10 + (d as int
            - 48));
        assert(dval(acc, tp) == acc * 10 + (d as int - 48));
    } else {
        assert(tp[0] == t[0]);
        assert(tp.subrange(1, tp.len() as int) =~= t.subrange(1, t.len() as int).push(d));
        lemma_dval_snoc(acc * 10 + (t[0] as int - 48), t.subrange(1, t.len() as int), d);
        assert(dval(acc, tp) == dval(acc * 10 + (t[0] as int - 48), t.subrange(1, t.len() as int))
            * 10 + (d as int - 48));
    }
}

proof fn lemma_dval_uint(n: nat)
    ensures
        dval(0, uint_text(n)) == n,
    decreases n,
{
    if n < 10 {
        assert(digit_char(n as int) as int == 48 + n);
        let tt = uint_text(n);
        assert(tt == seq![digit_char(n as int)]);
        assert(tt[0] as int == 48 + n);
        assert(tt.subrange(1, 1) =~= Seq::<char>::empty());
        assert(dval(0 * 10 + (tt[0] as int - 48), Seq::<char>::empty()) == 0 * 10 + (tt[0] as int
            - 48));
        assert(dval(0, tt) == dval(0 * 10 + (tt[0] as int - 48), tt.subrange(1, 1)));
    } else {
        lemma_dval_uint(n / 10);
        let a = uint_text(n / 10);
        let d = digit_char((n % 10) as int);
        assert(d as int == 48 + (n % 10));
        assert(uint_text(n) =~= a.push(d));
        lemma_dval_snoc(0, a, d);
        assert(dval(0, uint_text(n)) == dval(0, a.push(d)));
        assert(dval(0, a.push(d)) == dval(0, a) * 10 + (d as int - 48));
        assert((n / 10) * 10 + n % 10 == n) by (nonlinear_arith);
    }
}

proof fn lemma_parse_digits_embed(t: Seq<char>, s: Seq<char>, i: int, acc: int, limit: int)
    requires
        embeds(s, i, t),
        forall|k: int| 0 <= k < t.len() ==> is_digit(#[trigger] t[k]),
        i + t.len() == s.len() || !is_digit(s[i + t.len()]),
    ensures
        parse_digits(s, i, acc, limit) == if dval_ok(acc, t, limit) {
            Some((dval(acc, t), i + t.len()))
        } else {
            None::<(int, int)>
        },
    decreases t.len(),
{
    if t.len() == 0 {
        assert(i >= s.len() || !is_digit(s[i]));
    } else {
        assert(s[i] == t[0]);
        assert(is_digit(s[i]));
        let d = s[i] as int - 48;
        let a2 = acc * 10 + d;
        let t2 = t.subrange(1, t.len() as int);
        assert(forall|k: int| 0 <= k < t2.len() ==> is_digit(#[trigger] t2[k]));
        assert(embeds(s, i + 1, t2)) by {
            assert forall|k: int| 0 <= k < t2.len() implies s[i + 1 + k] == t2[k] by {
                assert(t2[k] == t[1 + k]);
            }
        }
        if a2 > limit {
        } else {
            lemma_parse_digits_embed(t2, s, i + 1, a2, limit);
        }
    }
}

/// An embedded integer literal with nothing number-like after it parses to
/// exactly that integer.
proof fn lemma_parse_number_embed(n: int, s: Seq<char>, i: int)
    requires
        -0x8000_0000_0000_0000 <= n <= 0x7fff_ffff_ffff_ffff,
        embeds(s, i, int_text(n)),
        delim_ok(s, i + int_text(n).len()),
    ensures
        parse_number(s, i) == Some((JsonV::Int(n), i + int_text(n).len())),
{
    if n < 0 {
        let m = (-n) as nat;
        lemma_uint_text_digits(m);
        assert(int_text(n) == seq!['-'] + uint_text(m));
        lemma_embeds_concat(s, i, seq!['-'], uint_text(m));
        assert(s[i] == '-');
        lemma_parse_digits_embed(uint_text(m), s, i + 1, 0, 0x8000_0000_0000_0000);
        lemma_dval_uint(m);
        lemma_dval_ok(0, uint_text(m), 0x8000_0000_0000_0000);
        assert(s[i + 1] == uint_text(m)[0]);
        if m == 0 {
            assert(uint_text(m).len() == 1);
        } else {
            assert(s[i + 1] != '0');
        }
    } else {
        let m = n as nat;
        lemma_uint_text_digits(m);
        assert(int_text(n) == uint_text(m));
        assert(s[i] == uint_text(m)[0]);
        assert(is_digit(s[i]));
        assert(s[i] != '-');
        lemma_parse_digits_embed(uint_text(m), s, i, 0, 0x7fff_ffff_ffff_ffff);
        lemma_dval_uint(m);
        lemma_dval_ok(0, uint_text(m), 0x7fff_ffff_ffff_ffff);
        if m == 0 {
            assert(uint_text(m).len() == 1);
        } else {
            assert(s[i] != '0');
        }
    }
}

} // verus!

verus! {

// --------------------------- strings ---------------------------------------

/// A character's code point reads the same through either cast.
proof fn lemma_char_cast(c: char)
    ensures
        c as u32 == c as int,
{
}

proof fn lemma_hex_digit(k: int)
    requires
        0 <= k < 16,
    ensures
        is_hex(hex_digit(k)),
        hex_val(hex_digit(k)) == k,
{
    if k < 10 {
        assert(hex_digit(k) as int == 48 + k);
    } else {
        assert(hex_digit(k) as int == 87 + k);
    }
}

/// The escaped body of a string followed by its closing quote parses back
/// to exactly that string.
proof fn lemma_parse_str_body_embed(str: Seq<char>, s: Seq<char>, i: int)
    requires
        embeds(s, i, str_body_text(str) + seq!['"']),
    ensures
        parse_string_body(s, i) == Some((str, i + str_body_text(str).len() + 1)),
    decreases str.len(),
{
    let whole = str_body_text(str) + seq!['"'];
    if str.len() == 0 {
        assert(whole =~= seq!['"']);
        lemma_embeds_at(s, i, whole, 0);
        assert(s[i] == '"');
        assert(str =~= Seq::<char>::empty());
    } else {
        let c = str[0];
        lemma_char_cast(c);
        let str2 = str.subrange(1, str.len() as int);
        let rest_text = str_body_text(str2) + seq!['"'];
        assert(str_body_text(str) == esc_char(c) + str_body_text(str2));
        assert((esc_char(c) + str_body_text(str2)) + seq!['"'] =~= esc_char(c) + rest_text);
        lemma_embeds_concat(s, i, esc_char(c), rest_text);
        let e = esc_char(c).len() as int;
        lemma_parse_str_body_embed(str2, s, i + e);
        assert(seq![c] + str2 =~= str);
        if c == '"' || c == '\\' || c == '\n' || c == '\r' || c == '\t' {
            lemma_embeds_at(s, i, esc_char(c), 0);
            lemma_embeds_at(s, i, esc_char(c), 1);
            assert(s[i] == '\\');
        } else if (c as u32) < 0x20 {
            let hi = (c as u32 / 16) as int;
            let lo = (c as u32 % 16) as int;
            lemma_embeds_at(s, i, esc_char(c), 0);
            lemma_embeds_at(s, i, esc_char(c), 1);
            lemma_embeds_at(s, i, esc_char(c), 2);
            lemma_embeds_at(s, i, esc_char(c), 3);
            lemma_embeds_at(s, i, esc_char(c), 4);
            lemma_embeds_at(s, i, esc_char(c), 5);
            assert(s[i] == '\\' && s[i + 1] == 'u' && s[i + 2] == '0' && s[i + 3] == '0' && s[i + 4]
                == hex_digit(hi) && s[i + 5] == hex_digit(lo));
            lemma_hex_digit(hi);
            lemma_hex_digit(lo);
            assert(is_hex('0') && hex_val('0') == 0);
            let v = hex_val(s[i + 2]) * 0x1000 + hex_val(s[i + 3]) * 0x100 + hex_val(s[i + 4]) * 16
                + hex_val(s[i + 5]);
        assert(((c as u32) / 16) * 16 + ((c as u32) % 16) == (c as u32)) by (nonlinear_arith);
            assert(hi * 16 + lo == c as u32);
            assert(v == c as int);
            assert(hex4(s, i + 2) == Some(c as int));
            assert(is_scalar_value(v));
            assert((v as char) == c);
            assert(parse_unicode_escape(s, i) == Some((str, i + str_body_text(str).len() + 1)));
        } else {
            lemma_embeds_at(s, i, esc_char(c), 0);
            assert(s[i] == c);
            assert(!(' ' > c));
        }
    }
}

} // verus!

verus! {

// --------------------------- values ----------------------------------------

/// What follows the first element of a non-empty array, up to and
/// including the closing bracket.
spec fn arr_tail_text(rest: Seq<JsonV>) -> Seq<char>
    decreases rest,
{
    if rest.len() == 0 {
        seq![']']
    } else {
        seq![','] + json_text(rest[0]) + arr_tail_text(rest.subrange(1, rest.len() as int))
    }
}

/// One serialized object member.
spec fn member_text(kv: (Seq<char>, JsonV)) -> Seq<char> {
    str_text(kv.0) + seq![':'] + json_text(kv.1)
}

/// What follows the first member of a non-empty object, up to and
/// including the closing brace.
spec fn obj_tail_text(rest: Seq<(Seq<char>, JsonV)>) -> Seq<char>
    decreases rest,
{
    if rest.len() == 0 {
        seq!['}']
    } else {
        seq![','] + member_text(rest[0]) + obj_tail_text(rest.subrange(1, rest.len() as int))
    }
}

proof fn lemma_arr_body_split(elems: Seq<JsonV>)
    requires
        elems.len() >= 1,
    ensures
        arr_body_text(elems) + seq![']'] == json_text(elems[0]) + arr_tail_text(
            elems.subrange(1, elems.len() as int),
        ),
    decreases elems,
{
    let sub = elems.subrange(1, elems.len() as int);
    if elems.len() == 1 {
        assert(arr_tail_text(sub) =~= seq![']']);
        assert(arr_body_text(elems) + seq![']'] =~= json_text(elems[0]) + arr_tail_text(sub));
    } else {
        lemma_arr_body_split(sub);
        assert(sub[0] == elems[1]);
        assert(sub.subrange(1, sub.len() as int) =~= elems.subrange(2, elems.len() as int));
        assert(arr_body_text(elems) + seq![']'] =~= json_text(elems[0]) + (seq![','] + (
        arr_body_text(sub) + seq![']'])));
        assert(seq![','] + (json_text(sub[0]) + arr_tail_text(sub.subrange(1, sub.len() as int)))
            =~= arr_tail_text(sub));
        assert(arr_body_text(elems) + seq![']'] =~= json_text(elems[0]) + arr_tail_text(sub));
    }
}

proof fn lemma_obj_body_split(fields: Seq<(Seq<char>, JsonV)>)
    requires
        fields.len() >= 1,
    ensures
        obj_body_text(fields) + seq!['}'] == member_text(fields[0]) + obj_tail_text(
            fields.subrange(1, fields.len() as int),
        ),
    decreases fields,
{
    let sub = fields.subrange(1, fields.len() as int);
    if fields.len() == 1 {
        assert(obj_tail_text(sub) =~= seq!['}']);
        assert(obj_body_text(fields) + seq!['}'] =~= member_text(fields[0]) + obj_tail_text(sub));
    } else {
        lemma_obj_body_split(sub);
        assert(sub[0] == fields[1]);
        assert(sub.subrange(1, sub.len() as int) =~= fields.subrange(2, fields.len() as int));
        assert(obj_body_text(fields) + seq!['}'] =~= member_text(fields[0]) + (seq![','] + (
        obj_body_text(sub) + seq!['}'])));
        assert(seq![','] + (member_text(sub[0]) + obj_tail_text(sub.subrange(1, sub.len() as int)))
            =~= obj_tail_text(sub));
        assert(obj_body_text(fields) + seq!['}'] =~= member_text(fields[0]) + obj_tail_text(sub));
    }
}

/// The canonical text of a value is non-empty, starts with no whitespace,
/// and never starts with a closing delimiter.
proof fn lemma_json_text_first(j: JsonV)
    ensures
        json_text(j).len() >= 1,
        !is_ws(json_text(j)[0]),
        json_text(j)[0] != ']',
        json_text(j)[0] != '}',
{
    match j {
        JsonV::Int(n) => {
            if n < 0 {
                assert(json_text(j)[0] == '-');
            } else {
                lemma_uint_text_digits(n as nat);
                assert(json_text(j)[0] == uint_text(n as nat)[0]);
                assert(is_digit(json_text(j)[0]));
            }
        },
        _ => {},
    }
}

#[verifier::rlimit(100)]
#[verifier::spinoff_prover]
proof fn lemma_parse_value_embed(j: JsonV, s: Seq<char>, i: int)
    requires
        wf_json(j),
        embeds(s, i, json_text(j)),
        delim_ok(s, i + json_text(j).len()),
    ensures
        parse_value(s, i) == Some((j, i + json_text(j).len())),
    decreases j,
{
    let t = json_text(j);
    lemma_json_text_first(j);
    lemma_embeds_at(s, i, t, 0);
    assert(!is_ws(s[i]));
    assert(skip_ws(s, i) == i);
    match j {
        JsonV::Null => {
            lemma_embeds_at(s, i, t, 1);
            lemma_embeds_at(s, i, t, 2);
            lemma_embeds_at(s, i, t, 3);
        },
        JsonV::Bool(b) => {
            lemma_embeds_at(s, i, t, 1);
            lemma_embeds_at(s, i, t, 2);
            lemma_embeds_at(s, i, t, 3);
            if !b {
                lemma_embeds_at(s, i, t, 4);
            }
        },
        JsonV::Int(n) => {
            if n >= 0 {
                lemma_uint_text_digits(n as nat);
                assert(is_digit(s[i]));
            }
            lemma_parse_number_embed(n, s, i);
        },
        JsonV::Str(str) => {
            assert(t =~= seq!['"'] + (str_body_text(str) + seq!['"']));
            lemma_embeds_concat(s, i, seq!['"'], str_body_text(str) + seq!['"']);
            lemma_parse_str_body_embed(str, s, i + 1);
        },
        JsonV::Arr(elems) => {
            if elems.len() == 0 {
                assert(arr_body_text(elems) == Seq::<char>::empty());
                assert(t =~= seq!['[', ']']);
                lemma_embeds_at(s, i, t, 1);
                assert(s[i + 1] == ']');
                assert(!is_ws(s[i + 1]));
                assert(skip_ws(s, i + 1) == i + 1);
                assert(parse_array(s, i + 1) == Some((Seq::<JsonV>::empty(), i + 2)));
                assert(elems =~= Seq::<JsonV>::empty());
            } else {
                let e0 = elems[0];
                let rest = elems.subrange(1, elems.len() as int);
                lemma_arr_body_split(elems);
                assert(t =~= seq!['['] + (json_text(e0) + arr_tail_text(rest)));
                lemma_embeds_concat(s, i, seq!['['], json_text(e0) + arr_tail_text(rest));
                lemma_embeds_concat(s, i + 1, json_text(e0), arr_tail_text(rest));
                lemma_json_text_first(e0);
                lemma_embeds_at(s, i + 1, json_text(e0), 0);
                assert(skip_ws(s, i + 1) == i + 1);
                assert(s[i + 1] != ']');
                let p = i + 1 + json_text(e0).len();
                assert(arr_tail_text(rest).len() >= 1);
                lemma_embeds_at(s, p, arr_tail_text(rest), 0);
                if rest.len() == 0 {
                    assert(s[p] == ']');
                } else {
                    assert(s[p] == ',');
                }
                assert(delim_ok(s, p));
                lemma_parse_value_embed(e0, s, i + 1);
                lemma_parse_arr_tail_embed(rest, s, p);
                assert(seq![e0] + rest =~= elems);
                assert(p + arr_tail_text(rest).len() == i + t.len());
            }
        },
        JsonV::Obj(fields) => {
            if fields.len() == 0 {
                assert(obj_body_text(fields) == Seq::<char>::empty());
                assert(t =~= seq!['{', '}']);
                lemma_embeds_at(s, i, t, 1);
                assert(s[i + 1] == '}');
                assert(!is_ws(s[i + 1]));
                assert(skip_ws(s, i + 1) == i + 1);
                assert(parse_object(s, i + 1) == Some(
                    (Seq::<(Seq<char>, JsonV)>::empty(), i + 2),
                ));
                assert(fields =~= Seq::<(Seq<char>, JsonV)>::empty());
            } else {
                let kv0 = fields[0];
                let rest = fields.subrange(1, fields.len() as int);
                lemma_obj_body_split(fields);
                assert(t =~= seq!['{'] + (member_text(kv0) + obj_tail_text(rest)));
                lemma_embeds_concat(s, i, seq!['{'], member_text(kv0) + obj_tail_text(rest));
                lemma_embeds_concat(s, i + 1, member_text(kv0), obj_tail_text(rest));
                let p = i + 1 + member_text(kv0).len();
                assert(obj_tail_text(rest).len() >= 1);
                lemma_embeds_at(s, p, obj_tail_text(rest), 0);
                if rest.len() == 0 {
                    assert(s[p] == '}');
                } else {
                    assert(s[p] == ',');
                }
                lemma_embeds_at(s, i + 1, member_text(kv0), 0);
                assert(s[i + 1] == '"');
                assert(skip_ws(s, i + 1) == i + 1);
                assert(s[i + 1] != '}');
                lemma_parse_member_embed(kv0, s, i + 1);
                lemma_parse_obj_tail_embed(rest, s, p);
                assert(seq![kv0] + rest =~= fields);
                assert(p + obj_tail_text(rest).len() == i + t.len());
            }
        },
    }
}

proof fn lemma_parse_arr_tail_embed(rest: Seq<JsonV>, s: Seq<char>, i: int)
    requires
        wf_json_list(rest),
        embeds(s, i, arr_tail_text(rest)),
    ensures
        parse_array_tail(s, i) == Some((rest, i + arr_tail_text(rest).len())),
    decreases rest,
{
    lemma_embeds_at(s, i, arr_tail_text(rest), 0);
    if rest.len() == 0 {
        assert(s[i] == ']');
        assert(skip_ws(s, i) == i);
        assert(rest =~= Seq::<JsonV>::empty());
    } else {
        let e0 = rest[0];
        let sub = rest.subrange(1, rest.len() as int);
        assert(s[i] == ',');
        assert(skip_ws(s, i) == i);
        assert(arr_tail_text(rest) =~= seq![','] + (json_text(e0) + arr_tail_text(sub)));
        lemma_embeds_concat(s, i, seq![','], json_text(e0) + arr_tail_text(sub));
        lemma_embeds_concat(s, i + 1, json_text(e0), arr_tail_text(sub));
        let p = i + 1 + json_text(e0).len();
        assert(arr_tail_text(sub).len() >= 1);
        lemma_embeds_at(s, p, arr_tail_text(sub), 0);
        if sub.len() == 0 {
            assert(s[p] == ']');
        } else {
            assert(s[p] == ',');
        }
        assert(delim_ok(s, p));
        lemma_json_text_first(e0);
        lemma_parse_value_embed(e0, s, i + 1);
        lemma_parse_arr_tail_embed(sub, s, p);
        assert(seq![e0] + sub =~= rest);
    }
}

proof fn lemma_parse_member_embed(kv: (Seq<char>, JsonV), s: Seq<char>, i: int)
    requires
        wf_json(kv.1),
        embeds(s, i, member_text(kv)),
        delim_ok(s, i + member_text(kv).len()),
    ensures
        parse_member(s, i) == Some((kv, i + member_text(kv).len())),
    decreases kv,
{
    let k = kv.0;
    let v = kv.1;
    assert(member_text(kv) =~= seq!['"'] + ((str_body_text(k) + seq!['"']) + (seq![':']
        + json_text(v))));
    lemma_embeds_concat(s, i, seq!['"'], (str_body_text(k) + seq!['"']) + (seq![':'] + json_text(v)));
    lemma_embeds_concat(s, i + 1, str_body_text(k) + seq!['"'], seq![':'] + json_text(v));
    lemma_embeds_at(s, i, seq!['"'], 0);
    assert(s[i] == '"');
    assert(skip_ws(s, i) == i);
    lemma_parse_str_body_embed(k, s, i + 1);
    let p = i + 1 + str_body_text(k).len() + 1;
    lemma_embeds_concat(s, p, seq![':'], json_text(v));
    lemma_embeds_at(s, p, seq![':'], 0);
    assert(s[p] == ':');
    assert(skip_ws(s, p) == p);
    lemma_json_text_first(v);
    lemma_parse_value_embed(v, s, p + 1);
}

proof fn lemma_parse_obj_tail_embed(rest: Seq<(Seq<char>, JsonV)>, s: Seq<char>, i: int)
    requires
        wf_json_fields(rest),
        embeds(s, i, obj_tail_text(rest)),
    ensures
        parse_object_tail(s, i) == Some((rest, i + obj_tail_text(rest).len())),
    decreases rest,
{
    lemma_embeds_at(s, i, obj_tail_text(rest), 0);
    if rest.len() == 0 {
        assert(s[i] == '}');
        assert(skip_ws(s, i) == i);
        assert(rest =~= Seq::<(Seq<char>, JsonV)>::empty());
    } else {
        let kv0 = rest[0];
        let sub = rest.subrange(1, rest.len() as int);
        assert(s[i] == ',');
        assert(skip_ws(s, i) == i);
        assert(obj_tail_text(rest) =~= seq![','] + (member_text(kv0) + obj_tail_text(sub)));
        lemma_embeds_concat(s, i, seq![','], member_text(kv0) + obj_tail_text(sub));
        lemma_embeds_concat(s, i + 1, member_text(kv0), obj_tail_text(sub));
        let p = i + 1 + member_text(kv0).len();
        assert(obj_tail_text(sub).len() >= 1);
        lemma_embeds_at(s, p, obj_tail_text(sub), 0);
        if sub.len() == 0 {
            assert(s[p] == '}');
        } else {
            assert(s[p] == ',');
        }
        lemma_parse_member_embed(kv0, s, i + 1);
        lemma_parse_obj_tail_embed(sub, s, p);
        assert(seq![kv0] + sub =~= rest);
    }
}

/// The round trip of the wire format: the canonical text of a well-formed
/// value parses back to exactly that value.
pub proof fn lemma_parse_json_text(j: JsonV)
    requires
        wf_json(j),
    ensures
        parse_json(json_text(j)) == Some(j),
{
    let s = json_text(j);
    assert(embeds(s, 0, s));
    assert(delim_ok(s, 0 + s.len() as int));
    lemma_parse_value_embed(j, s, 0);
    assert(skip_ws(s, s.len() as int) == s.len());
}

} // verus!

verus! {

/// A list is well formed when its elements are.
pub proof fn lemma_wf_json_list_all(elems: Seq<JsonV>)
    requires
        forall|k: int| 0 <= k < elems.len() ==> wf_json(#[trigger] elems[k]),
    ensures
        wf_json_list(elems),
    decreases elems.len(),
{
    if elems.len() > 0 {
        let sub = elems.subrange(1, elems.len() as int);
        assert(forall|k: int| 0 <= k < sub.len() ==> wf_json(#[trigger] sub[k]));
        lemma_wf_json_list_all(sub);
    }
}

/// An object is well formed when its field values are.
pub proof fn lemma_wf_json_fields_all(fields: Seq<(Seq<char>, JsonV)>)
    requires
        forall|k: int| 0 <= k < fields.len() ==> wf_json((#[trigger] fields[k]).1),
    ensures
        wf_json_fields(fields),
    decreases fields.len(),
{
    if fields.len() > 0 {
        let sub = fields.subrange(1, fields.len() as int);
        assert(forall|k: int| 0 <= k < sub.len() ==> wf_json((#[trigger] sub[k]).1));
        lemma_wf_json_fields_all(sub);
    }
}

} // verus!

verus! {

/// Two character sequences differing in length or first character differ.
pub proof fn lemma_strlit_ne(a: Seq<char>, b: Seq<char>)
    requires
        a.len() != b.len() || (a.len() > 0 && b.len() > 0 && a[0] != b[0]),
    ensures
        a != b,
{
}

} // verus!
