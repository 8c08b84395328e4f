//! The `application/x-www-form-urlencoded` conventions used on the OAuth
//! endpoints: percent encoding of query parameters, and the splitting of a
//! query (or fragment) string into decoded key/value pairs.

use vstd::prelude::*;

use crate::json::{
    cons_str, e_hex_val, e_is_hex, hex_val, is_hex, push_char, str_eq, str_to_chars,
};

verus! {

broadcast use vstd::std_specs::vec::group_vec_axioms, vstd::seq::group_seq_axioms, vstd::utf8::char_is_scalar;

// ---------------------------------------------------------------------------
// Encoding.
// ---------------------------------------------------------------------------

/// Characters that a form-encoded query keeps as they are.
pub open spec fn is_form_safe(c: char) -> bool {
    ('a' <= c && c <= 'z') || ('A' <= c && c <= 'Z') || ('0' <= c && c <= '9') || c == '*' || c
        == '-' || c == '.' || c == '_'
}

pub open spec fn hex_up(n: int) -> char {
    if n < 10 {
        ((48 + n) as u32) as char
    } else {
        ((55 + n) as u32) as char
    }
}

/// Percent-escapes of a byte string, two uppercase hex digits per byte.
pub open spec fn pct_text(bs: Seq<u8>) -> Seq<char>
    decreases bs.len(),
{
    if bs.len() == 0 {
        Seq::empty()
    } else {
        seq!['%', hex_up(bs[0] as int / 16), hex_up(bs[0] as int % 16)] + pct_text(
            bs.subrange(1, bs.len() as int),
        )
    }
}

/// How one character appears in a form-encoded string: kept, turned into
/// `+`, or percent-escaped byte by byte of its UTF-8 encoding.
pub open spec fn form_enc_char(c: char) -> Seq<char> {
    if is_form_safe(c) {
        seq![c]
    } else if c == ' ' {
        seq!['+']
    } else {
        pct_text(vstd::utf8::encode_scalar(c as u32))
    }
}

pub open spec fn form_encoded(s: Seq<char>) -> Seq<char>
    decreases s.len(),
{
    if s.len() == 0 {
        Seq::empty()
    } else {
        form_enc_char(s[0]) + form_encoded(s.subrange(1, s.len() as int))
    }
}

proof fn lemma_form_encoded_snoc(s: Seq<char>, c: char)
    ensures
        form_encoded(s.push(c)) == form_encoded(s) + form_enc_char(c),
    decreases s.len(),
{
    let sp = s.push(c);
    assert(sp.len() == s.len() + 1);
    if s.len() == 0 {
        assert(sp[0] == c);
        assert(sp.subrange(1, sp.len() as int) =~= Seq::<char>::empty());
        assert(form_encoded(sp) == form_enc_char(c) + form_encoded(Seq::<char>::empty()));
        assert(form_encoded(sp) =~= form_encoded(s) + form_enc_char(c));
    } else {
        assert(sp[0] == s[0]);
        assert(sp.subrange(1, sp.len() as int) =~= s.subrange(1, s.len() as int).push(c));
        lemma_form_encoded_snoc(s.subrange(1, s.len() as int), c);
        assert(form_encoded(sp) == form_enc_char(s[0]) + (form_encoded(
            s.subrange(1, s.len() as int),
        ) + form_enc_char(c)));
        assert(form_encoded(s) == form_enc_char(s[0]) + form_encoded(
            s.subrange(1, s.len() as int),
        ));
        assert(form_encoded(sp) =~= form_encoded(s) + form_enc_char(c));
    }
}

fn e_hex_up(n: u8) -> (r: char)
    requires
        n < 16,
    ensures
        r == hex_up(n as int),
{
    if n < 10 {
        (48 + n) as char
    } else {
        (55 + n) as char
    }
}

/// The UTF-8 bytes of one character.
fn utf8_bytes(c: char) -> (r: Vec<u8>)
    ensures
        r@ == vstd::utf8::encode_scalar(c as u32),
        1 <= r@.len() <= 4,
{
    let v = c as u32;
    let mut out: Vec<u8> = Vec::new();
    if v <= 0x7F {
        out.push((v & 0x7F) as u8);
        proof {
            assert(out@ =~= vstd::utf8::encode_scalar(c as u32));
        }
    } else if v <= 0x7FF {
        out.push(0xC0 | ((v >> 6) & 0x1F) as u8);
        out.push(0x80 | (v & 0x3F) as u8);
        proof {
            assert(out@ =~= vstd::utf8::encode_scalar(c as u32));
        }
    } else if v <= 0xFFFF {
        out.push(0xE0 | ((v >> 12) & 0x0F) as u8);
        out.push(0x80 | ((v >> 6) & 0x3F) as u8);
        out.push(0x80 | (v & 0x3F) as u8);
        proof {
            assert(out@ =~= vstd::utf8::encode_scalar(c as u32));
        }
    } else {
        out.push(0xF0 | ((v >> 18) & 0x7) as u8);
        out.push(0x80 | ((v >> 12) & 0x3F) as u8);
        out.push(0x80 | ((v >> 6) & 0x3F) as u8);
        out.push(0x80 | (v & 0x3F) as u8);
        proof {
            assert(out@ =~= vstd::utf8::encode_scalar(c as u32));
        }
    }
    out
}

fn e_form_enc_char(c: char, out: &mut String)
    ensures
        final(out)@ == old(out)@ + form_enc_char(c),
{
    let safe = ('a' <= c && c <= 'z') || ('A' <= c && c <= 'Z') || ('0' <= c && c <= '9') || c
        == '*' || c == '-' || c == '.' || c == '_';
    if safe {
        push_char(out, c);
    } else if c == ' ' {
        push_char(out, '+');
    } else {
        let bs = utf8_bytes(c);
        let n = bs.len();
        let mut i: usize = 0;
        while i < n
            invariant
                i <= n,
                n == bs@.len(),
                bs@ == vstd::utf8::encode_scalar(c as u32),
                out@ == old(out)@ + pct_text(bs@.subrange(0, i as int)),
            decreases n - i,
        {
            proof {
                lemma_pct_text_snoc(bs@.subrange(0, i as int), bs@[i as int]);
                assert(bs@.subrange(0, i as int + 1) =~= bs@.subrange(0, i as int).push(
                    bs@[i as int],
                ));
            }
            let b = bs[i];
            push_char(out, '%');
            push_char(out, e_hex_up(b / 16));
            push_char(out, e_hex_up(b % 16));
            i = i + 1;
        }
        proof {
            assert(bs@.subrange(0, bs@.len() as int) =~= bs@);
            assert(out@ =~= old(out)@ + form_enc_char(c));
        }
    }
}

proof fn lemma_pct_text_snoc(bs: Seq<u8>, b: u8)
    ensures
        pct_text(bs.push(b)) == pct_text(bs) + seq!['%', hex_up(b as int / 16), hex_up(b as int % 16)],
    decreases bs.len(),
{
    let sp = bs.push(b);
    let bt = seq!['%', hex_up(b as int / 16), hex_up(b as int % 16)];
    assert(sp.len() == bs.len() + 1);
    if bs.len() == 0 {
        assert(sp[0] == b);
        assert(sp.subrange(1, sp.len() as int) =~= Seq::<u8>::empty());
        assert(pct_text(sp) == bt + pct_text(Seq::<u8>::empty()));
        assert(pct_text(sp) =~= pct_text(bs) + bt);
    } else {
        assert(sp[0] == bs[0]);
        assert(sp.subrange(1, sp.len() as int) =~= bs.subrange(1, bs.len() as int).push(b));
        lemma_pct_text_snoc(bs.subrange(1, bs.len() as int), b);
        assert(pct_text(sp) == seq!['%', hex_up(bs[0] as int / 16), hex_up(bs[0] as int % 16)] + (
        pct_text(bs.subrange(1, bs.len() as int)) + bt));
        assert(pct_text(bs) == seq!['%', hex_up(bs[0] as int / 16), hex_up(bs[0] as int % 16)]
            + pct_text(bs.subrange(1, bs.len() as int)));
        assert(pct_text(sp) =~= pct_text(bs) + bt);
    }
}

/// Appends the form encoding of `s` to `out`.
pub fn form_encode_onto(s: &str, out: &mut String)
    ensures
        final(out)@ == old(out)@ + form_encoded(s@),
{
    let chars = str_to_chars(s);
    let n = chars.len();
    let mut i: usize = 0;
    while i < n
        invariant
            i <= n,
            n == chars@.len(),
            chars@ == s@,
            out@ == old(out)@ + form_encoded(s@.subrange(0, i as int)),
        decreases n - i,
    {
        proof {
            lemma_form_encoded_snoc(s@.subrange(0, i as int), s@[i as int]);
            assert(s@.subrange(0, i as int + 1) =~= s@.subrange(0, i as int).push(s@[i as int]));
        }
        e_form_enc_char(chars[i], out);
        i = i + 1;
    }
    proof {
        assert(s@.subrange(0, s@.len() as int) =~= s@);
    }
}

/// The form encoding of a string.
pub fn form_encode(s: &str) -> (r: String)
    ensures
        r@ == form_encoded(s@),
{
    let mut out = String::new();
    form_encode_onto(s, &mut out);
    out
}

// ---------------------------------------------------------------------------
// Decoding and query splitting.
// ---------------------------------------------------------------------------

/// The first position of `c` in `s[from..end)`, or `end` if it does not occur.
pub open spec fn find_char(s: Seq<char>, from: int, end: int, c: char) -> int
    decreases end - from,
{
    if from < 0 || from >= end || from >= s.len() {
        end
    } else if s[from] == c {
        from
    } else {
        find_char(s, from + 1, end, c)
    }
}

pub proof fn lemma_find_char(s: Seq<char>, from: int, end: int, c: char)
    requires
        0 <= from <= end <= s.len(),
    ensures
        from <= find_char(s, from, end, c) <= end,
        find_char(s, from, end, c) < end ==> s[find_char(s, from, end, c)] == c,
    decreases end - from,
{
    if from < end && s[from] != c {
        lemma_find_char(s, from + 1, end, c);
    }
}

/// Percent-decoding of `s[i..end)`: `+` becomes a space; `%XX` below 0x80
/// becomes that character, and any higher escaped byte becomes U+FFFD.
pub open spec fn pct_decode(s: Seq<char>, i: int, end: int) -> Seq<char>
    decreases end - i,
{
    if i < 0 || i >= end || i >= s.len() {
        Seq::empty()
    } else if s[i] == '+' {
        seq![' '] + pct_decode(s, i + 1, end)
    } else if s[i] == '%' && i + 2 < end && i + 2 < s.len() && is_hex(s[i + 1]) && is_hex(
        s[i + 2],
    ) {
        let v = hex_val(s[i + 1]) * 16 + hex_val(s[i + 2]);
        (if v < 0x80 {
            seq![v as char]
        } else {
            seq!['\u{FFFD}']
        }) + pct_decode(s, i + 3, end)
    } else {
        seq![s[i]] + pct_decode(s, i + 1, end)
    }
}

/// One `key=value` piece of a query string, both sides decoded; a piece
/// without `=` is a key with an empty value.
pub open spec fn pair_of(s: Seq<char>, from: int, end: int) -> (Seq<char>, Seq<char>) {
    let e = find_char(s, from, end, '=');
    (
        pct_decode(s, from, e),
        if e < end {
            pct_decode(s, e + 1, end)
        } else {
            Seq::empty()
        },
    )
}

/// The decoded key/value pairs of the query text `s[from..end)`, split on
/// `&`, empty pieces skipped.
pub open spec fn query_pairs(s: Seq<char>, from: int, end: int) -> Seq<(Seq<char>, Seq<char>)>
    decreases end - from,
{
    if from < 0 || from >= end {
        Seq::empty()
    } else {
        let k = find_char(s, from, end, '&');
        if k < from {
            Seq::empty()
        } else {
            let head: Seq<(Seq<char>, Seq<char>)> = if k > from {
                seq![pair_of(s, from, k)]
            } else {
                Seq::empty()
            };
            let rest: Seq<(Seq<char>, Seq<char>)> = if k + 1 <= end {
                query_pairs(s, k + 1, end)
            } else {
                Seq::empty()
            };
            head + rest
        }
    }
}

/// The value of the last pair with the given key, if any: when a key is
/// repeated, the last occurrence wins.
pub open spec fn lookup_last(pairs: Seq<(Seq<char>, Seq<char>)>, key: Seq<char>) -> Option<
    Seq<char>,
>
    decreases pairs.len(),
{
    if pairs.len() == 0 {
        None
    } else if pairs.last().0 == key {
        Some(pairs.last().1)
    } else {
        lookup_last(pairs.drop_last(), key)
    }
}

pub fn e_find_char(s: &Vec<char>, from: usize, end: usize, c: char) -> (r: usize)
    requires
        from <= end,
        end <= s@.len(),
    ensures
        r as int == find_char(s@, from as int, end as int, c),
        from <= r <= end,
        r < end ==> s@[r as int] == c,
    decreases end - from,
{
    if from >= end {
        end
    } else if s[from] == c {
        from
    } else {
        e_find_char(s, from + 1, end, c)
    }
}

fn e_pct_decode(s: &Vec<char>, i: usize, end: usize) -> (r: String)
    requires
        end <= s@.len(),
    ensures
        r@ == pct_decode(s@, i as int, end as int),
    decreases end - i,
{
    if i >= end {
        return String::new();
    }
    let c = s[i];
    if c == '+' {
        cons_str(' ', e_pct_decode(s, i + 1, end))
    } else if c == '%' && end - i > 2 && e_is_hex(s[i + 1]) && e_is_hex(s[i + 2]) {
        let v = e_hex_val(s[i + 1]) * 16 + e_hex_val(s[i + 2]);
        let d: char = if v < 0x80 {
            (v as u8) as char
        } else {
            '\u{FFFD}'
        };
        cons_str(d, e_pct_decode(s, i + 3, end))
    } else {
        cons_str(c, e_pct_decode(s, i + 1, end))
    }
}

fn e_pair_of(s: &Vec<char>, from: usize, end: usize) -> (r: (String, String))
    requires
        from <= end,
        end <= s@.len(),
    ensures
        (r.0@, r.1@) == pair_of(s@, from as int, end as int),
{
    let e = e_find_char(s, from, end, '=');
    let key = e_pct_decode(s, from, e);
    let val = if e < end {
        e_pct_decode(s, e + 1, end)
    } else {
        String::new()
    };
    (key, val)
}

/// Splits `s[from..end)` into decoded key/value pairs.
pub fn e_query_pairs(s: &Vec<char>, from: usize, end: usize) -> (r: Vec<(String, String)>)
    requires
        from <= end,
        end <= s@.len(),
    ensures
        r.deep_view() == query_pairs(s@, from as int, end as int),
    decreases end - from,
{
    let mut out: Vec<(String, String)> = Vec::new();
    if from >= end {
        proof {
            assert(out.deep_view() =~= query_pairs(s@, from as int, end as int));
        }
        return out;
    }
    let k = e_find_char(s, from, end, '&');
    if k > from {
        out.push(e_pair_of(s, from, k));
    }
    if k < end {
        let mut rest = e_query_pairs(s, k + 1, end);
        let ghost ghead = out.deep_view();
        let ghost grest = rest.deep_view();
        out.append(&mut rest);
        proof {
            assert(out.deep_view() =~= ghead + grest);
            assert(out.deep_view() =~= query_pairs(s@, from as int, end as int));
        }
    } else {
        proof {
            assert(out.deep_view() =~= query_pairs(s@, from as int, end as int));
        }
    }
    out
}

/// Finds the last value bound to `key`, scanning from the end.
pub fn e_lookup_last(pairs: &Vec<(String, String)>, key: &str) -> (r: Option<String>)
    ensures
        match r {
            Some(v) => lookup_last(pairs.deep_view(), key@) == Some(v@),
            None => lookup_last(pairs.deep_view(), key@) is None,
        },
{
    let mut idx = pairs.len();
    proof {
        assert(pairs.deep_view().subrange(0, idx as int) =~= pairs.deep_view());
    }
    while idx > 0
        invariant
            idx <= pairs@.len(),
            lookup_last(pairs.deep_view(), key@) == lookup_last(
                pairs.deep_view().subrange(0, idx as int),
                key@,
            ),
        decreases idx,
    {
        idx = idx - 1;
        proof {
            assert(pairs.deep_view().subrange(0, idx as int + 1).last() == (
                pairs@[idx as int].0@,
                pairs@[idx as int].1@,
            ));
            assert(pairs.deep_view().subrange(0, idx as int + 1).drop_last() =~= pairs.deep_view()
                .subrange(0, idx as int));
        }
        if str_eq(pairs[idx].0.as_str(), key) {
            return Some(pairs[idx].1.clone());
        }
    }
    proof {
        assert(pairs.deep_view().subrange(0, 0) =~= Seq::<(Seq<char>, Seq<char>)>::empty());
    }
    None
}

} // verus!

verus! {

// ---------------------------------------------------------------------------
// Frame facts: the pieces of a query are determined by the characters of
// their own region alone.  They let the fragment of a URI be read exactly
// as a query string would be.
// ---------------------------------------------------------------------------

/// Two texts of one length that agree wherever either holds `c` in the
/// window are searched identically.
pub proof fn lemma_find_char_frame(s1: Seq<char>, s2: Seq<char>, from: int, end: int, c: char)
    requires
        s1.len() == s2.len(),
        forall|k: int| from <= k < end ==> (s1[k] == c) == (#[trigger] s2[k] == c),
    ensures
        find_char(s1, from, end, c) == find_char(s2, from, end, c),
    decreases end - from,
{
    if !(from < 0 || from >= end || from >= s1.len()) {
        lemma_find_char_frame(s1, s2, from + 1, end, c);
    }
}

pub proof fn lemma_pct_decode_frame(s1: Seq<char>, s2: Seq<char>, i: int, end: int)
    requires
        s1.len() == s2.len(),
        forall|k: int| i <= k < end ==> s1[k] == #[trigger] s2[k],
    ensures
        pct_decode(s1, i, end) == pct_decode(s2, i, end),
    decreases end - i,
{
    if !(i < 0 || i >= end || i >= s1.len()) {
        lemma_pct_decode_frame(s1, s2, i + 1, end);
        if i + 2 < end {
            lemma_pct_decode_frame(s1, s2, i + 3, end);
        }
    }
}

pub proof fn lemma_pair_of_frame(s1: Seq<char>, s2: Seq<char>, from: int, end: int)
    requires
        s1.len() == s2.len(),
        0 <= from <= end <= s1.len(),
        forall|k: int| from <= k < end ==> s1[k] == #[trigger] s2[k],
    ensures
        pair_of(s1, from, end) == pair_of(s2, from, end),
{
    assert(forall|k: int| from <= k < end ==> (s1[k] == '=') == (#[trigger] s2[k] == '='));
    lemma_find_char_frame(s1, s2, from, end, '=');
    let e = find_char(s1, from, end, '=');
    lemma_find_char(s1, from, end, '=');
    lemma_pct_decode_frame(s1, s2, from, e);
    if e < end {
        lemma_pct_decode_frame(s1, s2, e + 1, end);
    }
}

/// The decoded pairs of a window depend on that window's characters alone.
pub proof fn lemma_query_pairs_frame(s1: Seq<char>, s2: Seq<char>, from: int, end: int)
    requires
        s1.len() == s2.len(),
        0 <= from || from >= end,
        end <= s1.len(),
        forall|k: int| from <= k < end ==> s1[k] == #[trigger] s2[k],
    ensures
        query_pairs(s1, from, end) == query_pairs(s2, from, end),
    decreases end - from,
{
    if !(from < 0 || from >= end) {
        assert(forall|k: int| from <= k < end ==> (s1[k] == '&') == (#[trigger] s2[k] == '&'));
        lemma_find_char_frame(s1, s2, from, end, '&');
        let k = find_char(s1, from, end, '&');
        lemma_find_char(s1, from, end, '&');
        if k >= from {
            if k > from {
                lemma_pair_of_frame(s1, s2, from, k);
            }
            if k + 1 <= end {
                lemma_query_pairs_frame(s1, s2, k + 1, end);
            }
        }
    }
}

} // verus!

verus! {

/// The first occurrence is found.
pub proof fn lemma_find_char_hit(s: Seq<char>, from: int, end: int, c: char, at: int)
    requires
        0 <= from <= at < end <= s.len(),
        s[at] == c,
        forall|k: int| from <= k < at ==> s[k] != c,
    ensures
        find_char(s, from, end, c) == at,
    decreases at - from,
{
    if from < at {
        lemma_find_char_hit(s, from + 1, end, c, at);
    }
}

/// A character that does not occur is not found.
pub proof fn lemma_find_char_miss(s: Seq<char>, from: int, end: int, c: char)
    requires
        0 <= from,
        end <= s.len(),
        forall|k: int| from <= k < end ==> s[k] != c,
    ensures
        find_char(s, from, end, c) == end,
    decreases end - from,
{
    if from < end {
        lemma_find_char_miss(s, from + 1, end, c);
    }
}

} // verus!
