//! The JSON value model of the wire protocol, with a verified serializer
//! and parser working directly on bytes.
//!
//! Numbers are kept exact: integers that fit `i64` (up to 18 digits) are
//! `Int`, every other numeric token is carried verbatim as `Num` text, so
//! no precision is lost and no floating point is needed.

use vstd::prelude::*;

verus! {

/// An owned JSON value. Strings are UTF-8 bytes as they stand on the wire
/// (after unescaping); object members keep their order of appearance.
pub enum Json {
    Null,
    Bool(bool),
    Int(i64),
    /// A numeric token that is not a plain integer in `i64` range
    /// (fractions, exponents, oversized integers), kept verbatim.
    Num(Vec<u8>),
    Str(Vec<u8>),
    Arr(Vec<Json>),
    Obj(Vec<(Vec<u8>, Json)>),
}

/// The mathematical model of a JSON value, used by every contract.
pub enum JsonModel {
    Null,
    Bool(bool),
    Int(int),
    Num(Seq<u8>),
    Str(Seq<u8>),
    Arr(Seq<JsonModel>),
    Obj(Seq<(Seq<u8>, JsonModel)>),
}

/// The models of a sequence of executable values, element by element.
pub open spec fn json_models(elems: Seq<Json>) -> Seq<JsonModel>
    decreases elems, 0int,
{
    Seq::new(
        elems.len(),
        |i: int|
            if 0 <= i < elems.len() {
                json_model(elems[i])
            } else {
                JsonModel::Null
            },
    )
}

/// The models of a sequence of executable object members.
pub open spec fn json_pair_models(pairs: Seq<(Vec<u8>, Json)>) -> Seq<(Seq<u8>, JsonModel)>
    decreases pairs, 0int,
{
    Seq::new(
        pairs.len(),
        |i: int|
            if 0 <= i < pairs.len() {
                (pairs[i].0@, json_model(pairs[i].1))
            } else {
                (Seq::empty(), JsonModel::Null)
            },
    )
}

/// The model of an executable value.
pub open spec fn json_model(j: Json) -> JsonModel
    decreases j, 1int,
{
    match j {
        Json::Null => JsonModel::Null,
        Json::Bool(b) => JsonModel::Bool(b),
        Json::Int(n) => JsonModel::Int(n as int),
        Json::Num(s) => JsonModel::Num(s@),
        Json::Str(s) => JsonModel::Str(s@),
        Json::Arr(elems) => JsonModel::Arr(json_models(elems@)),
        Json::Obj(pairs) => JsonModel::Obj(json_pair_models(pairs@)),
    }
}

/// Looks a key up among object members; the last occurrence wins, as it
/// does when the wire bytes are read into a map one member at a time.
pub open spec fn spec_lookup(pairs: Seq<(Seq<u8>, JsonModel)>, key: Seq<u8>) -> Option<JsonModel>
    decreases pairs.len(),
{
    if pairs.len() == 0 {
        None
    } else if pairs.last().0 == key {
        Some(pairs.last().1)
    } else {
        spec_lookup(pairs.drop_last(), key)
    }
}

/// The member of an object value named `key`; `None` for any other value.
pub open spec fn spec_field(m: JsonModel, key: Seq<u8>) -> Option<JsonModel> {
    match m {
        JsonModel::Obj(pairs) => spec_lookup(pairs, key),
        _ => None,
    }
}

// ---------------------------------------------------------------------------
// Serialization
// ---------------------------------------------------------------------------

/// Lower-case hexadecimal digit for a value below 16.
pub open spec fn spec_hex_digit(n: u8) -> u8 {
    if n < 10 {
        (0x30 + n) as u8
    } else {
        (0x57 + n) as u8
    }
}

/// How one string byte appears inside a serialized JSON string: the two
/// quoting characters and control bytes are escaped, everything else is
/// emitted verbatim.
pub open spec fn spec_escape_byte(b: u8) -> Seq<u8> {
    if b == 0x22 {
        seq![0x5cu8, 0x22u8]
    } else if b == 0x5c {
        seq![0x5cu8, 0x5cu8]
    } else if b == 0x08 {
        seq![0x5cu8, 0x62u8]
    } else if b == 0x09 {
        seq![0x5cu8, 0x74u8]
    } else if b == 0x0a {
        seq![0x5cu8, 0x6eu8]
    } else if b == 0x0c {
        seq![0x5cu8, 0x66u8]
    } else if b == 0x0d {
        seq![0x5cu8, 0x72u8]
    } else if b < 0x20 {
        seq![0x5cu8, 0x75u8, 0x30u8, 0x30u8, spec_hex_digit(b / 16), spec_hex_digit(b % 16)]
    } else {
        seq![b]
    }
}

/// The escaped form of the first `k` bytes of `s`.
pub open spec fn spec_escape_to(s: Seq<u8>, k: int) -> Seq<u8>
    decreases k,
{
    if k <= 0 {
        Seq::empty()
    } else {
        spec_escape_to(s, k - 1) + spec_escape_byte(s[k - 1])
    }
}

/// The escaped form of a whole string body.
pub open spec fn spec_escape(s: Seq<u8>) -> Seq<u8> {
    spec_escape_to(s, s.len() as int)
}

/// Decimal digits of a natural number, most significant first.
pub open spec fn spec_dec_digits(n: nat) -> Seq<u8>
    decreases n,
{
    if n < 10 {
        seq![(0x30 + n) as u8]
    } else {
        spec_dec_digits(n / 10) + seq![(0x30 + n % 10) as u8]
    }
}

/// Decimal text of an integer, with a leading minus sign when negative.
pub open spec fn spec_int_bytes(i: int) -> Seq<u8> {
    if i < 0 {
        seq![0x2du8] + spec_dec_digits((-i) as nat)
    } else {
        spec_dec_digits(i as nat)
    }
}

/// Compact serialization of a JSON value: no whitespace, members in order.
pub open spec fn spec_ser(m: JsonModel) -> Seq<u8>
    decreases m, 0int, 0int,
{
    match m {
        JsonModel::Null => seq![0x6eu8, 0x75u8, 0x6cu8, 0x6cu8],
        JsonModel::Bool(b) => if b {
            seq![0x74u8, 0x72u8, 0x75u8, 0x65u8]
        } else {
            seq![0x66u8, 0x61u8, 0x6cu8, 0x73u8, 0x65u8]
        },
        JsonModel::Int(i) => spec_int_bytes(i),
        JsonModel::Num(s) => s,
        JsonModel::Str(s) => seq![0x22u8] + spec_escape(s) + seq![0x22u8],
        JsonModel::Arr(elems) => seq![0x5bu8] + spec_ser_items(elems, elems.len() as int)
            + seq![0x5du8],
        JsonModel::Obj(pairs) => seq![0x7bu8] + spec_ser_pairs(pairs, pairs.len() as int)
            + seq![0x7du8],
    }
}

/// The serialized, comma-separated first `k` elements of an array body.
pub open spec fn spec_ser_items(elems: Seq<JsonModel>, k: int) -> Seq<u8>
    decreases elems, 1int, k,
{
    if k <= 0 || k > elems.len() {
        Seq::empty()
    } else if k == 1 {
        spec_ser(elems[0])
    } else {
        spec_ser_items(elems, k - 1) + seq![0x2cu8] + spec_ser(elems[k - 1])
    }
}

/// One serialized object member: quoted key, colon, value.
pub open spec fn spec_ser_pair(p: (Seq<u8>, JsonModel)) -> Seq<u8>
    decreases p, 1int, 0int,
{
    seq![0x22u8] + spec_escape(p.0) + seq![0x22u8, 0x3au8] + spec_ser(p.1)
}

/// The serialized, comma-separated first `k` members of an object body.
pub open spec fn spec_ser_pairs(pairs: Seq<(Seq<u8>, JsonModel)>, k: int) -> Seq<u8>
    decreases pairs, 2int, k,
{
    if k <= 0 || k > pairs.len() {
        Seq::empty()
    } else if k == 1 {
        spec_ser_pair(pairs[0])
    } else {
        spec_ser_pairs(pairs, k - 1) + seq![0x2cu8] + spec_ser_pair(pairs[k - 1])
    }
}

/// Appends the decimal digits of `n` to `out`.
fn write_u64(out: &mut Vec<u8>, n: u64)
    ensures
        final(out)@ == old(out)@ + spec_dec_digits(n as nat),
    decreases n,
{
    if n >= 10 {
        write_u64(out, n / 10);
    }
    out.push((0x30 + (n % 10) as u8) as u8);
    assert(out@ =~= old(out)@ + spec_dec_digits(n as nat));
}

/// Appends the decimal text of `i`, with a minus sign when negative.
fn write_i64(out: &mut Vec<u8>, i: i64)
    ensures
        final(out)@ == old(out)@ + spec_int_bytes(i as int),
{
    if i < 0 {
        out.push(0x2d);
        let m: u64 = (-(i as i128)) as u64;
        assert(m as nat == (-(i as int)) as nat);
        write_u64(out, m);
        assert(out@ =~= old(out)@ + spec_int_bytes(i as int));
    } else {
        write_u64(out, i as u64);
    }
}

/// Appends the escaped form of the string body `s`.
fn write_escaped(out: &mut Vec<u8>, s: &Vec<u8>)
    ensures
        final(out)@ == old(out)@ + spec_escape(s@),
{
    let n = s.len();
    for k in 0..n
        invariant
            n == s@.len(),
            out@ == old(out)@ + spec_escape_to(s@, k as int),
    {
        let b = s[k];
        if b == 0x22 {
            out.push(0x5c);
            out.push(0x22);
        } else if b == 0x5c {
            out.push(0x5c);
            out.push(0x5c);
        } else if b == 0x08 {
            out.push(0x5c);
            out.push(0x62);
        } else if b == 0x09 {
            out.push(0x5c);
            out.push(0x74);
        } else if b == 0x0a {
            out.push(0x5c);
            out.push(0x6e);
        } else if b == 0x0c {
            out.push(0x5c);
            out.push(0x66);
        } else if b == 0x0d {
            out.push(0x5c);
            out.push(0x72);
        } else if b < 0x20 {
            out.push(0x5c);
            out.push(0x75);
            out.push(0x30);
            out.push(0x30);
            let hi = b / 16;
            let lo = b % 16;
            out.push(if hi < 10 { 0x30 + hi } else { 0x57 + hi });
            out.push(if lo < 10 { 0x30 + lo } else { 0x57 + lo });
        } else {
            out.push(b);
        }
        assert(out@ =~= old(out)@ + spec_escape_to(s@, k + 1));
    }
}

/// Appends the compact serialization of `j` to `out`.
pub fn write_json(out: &mut Vec<u8>, j: &Json)
    ensures
        final(out)@ == old(out)@ + spec_ser(json_model(*j)),
    decreases *j, 0int, 0int,
{
    match j {
        Json::Null => {
            out.push(0x6e);
            out.push(0x75);
            out.push(0x6c);
            out.push(0x6c);
            assert(out@ =~= old(out)@ + spec_ser(json_model(*j)));
        },
        Json::Bool(b) => {
            if *b {
                out.push(0x74);
                out.push(0x72);
                out.push(0x75);
                out.push(0x65);
            } else {
                out.push(0x66);
                out.push(0x61);
                out.push(0x6c);
                out.push(0x73);
                out.push(0x65);
            }
            assert(out@ =~= old(out)@ + spec_ser(json_model(*j)));
        },
        Json::Int(i) => {
            write_i64(out, *i);
        },
        Json::Num(s) => {
            let m = s.len();
            for k in 0..m
                invariant
                    m == s@.len(),
                    out@ == old(out)@ + s@.subrange(0, k as int),
            {
                out.push(s[k]);
                assert(out@ =~= old(out)@ + s@.subrange(0, k + 1));
            }
            assert(out@ =~= old(out)@ + spec_ser(json_model(*j)));
        },
        Json::Str(s) => {
            out.push(0x22);
            write_escaped(out, s);
            out.push(0x22);
            assert(out@ =~= old(out)@ + spec_ser(json_model(*j)));
        },
        Json::Arr(elems) => {
            let ghost es = json_model(*j)->Arr_0;
            out.push(0x5b);
            let n = elems.len();
            for k in 0..n
                invariant
                    *j is Arr,
                    (*j)->Arr_0 == *elems,
                    n == elems@.len(),
                    es.len() == elems@.len(),
                    forall|i: int| 0 <= i < es.len() ==> es[i] == json_model(elems@[i]),
                    out@ == old(out)@ + seq![0x5bu8] + spec_ser_items(es, k as int),
                decreases n - k,
            {
                if k > 0 {
                    out.push(0x2c);
                }
                proof {
                    assert(decreases_to!(*j => (*j)->Arr_0));
                    assert(decreases_to!((*j)->Arr_0 => (*j)->Arr_0@));
                    assert(decreases_to!((*j)->Arr_0@ => (*j)->Arr_0@[k as int]));
                    assert((*j)->Arr_0@[k as int] == elems@[k as int]);
                    assert(decreases_to!(*j => elems@[k as int]));
                }
                write_json(out, &elems[k]);
                assert(out@ =~= old(out)@ + seq![0x5bu8] + spec_ser_items(es, k + 1));
            }
            out.push(0x5d);
            assert(out@ =~= old(out)@ + spec_ser(json_model(*j)));
        },
        Json::Obj(pairs) => {
            let ghost ps = json_model(*j)->Obj_0;
            out.push(0x7b);
            let n = pairs.len();
            for k in 0..n
                invariant
                    *j is Obj,
                    (*j)->Obj_0 == *pairs,
                    n == pairs@.len(),
                    ps.len() == pairs@.len(),
                    forall|i: int| 0 <= i < ps.len() ==> #[trigger] ps[i].0 == pairs@[i].0@,
                    forall|i: int| 0 <= i < ps.len() ==> #[trigger] ps[i].1 == json_model(
                        pairs@[i].1,
                    ),
                    out@ == old(out)@ + seq![0x7bu8] + spec_ser_pairs(ps, k as int),
                decreases n - k,
            {
                if k > 0 {
                    out.push(0x2c);
                }
                out.push(0x22);
                write_escaped(out, &pairs[k].0);
                out.push(0x22);
                out.push(0x3a);
                proof {
                    assert(decreases_to!(*j => (*j)->Obj_0));
                    assert(decreases_to!((*j)->Obj_0 => (*j)->Obj_0@));
                    assert(decreases_to!((*j)->Obj_0@ => (*j)->Obj_0@[k as int]));
                    assert(decreases_to!((*j)->Obj_0@[k as int] => (*j)->Obj_0@[k as int].1));
                    assert((*j)->Obj_0@[k as int].1 == pairs@[k as int].1);
                    assert(decreases_to!(*j => pairs@[k as int].1));
                }
                write_json(out, &pairs[k].1);
                proof {
                    assert(ps[k as int].0 == pairs@[k as int].0@);
                    assert(ps[k as int].1 == json_model(pairs@[k as int].1));
                    assert(spec_ser_pair(ps[k as int]) == seq![0x22u8] + spec_escape(
                        pairs@[k as int].0@,
                    ) + seq![0x22u8, 0x3au8] + spec_ser(json_model(pairs@[k as int].1)));
                    if k == 0 {
                        assert(spec_ser_pairs(ps, 1) == spec_ser_pair(ps[0]));
                    } else {
                        assert(spec_ser_pairs(ps, k + 1) == spec_ser_pairs(ps, k as int) + seq![
                            0x2cu8,
                        ] + spec_ser_pair(ps[k as int]));
                    }
                }
                assert(out@ =~= old(out)@ + seq![0x7bu8] + spec_ser_pairs(ps, k + 1));
            }
            out.push(0x7d);
            assert(out@ =~= old(out)@ + spec_ser(json_model(*j)));
        },
    }
}

/// The decimal text of an integer as a fresh byte vector.
pub fn int_bytes(i: i64) -> (r: Vec<u8>)
    ensures
        r@ == spec_int_bytes(i as int),
{
    let mut out: Vec<u8> = Vec::new();
    write_i64(&mut out, i);
    assert(out@ =~= spec_int_bytes(i as int));
    out
}

/// The compact serialization of `j` as a fresh byte vector.
pub fn to_bytes(j: &Json) -> (r: Vec<u8>)
    ensures
        r@ == spec_ser(json_model(*j)),
{
    let mut out: Vec<u8> = Vec::new();
    write_json(&mut out, j);
    assert(out@ =~= spec_ser(json_model(*j)));
    out
}

// ---------------------------------------------------------------------------
// Parsing
// ---------------------------------------------------------------------------

/// JSON insignificant whitespace.
pub open spec fn spec_is_ws(b: u8) -> bool {
    b == 0x20 || b == 0x09 || b == 0x0a || b == 0x0d
}

/// ASCII decimal digit.
pub open spec fn spec_is_digit(b: u8) -> bool {
    0x30 <= b <= 0x39
}

/// The position of the first byte at or after `i` that is not whitespace.
pub open spec fn spec_ws(s: Seq<u8>, i: int) -> int
    decreases s.len() - i,
{
    if 0 <= i < s.len() && spec_is_ws(s[i]) {
        spec_ws(s, i + 1)
    } else {
        i
    }
}

/// The position of the first byte at or after `i` that is not a digit.
pub open spec fn spec_digits_end(s: Seq<u8>, i: int) -> int
    decreases s.len() - i,
{
    if 0 <= i < s.len() && spec_is_digit(s[i]) {
        spec_digits_end(s, i + 1)
    } else {
        i
    }
}

/// The value of the decimal digit run `s[lo..hi]`.
pub open spec fn spec_dec_val(s: Seq<u8>, lo: int, hi: int) -> int
    decreases hi - lo,
{
    if hi <= lo {
        0
    } else {
        spec_dec_val(s, lo, hi - 1) * 10 + (s[hi - 1] - 0x30)
    }
}

/// Powers of ten.
pub open spec fn pow10(n: nat) -> int
    decreases n,
{
    if n == 0 {
        1
    } else {
        10 * pow10((n - 1) as nat)
    }
}

proof fn lemma_pow10_mono(m: nat, n: nat)
    requires
        m <= n,
    ensures
        pow10(m) <= pow10(n),
        pow10(m) >= 1,
    decreases n,
{
    if n > 0 {
        if m == n {
            lemma_pow10_mono((n - 1) as nat, (n - 1) as nat);
        } else {
            lemma_pow10_mono(m, (n - 1) as nat);
        }
    }
}

proof fn lemma_dec_val_bounds(s: Seq<u8>, lo: int, hi: int)
    requires
        lo <= hi,
        forall|k: int| lo <= k < hi ==> spec_is_digit(#[trigger] s[k]),
    ensures
        0 <= spec_dec_val(s, lo, hi) < pow10((hi - lo) as nat),
    decreases hi - lo,
{
    if hi > lo {
        lemma_dec_val_bounds(s, lo, hi - 1);
    }
}

/// ASCII hexadecimal digit.
pub open spec fn spec_is_hex(b: u8) -> bool {
    spec_is_digit(b) || (0x41 <= b <= 0x46) || (0x61 <= b <= 0x66)
}

/// The value of one hexadecimal digit.
pub open spec fn spec_hex_val(b: u8) -> int {
    if spec_is_digit(b) {
        b - 0x30
    } else if 0x41 <= b <= 0x46 {
        b - 0x37
    } else {
        b - 0x57
    }
}

/// Whether four hexadecimal digits stand at `i`.
pub open spec fn spec_hex4_ok(s: Seq<u8>, i: int) -> bool {
    0 <= i && i + 4 <= s.len() && spec_is_hex(s[i]) && spec_is_hex(s[i + 1]) && spec_is_hex(
        s[i + 2],
    ) && spec_is_hex(s[i + 3])
}

/// The value of the four hexadecimal digits at `i`.
pub open spec fn spec_hex4(s: Seq<u8>, i: int) -> int {
    spec_hex_val(s[i]) * 0x1000 + spec_hex_val(s[i + 1]) * 0x100 + spec_hex_val(s[i + 2]) * 0x10
        + spec_hex_val(s[i + 3])
}

/// The UTF-8 encoding of a code point.
pub open spec fn spec_utf8(cp: int) -> Seq<u8> {
    if cp < 0x80 {
        seq![cp as u8]
    } else if cp < 0x800 {
        seq![(0xc0 + cp / 0x40) as u8, (0x80 + cp % 0x40) as u8]
    } else if cp < 0x10000 {
        seq![
            (0xe0 + cp / 0x1000) as u8,
            (0x80 + (cp / 0x40) % 0x40) as u8,
            (0x80 + cp % 0x40) as u8,
        ]
    } else {
        seq![
            (0xf0 + cp / 0x40000) as u8,
            (0x80 + (cp / 0x1000) % 0x40) as u8,
            (0x80 + (cp / 0x40) % 0x40) as u8,
            (0x80 + cp % 0x40) as u8,
        ]
    }
}

/// Parses a string body starting right after the opening quote, appending
/// the unescaped bytes to `acc`; yields the body and the position right
/// after the closing quote. Escapes follow the JSON grammar, including
/// surrogate pairs in `\u` form.
pub open spec fn spec_parse_str(s: Seq<u8>, i: int, acc: Seq<u8>) -> Option<(Seq<u8>, int)>
    decreases s.len() - i,
{
    if i < 0 || i >= s.len() {
        None
    } else if s[i] == 0x22 {
        Some((acc, i + 1))
    } else if s[i] == 0x5c {
        if i + 2 > s.len() {
            None
        } else {
            let e = s[i + 1];
            if e == 0x22 || e == 0x5c || e == 0x2f {
                spec_parse_str(s, i + 2, acc + seq![e])
            } else if e == 0x62 {
                spec_parse_str(s, i + 2, acc + seq![0x08u8])
            } else if e == 0x66 {
                spec_parse_str(s, i + 2, acc + seq![0x0cu8])
            } else if e == 0x6e {
                spec_parse_str(s, i + 2, acc + seq![0x0au8])
            } else if e == 0x72 {
                spec_parse_str(s, i + 2, acc + seq![0x0du8])
            } else if e == 0x74 {
                spec_parse_str(s, i + 2, acc + seq![0x09u8])
            } else if e == 0x75 {
                if spec_hex4_ok(s, i + 2) {
                    let cp = spec_hex4(s, i + 2);
                    if 0xd800 <= cp < 0xdc00 {
                        if i + 12 <= s.len() && s[i + 6] == 0x5c && s[i + 7] == 0x75
                            && spec_hex4_ok(s, i + 8) {
                            let lo = spec_hex4(s, i + 8);
                            if 0xdc00 <= lo < 0xe000 {
                                spec_parse_str(
                                    s,
                                    i + 12,
                                    acc + spec_utf8(0x10000 + (cp - 0xd800) * 0x400 + (lo - 0xdc00)),
                                )
                            } else {
                                None
                            }
                        } else {
                            None
                        }
                    } else if 0xdc00 <= cp < 0xe000 {
                        None
                    } else {
                        spec_parse_str(s, i + 6, acc + spec_utf8(cp))
                    }
                } else {
                    None
                }
            } else {
                None
            }
        }
    } else if s[i] < 0x20 {
        None
    } else {
        spec_parse_str(s, i + 1, acc + seq![s[i]])
    }
}

/// The end of an optional fraction part at `i`; `None` when a bare dot
/// stands without digits.
pub open spec fn spec_frac_end(s: Seq<u8>, i: int) -> Option<int> {
    if 0 <= i < s.len() && s[i] == 0x2e {
        let fe = spec_digits_end(s, i + 1);
        if fe == i + 1 {
            None
        } else {
            Some(fe)
        }
    } else {
        Some(i)
    }
}

/// The end of an optional exponent part at `i`; `None` when the exponent
/// marker stands without digits.
pub open spec fn spec_exp_end(s: Seq<u8>, i: int) -> Option<int> {
    if 0 <= i < s.len() && (s[i] == 0x65 || s[i] == 0x45) {
        let ds = if i + 1 < s.len() && (s[i + 1] == 0x2b || s[i + 1] == 0x2d) {
            i + 2
        } else {
            i + 1
        };
        let ee = spec_digits_end(s, ds);
        if ee == ds {
            None
        } else {
            Some(ee)
        }
    } else {
        Some(i)
    }
}

/// Parses a number token at `i`. A plain integer of at most 18 digits
/// becomes `Int`; every other well-formed token is kept verbatim as `Num`.
pub open spec fn spec_parse_num(s: Seq<u8>, i: int) -> Option<(JsonModel, int)> {
    if i < 0 || i >= s.len() {
        None
    } else {
        let neg = s[i] == 0x2d;
        let d0 = if neg {
            i + 1
        } else {
            i
        };
        if d0 >= s.len() || !spec_is_digit(s[d0]) {
            None
        } else {
            let ie = if s[d0] == 0x30 {
                d0 + 1
            } else {
                spec_digits_end(s, d0)
            };
            match spec_frac_end(s, ie) {
                None => None,
                Some(fe) => match spec_exp_end(s, fe) {
                    None => None,
                    Some(ee) => if fe == ie && ee == fe && ie - d0 <= 18 {
                        let v = spec_dec_val(s, d0, ie);
                        Some(
                            (
                                JsonModel::Int(
                                    if neg {
                                        -v
                                    } else {
                                        v
                                    },
                                ),
                                ee,
                            ),
                        )
                    } else {
                        Some((JsonModel::Num(s.subrange(i, ee)), ee))
                    },
                },
            }
        }
    }
}

/// Parses a value at `i`, skipping leading whitespace. `f` is recursion
/// fuel: every nested call burns one unit, and the top-level entry hands
/// in more than any input of this length can use, so the fuel never runs
/// out on a real parse.
pub open spec fn spec_parse_value(s: Seq<u8>, i: int, f: nat) -> Option<(JsonModel, int)>
    decreases f,
{
    if f == 0 {
        None
    } else if i < 0 || i >= s.len() {
        None
    } else if spec_is_ws(s[i]) {
        spec_parse_value(s, i + 1, (f - 1) as nat)
    } else {
        let b = s[i];
        if b == 0x6e {
            if i + 4 <= s.len() && s[i + 1] == 0x75 && s[i + 2] == 0x6c && s[i + 3] == 0x6c {
                Some((JsonModel::Null, i + 4))
            } else {
                None
            }
        } else if b == 0x74 {
            if i + 4 <= s.len() && s[i + 1] == 0x72 && s[i + 2] == 0x75 && s[i + 3] == 0x65 {
                Some((JsonModel::Bool(true), i + 4))
            } else {
                None
            }
        } else if b == 0x66 {
            if i + 5 <= s.len() && s[i + 1] == 0x61 && s[i + 2] == 0x6c && s[i + 3] == 0x73 && s[i
                + 4] == 0x65 {
                Some((JsonModel::Bool(false), i + 5))
            } else {
                None
            }
        } else if b == 0x22 {
            match spec_parse_str(s, i + 1, Seq::empty()) {
                None => None,
                Some((cs, j)) => Some((JsonModel::Str(cs), j)),
            }
        } else if b == 0x5b {
            spec_parse_arr(s, i + 1, (f - 1) as nat)
        } else if b == 0x7b {
            spec_parse_obj(s, i + 1, (f - 1) as nat)
        } else if b == 0x2d || spec_is_digit(b) {
            spec_parse_num(s, i)
        } else {
            None
        }
    }
}

/// Inside `[`, before the first element: either the empty array closes,
/// or the element list begins.
pub open spec fn spec_parse_arr(s: Seq<u8>, i: int, f: nat) -> Option<(JsonModel, int)>
    decreases f,
{
    if f == 0 {
        None
    } else if i < 0 || i >= s.len() {
        None
    } else if spec_is_ws(s[i]) {
        spec_parse_arr(s, i + 1, (f - 1) as nat)
    } else if s[i] == 0x5d {
        Some((JsonModel::Arr(Seq::empty()), i + 1))
    } else {
        spec_parse_elems(s, i, Seq::empty(), (f - 1) as nat)
    }
}

/// One array element, followed by a separator or the closing bracket.
pub open spec fn spec_parse_elems(s: Seq<u8>, i: int, acc: Seq<JsonModel>, f: nat) -> Option<
    (JsonModel, int),
>
    decreases f,
{
    if f == 0 {
        None
    } else {
        match spec_parse_value(s, i, (f - 1) as nat) {
            None => None,
            Some((m, j)) => spec_parse_arrsep(s, j, acc.push(m), (f - 1) as nat),
        }
    }
}

/// After an array element: a comma continues the list, a bracket ends it.
pub open spec fn spec_parse_arrsep(s: Seq<u8>, i: int, acc: Seq<JsonModel>, f: nat) -> Option<
    (JsonModel, int),
>
    decreases f,
{
    if f == 0 {
        None
    } else if i < 0 || i >= s.len() {
        None
    } else if spec_is_ws(s[i]) {
        spec_parse_arrsep(s, i + 1, acc, (f - 1) as nat)
    } else if s[i] == 0x2c {
        spec_parse_elems(s, i + 1, acc, (f - 1) as nat)
    } else if s[i] == 0x5d {
        Some((JsonModel::Arr(acc), i + 1))
    } else {
        None
    }
}

/// Inside `{`, before the first member: either the empty object closes,
/// or the member list begins.
pub open spec fn spec_parse_obj(s: Seq<u8>, i: int, f: nat) -> Option<(JsonModel, int)>
    decreases f,
{
    if f == 0 {
        None
    } else if i < 0 || i >= s.len() {
        None
    } else if spec_is_ws(s[i]) {
        spec_parse_obj(s, i + 1, (f - 1) as nat)
    } else if s[i] == 0x7d {
        Some((JsonModel::Obj(Seq::empty()), i + 1))
    } else {
        spec_parse_pairs(s, i, Seq::empty(), (f - 1) as nat)
    }
}

/// One object member: a quoted key, a colon, a value.
pub open spec fn spec_parse_pairs(
    s: Seq<u8>,
    i: int,
    acc: Seq<(Seq<u8>, JsonModel)>,
    f: nat,
) -> Option<(JsonModel, int)>
    decreases f,
{
    if f == 0 {
        None
    } else if i < 0 || i >= s.len() {
        None
    } else if spec_is_ws(s[i]) {
        spec_parse_pairs(s, i + 1, acc, (f - 1) as nat)
    } else if s[i] != 0x22 {
        None
    } else {
        match spec_parse_str(s, i + 1, Seq::empty()) {
            None => None,
            Some((k, j)) => spec_parse_colon(s, j, acc, k, (f - 1) as nat),
        }
    }
}

/// Between a member's key and its value.
pub open spec fn spec_parse_colon(
    s: Seq<u8>,
    i: int,
    acc: Seq<(Seq<u8>, JsonModel)>,
    key: Seq<u8>,
    f: nat,
) -> Option<(JsonModel, int)>
    decreases f,
{
    if f == 0 {
        None
    } else if i < 0 || i >= s.len() {
        None
    } else if spec_is_ws(s[i]) {
        spec_parse_colon(s, i + 1, acc, key, (f - 1) as nat)
    } else if s[i] == 0x3a {
        match spec_parse_value(s, i + 1, (f - 1) as nat) {
            None => None,
            Some((m, j)) => spec_parse_objsep(s, j, acc.push((key, m)), (f - 1) as nat),
        }
    } else {
        None
    }
}

/// After an object member: a comma continues the list, a brace ends it.
pub open spec fn spec_parse_objsep(
    s: Seq<u8>,
    i: int,
    acc: Seq<(Seq<u8>, JsonModel)>,
    f: nat,
) -> Option<(JsonModel, int)>
    decreases f,
{
    if f == 0 {
        None
    } else if i < 0 || i >= s.len() {
        None
    } else if spec_is_ws(s[i]) {
        spec_parse_objsep(s, i + 1, acc, (f - 1) as nat)
    } else if s[i] == 0x2c {
        spec_parse_pairs(s, i + 1, acc, (f - 1) as nat)
    } else if s[i] == 0x7d {
        Some((JsonModel::Obj(acc), i + 1))
    } else {
        None
    }
}

/// Fuel that no parse of `s` can exhaust.
pub open spec fn spec_parse_fuel(s: Seq<u8>) -> nat {
    (3 * s.len() + 8) as nat
}

/// The parse of a whole byte string: one value, surrounded by optional
/// whitespace, reaching exactly the end of the input.
pub open spec fn spec_json(s: Seq<u8>) -> Option<JsonModel> {
    match spec_parse_value(s, 0, spec_parse_fuel(s)) {
        None => None,
        Some((m, j)) => if spec_ws(s, j) == s.len() {
            Some(m)
        } else {
            None
        },
    }
}

fn digits_end(s: &[u8], i: usize) -> (r: usize)
    requires
        i <= s@.len(),
    ensures
        i <= r <= s@.len(),
        r as int == spec_digits_end(s@, i as int),
        forall|t: int| i <= t < r ==> spec_is_digit(#[trigger] s@[t]),
        r as int == s@.len() || !spec_is_digit(s@[r as int]),
{
    let mut k = i;
    while k < s.len() && 0x30 <= s[k] && s[k] <= 0x39
        invariant
            i <= k <= s@.len(),
            spec_digits_end(s@, i as int) == spec_digits_end(s@, k as int),
            forall|t: int| i <= t < k ==> spec_is_digit(#[trigger] s@[t]),
        decreases s@.len() - k,
    {
        k = k + 1;
    }
    k
}

fn hex_val(b: u8) -> (r: Option<u8>)
    ensures
        match r {
            Some(v) => spec_is_hex(b) && v as int == spec_hex_val(b) && v < 16,
            None => !spec_is_hex(b),
        },
{
    if 0x30 <= b && b <= 0x39 {
        Some(b - 0x30)
    } else if 0x41 <= b && b <= 0x46 {
        Some(b - 0x37)
    } else if 0x61 <= b && b <= 0x66 {
        Some(b - 0x57)
    } else {
        None
    }
}

fn hex4(s: &[u8], i: usize) -> (r: Option<u32>)
    requires
        i <= s@.len(),
    ensures
        match r {
            Some(v) => spec_hex4_ok(s@, i as int) && v as int == spec_hex4(s@, i as int) && v
                < 0x10000,
            None => !spec_hex4_ok(s@, i as int),
        },
{
    if s.len() - i < 4 {
        return None;
    }
    let h0 = match hex_val(s[i]) {
        Some(v) => v,
        None => {
            return None;
        },
    };
    let h1 = match hex_val(s[i + 1]) {
        Some(v) => v,
        None => {
            return None;
        },
    };
    let h2 = match hex_val(s[i + 2]) {
        Some(v) => v,
        None => {
            return None;
        },
    };
    let h3 = match hex_val(s[i + 3]) {
        Some(v) => v,
        None => {
            return None;
        },
    };
    Some((h0 as u32) * 0x1000 + (h1 as u32) * 0x100 + (h2 as u32) * 0x10 + (h3 as u32))
}

fn push_utf8(out: &mut Vec<u8>, cp: u32)
    requires
        cp < 0x110000,
    ensures
        final(out)@ == old(out)@ + spec_utf8(cp as int),
{
    if cp < 0x80 {
        out.push(cp as u8);
    } else if cp < 0x800 {
        out.push((0xc0 + cp / 0x40) as u8);
        out.push((0x80 + cp % 0x40) as u8);
    } else if cp < 0x10000 {
        out.push((0xe0 + cp / 0x1000) as u8);
        out.push((0x80 + (cp / 0x40) % 0x40) as u8);
        out.push((0x80 + cp % 0x40) as u8);
    } else {
        out.push((0xf0 + cp / 0x40000) as u8);
        out.push((0x80 + (cp / 0x1000) % 0x40) as u8);
        out.push((0x80 + (cp / 0x40) % 0x40) as u8);
        out.push((0x80 + cp % 0x40) as u8);
    }
    assert(out@ =~= old(out)@ + spec_utf8(cp as int));
}

fn parse_string(s: &[u8], i: usize, out: &mut Vec<u8>) -> (r: Option<usize>)
    requires
        i <= s@.len(),
    ensures
        match r {
            Some(j) => i < j <= s@.len() && spec_parse_str(s@, i as int, old(out)@) == Some(
                (final(out)@, j as int),
            ),
            None => spec_parse_str(s@, i as int, old(out)@) is None,
        },
    decreases s@.len() - i,
{
    if i >= s.len() {
        return None;
    }
    let b = s[i];
    if b == 0x22 {
        return Some(i + 1);
    }
    if b == 0x5c {
        if s.len() - i < 2 {
            return None;
        }
        let e = s[i + 1];
        if e == 0x22 || e == 0x5c || e == 0x2f {
            out.push(e);
            assert(out@ =~= old(out)@ + seq![e]);
            return parse_string(s, i + 2, out);
        }
        if e == 0x62 {
            out.push(0x08);
            assert(out@ =~= old(out)@ + seq![0x08u8]);
            return parse_string(s, i + 2, out);
        }
        if e == 0x66 {
            out.push(0x0c);
            assert(out@ =~= old(out)@ + seq![0x0cu8]);
            return parse_string(s, i + 2, out);
        }
        if e == 0x6e {
            out.push(0x0a);
            assert(out@ =~= old(out)@ + seq![0x0au8]);
            return parse_string(s, i + 2, out);
        }
        if e == 0x72 {
            out.push(0x0d);
            assert(out@ =~= old(out)@ + seq![0x0du8]);
            return parse_string(s, i + 2, out);
        }
        if e == 0x74 {
            out.push(0x09);
            assert(out@ =~= old(out)@ + seq![0x09u8]);
            return parse_string(s, i + 2, out);
        }
        if e == 0x75 {
            let cp = match hex4(s, i + 2) {
                Some(v) => v,
                None => {
                    return None;
                },
            };
            if 0xd800 <= cp && cp < 0xdc00 {
                if s.len() - i < 12 {
                    return None;
                }
                if !(s[i + 6] == 0x5c && s[i + 7] == 0x75) {
                    return None;
                }
                let lo = match hex4(s, i + 8) {
                    Some(v) => v,
                    None => {
                        return None;
                    },
                };
                if !(0xdc00 <= lo && lo < 0xe000) {
                    return None;
                }
                let combined: u32 = 0x10000 + (cp - 0xd800) * 0x400 + (lo - 0xdc00);
                push_utf8(out, combined);
                return parse_string(s, i + 12, out);
            }
            if 0xdc00 <= cp && cp < 0xe000 {
                return None;
            }
            push_utf8(out, cp);
            return parse_string(s, i + 6, out);
        }
        return None;
    }
    if b < 0x20 {
        return None;
    }
    out.push(b);
    assert(out@ =~= old(out)@ + seq![b]);
    parse_string(s, i + 1, out)
}

#[verifier::rlimit(50)]
fn parse_number(s: &[u8], i: usize) -> (r: Option<(Json, usize)>)
    requires
        i <= s@.len(),
    ensures
        match r {
            Some((v, j)) => i < j <= s@.len() && spec_parse_num(s@, i as int) == Some(
                (json_model(v), j as int),
            ),
            None => spec_parse_num(s@, i as int) is None,
        },
{
    if i >= s.len() {
        return None;
    }
    let neg = s[i] == 0x2d;
    let d0 = if neg {
        i + 1
    } else {
        i
    };
    if d0 >= s.len() {
        return None;
    }
    let b0 = s[d0];
    if !(0x30 <= b0 && b0 <= 0x39) {
        return None;
    }
    let ie: usize = if b0 == 0x30 {
        d0 + 1
    } else {
        digits_end(s, d0)
    };
    assert(ie > d0);
    assert(forall|t: int| d0 <= t < ie ==> spec_is_digit(#[trigger] s@[t]));
    let fe: usize = if ie < s.len() && s[ie] == 0x2e {
        let f2 = digits_end(s, ie + 1);
        if f2 == ie + 1 {
            return None;
        }
        f2
    } else {
        ie
    };
    let ee: usize = if fe < s.len() && (s[fe] == 0x65 || s[fe] == 0x45) {
        let ds: usize = if fe + 1 < s.len() && (s[fe + 1] == 0x2b || s[fe + 1] == 0x2d) {
            fe + 2
        } else {
            fe + 1
        };
        let e2 = digits_end(s, ds);
        if e2 == ds {
            return None;
        }
        e2
    } else {
        fe
    };
    if fe == ie && ee == fe && ie - d0 <= 18 {
        let mut acc: u64 = 0;
        let mut k = d0;
        while k < ie
            invariant
                d0 <= k <= ie <= s@.len(),
                ie - d0 <= 18,
                forall|t: int| d0 <= t < ie ==> spec_is_digit(#[trigger] s@[t]),
                acc as int == spec_dec_val(s@, d0 as int, k as int),
            decreases ie - k,
        {
            proof {
                lemma_dec_val_bounds(s@, d0 as int, k as int);
                lemma_pow10_mono((k - d0) as nat, 17);
                reveal_with_fuel(pow10, 19);
                assert(pow10(17) == 100000000000000000int);
            }
            acc = acc * 10 + ((s[k] - 0x30) as u64);
            k = k + 1;
        }
        proof {
            lemma_dec_val_bounds(s@, d0 as int, ie as int);
            lemma_pow10_mono(18, 18);
            reveal_with_fuel(pow10, 19);
            assert(pow10(18) == 1000000000000000000int);
        }
        let v: i64 = if neg {
            -(acc as i64)
        } else {
            acc as i64
        };
        Some((Json::Int(v), ee))
    } else {
        let mut tok: Vec<u8> = Vec::new();
        assert(tok@ =~= s@.subrange(i as int, i as int));
        let mut k = i;
        while k < ee
            invariant
                i <= k <= ee <= s@.len(),
                tok@ == s@.subrange(i as int, k as int),
            decreases ee - k,
        {
            tok.push(s[k]);
            assert(tok@ =~= s@.subrange(i as int, k + 1));
            k = k + 1;
        }
        Some((Json::Num(tok), ee))
    }
}

fn parse_value(s: &[u8], i: usize, Ghost(f): Ghost<nat>) -> (r: Option<(Json, usize)>)
    requires
        i <= s@.len(),
        f >= 3 * (s@.len() - i) + 1,
    ensures
        match r {
            Some((v, j)) => i < j <= s@.len() && spec_parse_value(s@, i as int, f) == Some(
                (json_model(v), j as int),
            ),
            None => spec_parse_value(s@, i as int, f) is None,
        },
    decreases f,
{
    if i >= s.len() {
        return None;
    }
    let b = s[i];
    if b == 0x20 || b == 0x09 || b == 0x0a || b == 0x0d {
        return parse_value(s, i + 1, Ghost((f - 1) as nat));
    }
    if b == 0x6e {
        if s.len() - i >= 4 && s[i + 1] == 0x75 && s[i + 2] == 0x6c && s[i + 3] == 0x6c {
            return Some((Json::Null, i + 4));
        }
        return None;
    }
    if b == 0x74 {
        if s.len() - i >= 4 && s[i + 1] == 0x72 && s[i + 2] == 0x75 && s[i + 3] == 0x65 {
            return Some((Json::Bool(true), i + 4));
        }
        return None;
    }
    if b == 0x66 {
        if s.len() - i >= 5 && s[i + 1] == 0x61 && s[i + 2] == 0x6c && s[i + 3] == 0x73 && s[i + 4]
            == 0x65 {
            return Some((Json::Bool(false), i + 5));
        }
        return None;
    }
    if b == 0x22 {
        let mut buf: Vec<u8> = Vec::new();
        assert(buf@ =~= Seq::<u8>::empty());
        match parse_string(s, i + 1, &mut buf) {
            Some(j) => {
                return Some((Json::Str(buf), j));
            },
            None => {
                return None;
            },
        }
    }
    if b == 0x5b {
        return parse_arr(s, i + 1, Ghost((f - 1) as nat));
    }
    if b == 0x7b {
        return parse_obj(s, i + 1, Ghost((f - 1) as nat));
    }
    if b == 0x2d || (0x30 <= b && b <= 0x39) {
        return parse_number(s, i);
    }
    None
}

fn parse_arr(s: &[u8], i: usize, Ghost(f): Ghost<nat>) -> (r: Option<(Json, usize)>)
    requires
        i <= s@.len(),
        f >= 3 * (s@.len() - i) + 3,
    ensures
        match r {
            Some((v, j)) => i < j <= s@.len() && spec_parse_arr(s@, i as int, f) == Some(
                (json_model(v), j as int),
            ),
            None => spec_parse_arr(s@, i as int, f) is None,
        },
    decreases f,
{
    if i >= s.len() {
        return None;
    }
    let b = s[i];
    if b == 0x20 || b == 0x09 || b == 0x0a || b == 0x0d {
        return parse_arr(s, i + 1, Ghost((f - 1) as nat));
    }
    if b == 0x5d {
        let empty: Vec<Json> = Vec::new();
        assert(json_models(empty@) =~= Seq::<JsonModel>::empty());
        return Some((Json::Arr(empty), i + 1));
    }
    let acc: Vec<Json> = Vec::new();
    assert(json_models(acc@) =~= Seq::<JsonModel>::empty());
    parse_elems(s, i, acc, Ghost((f - 1) as nat))
}

fn parse_elems(s: &[u8], i: usize, acc: Vec<Json>, Ghost(f): Ghost<nat>) -> (r: Option<
    (Json, usize),
>)
    requires
        i <= s@.len(),
        f >= 3 * (s@.len() - i) + 2,
    ensures
        match r {
            Some((v, j)) => i < j <= s@.len() && spec_parse_elems(
                s@,
                i as int,
                json_models(acc@),
                f,
            ) == Some((json_model(v), j as int)),
            None => spec_parse_elems(s@, i as int, json_models(acc@), f) is None,
        },
    decreases f,
{
    let ghost accm = json_models(acc@);
    match parse_value(s, i, Ghost((f - 1) as nat)) {
        None => None,
        Some((v, j)) => {
            let mut acc2 = acc;
            acc2.push(v);
            proof {
                assert(json_models(acc2@) =~= accm.push(json_model(v)));
            }
            parse_arrsep(s, j, acc2, Ghost((f - 1) as nat))
        },
    }
}

fn parse_arrsep(s: &[u8], i: usize, acc: Vec<Json>, Ghost(f): Ghost<nat>) -> (r: Option<
    (Json, usize),
>)
    requires
        i <= s@.len(),
        f >= 3 * (s@.len() - i) + 4,
    ensures
        match r {
            Some((v, j)) => i < j <= s@.len() && spec_parse_arrsep(
                s@,
                i as int,
                json_models(acc@),
                f,
            ) == Some((json_model(v), j as int)),
            None => spec_parse_arrsep(s@, i as int, json_models(acc@), f) is None,
        },
    decreases f,
{
    if i >= s.len() {
        return None;
    }
    let b = s[i];
    if b == 0x20 || b == 0x09 || b == 0x0a || b == 0x0d {
        return parse_arrsep(s, i + 1, acc, Ghost((f - 1) as nat));
    }
    if b == 0x2c {
        return parse_elems(s, i + 1, acc, Ghost((f - 1) as nat));
    }
    if b == 0x5d {
        return Some((Json::Arr(acc), i + 1));
    }
    None
}

fn parse_obj(s: &[u8], i: usize, Ghost(f): Ghost<nat>) -> (r: Option<(Json, usize)>)
    requires
        i <= s@.len(),
        f >= 3 * (s@.len() - i) + 3,
    ensures
        match r {
            Some((v, j)) => i < j <= s@.len() && spec_parse_obj(s@, i as int, f) == Some(
                (json_model(v), j as int),
            ),
            None => spec_parse_obj(s@, i as int, f) is None,
        },
    decreases f,
{
    if i >= s.len() {
        return None;
    }
    let b = s[i];
    if b == 0x20 || b == 0x09 || b == 0x0a || b == 0x0d {
        return parse_obj(s, i + 1, Ghost((f - 1) as nat));
    }
    if b == 0x7d {
        let empty: Vec<(Vec<u8>, Json)> = Vec::new();
        assert(json_pair_models(empty@) =~= Seq::<(Seq<u8>, JsonModel)>::empty());
        return Some((Json::Obj(empty), i + 1));
    }
    let acc: Vec<(Vec<u8>, Json)> = Vec::new();
    assert(json_pair_models(acc@) =~= Seq::<(Seq<u8>, JsonModel)>::empty());
    parse_pairs(s, i, acc, Ghost((f - 1) as nat))
}

fn parse_pairs(s: &[u8], i: usize, acc: Vec<(Vec<u8>, Json)>, Ghost(f): Ghost<nat>) -> (r: Option<
    (Json, usize),
>)
    requires
        i <= s@.len(),
        f >= 3 * (s@.len() - i) + 2,
    ensures
        match r {
            Some((v, j)) => i < j <= s@.len() && spec_parse_pairs(
                s@,
                i as int,
                json_pair_models(acc@),
                f,
            ) == Some((json_model(v), j as int)),
            None => spec_parse_pairs(s@, i as int, json_pair_models(acc@), f) is None,
        },
    decreases f,
{
    if i >= s.len() {
        return None;
    }
    let b = s[i];
    if b == 0x20 || b == 0x09 || b == 0x0a || b == 0x0d {
        return parse_pairs(s, i + 1, acc, Ghost((f - 1) as nat));
    }
    if b != 0x22 {
        return None;
    }
    let mut key: Vec<u8> = Vec::new();
    assert(key@ =~= Seq::<u8>::empty());
    match parse_string(s, i + 1, &mut key) {
        None => None,
        Some(j) => parse_colon(s, j, acc, key, Ghost((f - 1) as nat)),
    }
}

fn parse_colon(
    s: &[u8],
    i: usize,
    acc: Vec<(Vec<u8>, Json)>,
    key: Vec<u8>,
    Ghost(f): Ghost<nat>,
) -> (r: Option<(Json, usize)>)
    requires
        i <= s@.len(),
        f >= 3 * (s@.len() - i) + 4,
    ensures
        match r {
            Some((v, j)) => i < j <= s@.len() && spec_parse_colon(
                s@,
                i as int,
                json_pair_models(acc@),
                key@,
                f,
            ) == Some((json_model(v), j as int)),
            None => spec_parse_colon(s@, i as int, json_pair_models(acc@), key@, f) is None,
        },
    decreases f,
{
    if i >= s.len() {
        return None;
    }
    let b = s[i];
    if b == 0x20 || b == 0x09 || b == 0x0a || b == 0x0d {
        return parse_colon(s, i + 1, acc, key, Ghost((f - 1) as nat));
    }
    if b != 0x3a {
        return None;
    }
    let ghost accm = json_pair_models(acc@);
    match parse_value(s, i + 1, Ghost((f - 1) as nat)) {
        None => None,
        Some((v, j)) => {
            let ghost vm = json_model(v);
            let ghost keym = key@;
            let mut acc2 = acc;
            acc2.push((key, v));
            proof {
                assert(json_pair_models(acc2@) =~= accm.push((keym, vm)));
            }
            parse_objsep(s, j, acc2, Ghost((f - 1) as nat))
        },
    }
}

fn parse_objsep(s: &[u8], i: usize, acc: Vec<(Vec<u8>, Json)>, Ghost(f): Ghost<nat>) -> (r: Option<
    (Json, usize),
>)
    requires
        i <= s@.len(),
        f >= 3 * (s@.len() - i) + 4,
    ensures
        match r {
            Some((v, j)) => i < j <= s@.len() && spec_parse_objsep(
                s@,
                i as int,
                json_pair_models(acc@),
                f,
            ) == Some((json_model(v), j as int)),
            None => spec_parse_objsep(s@, i as int, json_pair_models(acc@), f) is None,
        },
    decreases f,
{
    if i >= s.len() {
        return None;
    }
    let b = s[i];
    if b == 0x20 || b == 0x09 || b == 0x0a || b == 0x0d {
        return parse_objsep(s, i + 1, acc, Ghost((f - 1) as nat));
    }
    if b == 0x2c {
        return parse_pairs(s, i + 1, acc, Ghost((f - 1) as nat));
    }
    if b == 0x7d {
        return Some((Json::Obj(acc), i + 1));
    }
    None
}

/// Parses a whole byte string as one JSON value; `None` on any malformed
/// input. The result is exactly the value that `spec_json` gives.
pub fn parse_json(s: &[u8]) -> (r: Option<Json>)
    ensures
        match r {
            Some(v) => spec_json(s@) == Some(json_model(v)),
            None => spec_json(s@) is None,
        },
{
    let ghost f0 = spec_parse_fuel(s@);
    match parse_value(s, 0, Ghost(f0)) {
        None => None,
        Some((v, j)) => {
            let mut k = j;
            while k < s.len() && (s[k] == 0x20 || s[k] == 0x09 || s[k] == 0x0a || s[k] == 0x0d)
                invariant
                    j <= k <= s@.len(),
                    spec_ws(s@, j as int) == spec_ws(s@, k as int),
                decreases s@.len() - k,
            {
                k = k + 1;
            }
            if k == s.len() {
                Some(v)
            } else {
                None
            }
        },
    }
}

// ---------------------------------------------------------------------------
// Working with values
// ---------------------------------------------------------------------------

/// Whether a byte vector and a byte slice hold the same bytes.
pub fn bytes_eq(a: &Vec<u8>, b: &[u8]) -> (r: bool)
    ensures
        r == (a@ == b@),
{
    if a.len() != b.len() {
        return false;
    }
    let n = a.len();
    for k in 0..n
        invariant
            n == a@.len() && n == b@.len(),
            forall|t: int| 0 <= t < k ==> a@[t] == b@[t],
    {
        if a[k] != b[k] {
            return false;
        }
    }
    assert(a@ =~= b@);
    true
}

/// A fresh copy of a byte vector.
pub fn copy_bytes(src: &Vec<u8>) -> (r: Vec<u8>)
    ensures
        r@ == src@,
{
    let mut out: Vec<u8> = Vec::new();
    let n = src.len();
    for k in 0..n
        invariant
            n == src@.len(),
            out@ == src@.subrange(0, k as int),
    {
        out.push(src[k]);
        assert(out@ =~= src@.subrange(0, k + 1));
    }
    assert(out@ =~= src@);
    out
}

/// A deep copy of a JSON value, with the same model.
pub fn clone_json(j: &Json) -> (r: Json)
    ensures
        json_model(r) == json_model(*j),
    decreases *j,
{
    match j {
        Json::Null => Json::Null,
        Json::Bool(b) => Json::Bool(*b),
        Json::Int(n) => Json::Int(*n),
        Json::Num(s) => Json::Num(copy_bytes(s)),
        Json::Str(s) => Json::Str(copy_bytes(s)),
        Json::Arr(elems) => {
            let mut out: Vec<Json> = Vec::new();
            let n = elems.len();
            for k in 0..n
                invariant
                    *j is Arr,
                    (*j)->Arr_0 == *elems,
                    n == elems@.len(),
                    out@.len() == k,
                    forall|t: int|
                        0 <= t < k ==> json_model(#[trigger] out@[t]) == json_model(elems@[t]),
            {
                proof {
                    assert(decreases_to!(*j => (*j)->Arr_0));
                    assert(decreases_to!((*j)->Arr_0 => (*j)->Arr_0@));
                    assert(decreases_to!((*j)->Arr_0@ => (*j)->Arr_0@[k as int]));
                    assert(decreases_to!(*j => elems@[k as int]));
                }
                let c = clone_json(&elems[k]);
                out.push(c);
                assert(json_model(out@[k as int]) == json_model(elems@[k as int]));
            }
            proof {
                assert(json_models(out@) =~= json_models(elems@));
            }
            Json::Arr(out)
        },
        Json::Obj(pairs) => {
            let mut out: Vec<(Vec<u8>, Json)> = Vec::new();
            let n = pairs.len();
            for k in 0..n
                invariant
                    *j is Obj,
                    (*j)->Obj_0 == *pairs,
                    n == pairs@.len(),
                    out@.len() == k,
                    forall|t: int|
                        0 <= t < k ==> ((#[trigger] out@[t]).0@ == pairs@[t].0@ && json_model(
                            out@[t].1,
                        ) == json_model(pairs@[t].1)),
            {
                proof {
                    assert(decreases_to!(*j => (*j)->Obj_0));
                    assert(decreases_to!((*j)->Obj_0 => (*j)->Obj_0@));
                    assert(decreases_to!((*j)->Obj_0@ => (*j)->Obj_0@[k as int]));
                    assert(decreases_to!((*j)->Obj_0@[k as int] => (*j)->Obj_0@[k as int].1));
                    assert(decreases_to!(*j => pairs@[k as int].1));
                }
                let ck = copy_bytes(&pairs[k].0);
                let cv = clone_json(&pairs[k].1);
                out.push((ck, cv));
                assert(out@[k as int].0@ == pairs@[k as int].0@);
                assert(json_model(out@[k as int].1) == json_model(pairs@[k as int].1));
            }
            proof {
                assert(json_pair_models(out@) =~= json_pair_models(pairs@));
            }
            Json::Obj(out)
        },
    }
}

fn get_pair<'a>(pairs: &'a Vec<(Vec<u8>, Json)>, key: &[u8], n: usize) -> (r: Option<&'a Json>)
    requires
        n <= pairs@.len(),
    ensures
        match r {
            Some(x) => spec_lookup(json_pair_models(pairs@).take(n as int), key@) == Some(
                json_model(*x),
            ),
            None => spec_lookup(json_pair_models(pairs@).take(n as int), key@) is None,
        },
    decreases n,
{
    if n == 0 {
        assert(json_pair_models(pairs@).take(0) =~= Seq::<(Seq<u8>, JsonModel)>::empty());
        return None;
    }
    let ghost pm = json_pair_models(pairs@);
    proof {
        assert(pm.take(n as int).drop_last() =~= pm.take(n as int - 1));
        assert(pm.take(n as int).last() == pm[n as int - 1]);
    }
    if bytes_eq(&pairs[n - 1].0, key) {
        Some(&pairs[n - 1].1)
    } else {
        get_pair(pairs, key, n - 1)
    }
}

/// The member of an object value named `key`, the last occurrence winning;
/// `None` for any other value or when the key is absent.
pub fn json_get<'a>(v: &'a Json, key: &[u8]) -> (r: Option<&'a Json>)
    ensures
        match r {
            Some(x) => spec_field(json_model(*v), key@) == Some(json_model(*x)),
            None => spec_field(json_model(*v), key@) is None,
        },
{
    match v {
        Json::Obj(pairs) => {
            let ghost pm = json_pair_models(pairs@);
            proof {
                assert(pm.take(pm.len() as int) =~= pm);
            }
            get_pair(pairs, key, pairs.len())
        },
        _ => None,
    }
}

} // verus!
