//! The JSON text of outgoing requests, written byte by byte in the compact
//! form: members in declaration order, absent members left out.

use vstd::prelude::*;
use vstd::string::StringSliceAdditionalSpecFns;
use crate::params::{JsonInt, RequestParams};

verus! {

/// Decimal digits of `n`, most significant first, without leading zeros.
pub open spec fn decimal(n: nat) -> Seq<u8>
    decreases n,
{
    if n < 10 {
        seq![(48 + n) as u8]
    } else {
        decimal(n / 10).push((48 + n % 10) as u8)
    }
}

/// A JSON integer: an optional minus sign followed by the decimal digits.
pub open spec fn json_integer(v: int) -> Seq<u8> {
    if v < 0 {
        seq![45u8] + decimal((-v) as nat)
    } else {
        decimal(v as nat)
    }
}

/// A JSON boolean literal.
pub open spec fn json_bool(b: bool) -> Seq<u8> {
    if b {
        "true".spec_bytes()
    } else {
        "false".spec_bytes()
    }
}

/// Lower-case hexadecimal digit of `d < 16`.
pub open spec fn hex_digit(d: int) -> u8 {
    if d < 10 {
        (48 + d) as u8
    } else {
        (87 + d) as u8
    }
}

/// How one byte of a string is written inside JSON quotes: quote and backslash
/// are escaped, control bytes get their short escape or `\u00XX`, all other
/// bytes stand for themselves.
pub open spec fn escape_byte(b: u8) -> Seq<u8> {
    if b == 0x22 {
        seq![0x5cu8, 0x22u8]
    } else if b == 0x5c {
        seq![0x5cu8, 0x5cu8]
    } else if b == 0x08 {
        seq![0x5cu8, 0x62u8]
    } else if b == 0x0c {
        seq![0x5cu8, 0x66u8]
    } else if b == 0x0a {
        seq![0x5cu8, 0x6eu8]
    } else if b == 0x0d {
        seq![0x5cu8, 0x72u8]
    } else if b == 0x09 {
        seq![0x5cu8, 0x74u8]
    } else if b < 0x20 {
        seq![0x5cu8, 0x75u8, 0x30u8, 0x30u8, hex_digit(b as int / 16), hex_digit(b as int % 16)]
    } else {
        seq![b]
    }
}

/// The escaped contents of a JSON string holding the bytes `s`.
pub open spec fn escape(s: Seq<u8>) -> Seq<u8>
    decreases s.len(),
{
    if s.len() == 0 {
        Seq::empty()
    } else {
        escape(s.drop_last()) + escape_byte(s.last())
    }
}

/// A byte that stands for itself inside a JSON string.
pub open spec fn is_plain_byte(b: u8) -> bool {
    b >= 0x20 && b != 0x22 && b != 0x5c
}

/// Text without quotes, backslashes or control bytes is written unchanged.
pub proof fn lemma_escape_plain(s: Seq<u8>)
    requires
        forall|i: int| 0 <= i < s.len() ==> is_plain_byte(#[trigger] s[i]),
    ensures
        escape(s) == s,
    decreases s.len(),
{
    if s.len() > 0 {
        lemma_escape_plain(s.drop_last());
        assert(escape(s.drop_last()) + seq![s.last()] =~= s);
    }
}

/// A JSON string literal holding the bytes `s`.
pub open spec fn json_string(s: Seq<u8>) -> Seq<u8> {
    seq![0x22u8] + escape(s) + seq![0x22u8]
}

/// An object member: the quoted key, a colon, and the value.
pub open spec fn member(key: Seq<u8>, value: Seq<u8>) -> Seq<u8> {
    seq![0x22u8] + key + seq![0x22u8, 0x3au8] + value
}

/// Members separated by commas.
pub open spec fn join_members(ms: Seq<Seq<u8>>) -> Seq<u8>
    decreases ms.len(),
{
    if ms.len() == 0 {
        Seq::empty()
    } else if ms.len() == 1 {
        ms[0]
    } else {
        join_members(ms.drop_last()) + seq![0x2cu8] + ms.last()
    }
}

/// A JSON object made of the members `ms`, in order.
pub open spec fn json_object(ms: Seq<Seq<u8>>) -> Seq<u8> {
    seq![0x7bu8] + join_members(ms) + seq![0x7du8]
}

/// `ms` followed by the member `key` when a value is present.
pub open spec fn with_member(ms: Seq<Seq<u8>>, key: Seq<u8>, value: Option<Seq<u8>>) -> Seq<Seq<u8>> {
    match value {
        Some(v) => ms.push(member(key, v)),
        None => ms,
    }
}

/// The JSON text of a present number.
pub open spec fn number_text(n: Option<JsonInt>) -> Option<Seq<u8>> {
    match n {
        Some(x) => Some(json_integer(x.value())),
        None => None,
    }
}

/// The JSON text of a present boolean.
pub open spec fn bool_text(b: Option<bool>) -> Option<Seq<u8>> {
    match b {
        Some(x) => Some(json_bool(x)),
        None => None,
    }
}

/// The members of the `params` object, in field order; `scene_id` is sent as `sceneId`.
pub open spec fn params_members(p: RequestParams) -> Seq<Seq<u8>> {
    let m = Seq::<Seq<u8>>::empty();
    let m = with_member(m, "state".spec_bytes(), bool_text(p.state));
    let m = with_member(m, "speed".spec_bytes(), number_text(p.speed));
    let m = with_member(m, "ratio".spec_bytes(), number_text(p.ratio));
    let m = with_member(m, "brightness".spec_bytes(), number_text(p.brightness));
    let m = with_member(m, "temp".spec_bytes(), number_text(p.temp));
    let m = with_member(m, "r".spec_bytes(), number_text(p.r));
    let m = with_member(m, "g".spec_bytes(), number_text(p.g));
    let m = with_member(m, "b".spec_bytes(), number_text(p.b));
    let m = with_member(m, "c".spec_bytes(), number_text(p.c));
    let m = with_member(m, "w".spec_bytes(), number_text(p.w));
    let m = with_member(m, "sceneId".spec_bytes(), number_text(p.scene_id));
    m
}

/// A key without quote characters.
pub open spec fn quote_free(k: Seq<u8>) -> bool {
    forall|i: int| 0 <= i < k.len() ==> k[i] != 0x22
}

/// `value` is the JSON text of the number `n`, when one is present.
pub open spec fn holds_number(n: Option<JsonInt>, value: Seq<u8>) -> bool {
    match n {
        Some(x) => value == json_integer(x.value()),
        None => false,
    }
}

/// `value` is the JSON text of the boolean `b`, when one is present.
pub open spec fn holds_bool(b: Option<bool>, value: Seq<u8>) -> bool {
    match b {
        Some(x) => value == json_bool(x),
        None => false,
    }
}

/// Members with quote-free keys are told apart by key and value.
pub proof fn lemma_member_injective(k1: Seq<u8>, v1: Seq<u8>, k2: Seq<u8>, v2: Seq<u8>)
    requires
        quote_free(k1),
        quote_free(k2),
        member(k1, v1) == member(k2, v2),
    ensures
        k1 == k2,
        v1 == v2,
{
    let m1 = member(k1, v1);
    let m2 = member(k2, v2);
    if k1.len() < k2.len() {
        assert(m1[k1.len() as int + 1] == 0x22u8);
        assert(m2[k1.len() as int + 1] == k2[k1.len() as int]);
    } else if k2.len() < k1.len() {
        assert(m2[k2.len() as int + 1] == 0x22u8);
        assert(m1[k2.len() as int + 1] == k1[k2.len() as int]);
    } else {
        assert(k1 =~= m1.subrange(1, k1.len() as int + 1));
        assert(k2 =~= m2.subrange(1, k2.len() as int + 1));
        assert(v1 =~= m1.subrange(k1.len() as int + 3, m1.len() as int));
        assert(v2 =~= m2.subrange(k2.len() as int + 3, m2.len() as int));
    }
}

/// What adding an optional member adds to a list of members.
pub proof fn lemma_with_member_contains(ms: Seq<Seq<u8>>, key: Seq<u8>, value: Option<Seq<u8>>, x: Seq<u8>)
    ensures
        with_member(ms, key, value).contains(x) <==> (ms.contains(x) || (value is Some && x == member(key, value->0))),
{
    if let Some(v) = value {
        let ms2 = ms.push(member(key, v));
        if ms.contains(x) {
            let i = choose|i: int| 0 <= i < ms.len() && ms[i] == x;
            assert(ms2[i] == x);
        }
        if x == member(key, v) {
            assert(ms2[ms.len() as int] == x);
        }
        if ms2.contains(x) {
            let i = choose|i: int| 0 <= i < ms2.len() && ms2[i] == x;
            if i < ms.len() {
                assert(ms[i] == x);
            }
        }
    }
}

/// The keys of the parameters object hold no quote character.
proof fn lemma_param_keys_quote_free()
    ensures
        quote_free("state".spec_bytes()),
        quote_free("speed".spec_bytes()),
        quote_free("ratio".spec_bytes()),
        quote_free("brightness".spec_bytes()),
        quote_free("temp".spec_bytes()),
        quote_free("r".spec_bytes()),
        quote_free("g".spec_bytes()),
        quote_free("b".spec_bytes()),
        quote_free("c".spec_bytes()),
        quote_free("w".spec_bytes()),
        quote_free("sceneId".spec_bytes()),
{
    broadcast use vstd::utf8::is_ascii_chars_encode_utf8;
    reveal_strlit("state");
    assert(vstd::utf8::is_ascii_chars("state"@));
    reveal_strlit("speed");
    assert(vstd::utf8::is_ascii_chars("speed"@));
    reveal_strlit("ratio");
    assert(vstd::utf8::is_ascii_chars("ratio"@));
    reveal_strlit("brightness");
    assert(vstd::utf8::is_ascii_chars("brightness"@));
    reveal_strlit("temp");
    assert(vstd::utf8::is_ascii_chars("temp"@));
    reveal_strlit("r");
    assert(vstd::utf8::is_ascii_chars("r"@));
    reveal_strlit("g");
    assert(vstd::utf8::is_ascii_chars("g"@));
    reveal_strlit("b");
    assert(vstd::utf8::is_ascii_chars("b"@));
    reveal_strlit("c");
    assert(vstd::utf8::is_ascii_chars("c"@));
    reveal_strlit("w");
    assert(vstd::utf8::is_ascii_chars("w"@));
    reveal_strlit("sceneId");
    assert(vstd::utf8::is_ascii_chars("sceneId"@));
}

/// The parameters object carries, under each field's key, exactly the value of
/// that field, and nothing for an absent field: a member with a quote-free key
/// is in the object iff its key names a present field and its value is that
/// field's JSON text.
pub proof fn lemma_params_members_named(p: RequestParams, key: Seq<u8>, value: Seq<u8>)
    requires
        quote_free(key),
    ensures
        json_params(p) == json_object(params_members(p)),
        params_members(p).contains(member(key, value)) <==> (
            (key == "state".spec_bytes() && holds_bool(p.state, value))
            ||
            (key == "speed".spec_bytes() && holds_number(p.speed, value))
            ||
            (key == "ratio".spec_bytes() && holds_number(p.ratio, value))
            ||
            (key == "brightness".spec_bytes() && holds_number(p.brightness, value))
            ||
            (key == "temp".spec_bytes() && holds_number(p.temp, value))
            ||
            (key == "r".spec_bytes() && holds_number(p.r, value))
            ||
            (key == "g".spec_bytes() && holds_number(p.g, value))
            ||
            (key == "b".spec_bytes() && holds_number(p.b, value))
            ||
            (key == "c".spec_bytes() && holds_number(p.c, value))
            ||
            (key == "w".spec_bytes() && holds_number(p.w, value))
            ||
            (key == "sceneId".spec_bytes() && holds_number(p.scene_id, value))
        ),
{
    lemma_param_keys_quote_free();
    let x = member(key, value);
    let m0 = Seq::<Seq<u8>>::empty();
    let m1 = with_member(m0, "state".spec_bytes(), bool_text(p.state));
    lemma_with_member_contains(m0, "state".spec_bytes(), bool_text(p.state), x);
    if p.state is Some && x == member("state".spec_bytes(), json_bool(p.state->0)) {
        lemma_member_injective(key, value, "state".spec_bytes(), json_bool(p.state->0));
    }
    let m2 = with_member(m1, "speed".spec_bytes(), number_text(p.speed));
    lemma_with_member_contains(m1, "speed".spec_bytes(), number_text(p.speed), x);
    if p.speed is Some && x == member("speed".spec_bytes(), json_integer(p.speed->0.value())) {
        lemma_member_injective(key, value, "speed".spec_bytes(), json_integer(p.speed->0.value()));
    }
    let m3 = with_member(m2, "ratio".spec_bytes(), number_text(p.ratio));
    lemma_with_member_contains(m2, "ratio".spec_bytes(), number_text(p.ratio), x);
    if p.ratio is Some && x == member("ratio".spec_bytes(), json_integer(p.ratio->0.value())) {
        lemma_member_injective(key, value, "ratio".spec_bytes(), json_integer(p.ratio->0.value()));
    }
    let m4 = with_member(m3, "brightness".spec_bytes(), number_text(p.brightness));
    lemma_with_member_contains(m3, "brightness".spec_bytes(), number_text(p.brightness), x);
    if p.brightness is Some && x == member("brightness".spec_bytes(), json_integer(p.brightness->0.value())) {
        lemma_member_injective(key, value, "brightness".spec_bytes(), json_integer(p.brightness->0.value()));
    }
    let m5 = with_member(m4, "temp".spec_bytes(), number_text(p.temp));
    lemma_with_member_contains(m4, "temp".spec_bytes(), number_text(p.temp), x);
    if p.temp is Some && x == member("temp".spec_bytes(), json_integer(p.temp->0.value())) {
        lemma_member_injective(key, value, "temp".spec_bytes(), json_integer(p.temp->0.value()));
    }
    let m6 = with_member(m5, "r".spec_bytes(), number_text(p.r));
    lemma_with_member_contains(m5, "r".spec_bytes(), number_text(p.r), x);
    if p.r is Some && x == member("r".spec_bytes(), json_integer(p.r->0.value())) {
        lemma_member_injective(key, value, "r".spec_bytes(), json_integer(p.r->0.value()));
    }
    let m7 = with_member(m6, "g".spec_bytes(), number_text(p.g));
    lemma_with_member_contains(m6, "g".spec_bytes(), number_text(p.g), x);
    if p.g is Some && x == member("g".spec_bytes(), json_integer(p.g->0.value())) {
        lemma_member_injective(key, value, "g".spec_bytes(), json_integer(p.g->0.value()));
    }
    let m8 = with_member(m7, "b".spec_bytes(), number_text(p.b));
    lemma_with_member_contains(m7, "b".spec_bytes(), number_text(p.b), x);
    if p.b is Some && x == member("b".spec_bytes(), json_integer(p.b->0.value())) {
        lemma_member_injective(key, value, "b".spec_bytes(), json_integer(p.b->0.value()));
    }
    let m9 = with_member(m8, "c".spec_bytes(), number_text(p.c));
    lemma_with_member_contains(m8, "c".spec_bytes(), number_text(p.c), x);
    if p.c is Some && x == member("c".spec_bytes(), json_integer(p.c->0.value())) {
        lemma_member_injective(key, value, "c".spec_bytes(), json_integer(p.c->0.value()));
    }
    let m10 = with_member(m9, "w".spec_bytes(), number_text(p.w));
    lemma_with_member_contains(m9, "w".spec_bytes(), number_text(p.w), x);
    if p.w is Some && x == member("w".spec_bytes(), json_integer(p.w->0.value())) {
        lemma_member_injective(key, value, "w".spec_bytes(), json_integer(p.w->0.value()));
    }
    let m11 = with_member(m10, "sceneId".spec_bytes(), number_text(p.scene_id));
    lemma_with_member_contains(m10, "sceneId".spec_bytes(), number_text(p.scene_id), x);
    if p.scene_id is Some && x == member("sceneId".spec_bytes(), json_integer(p.scene_id->0.value())) {
        lemma_member_injective(key, value, "sceneId".spec_bytes(), json_integer(p.scene_id->0.value()));
    }
    assert(m11 == params_members(p));
}

/// The JSON text of request parameters.
pub open spec fn json_params(p: RequestParams) -> Seq<u8> {
    json_object(params_members(p))
}

/// Appends `bytes` to `out`.
pub fn push_bytes(out: &mut Vec<u8>, bytes: &[u8])
    ensures
        final(out)@ == old(out)@ + bytes@,
{
    let mut i: usize = 0;
    while i < bytes.len()
        invariant
            0 <= i <= bytes@.len(),
            out@ == old(out)@ + bytes@.take(i as int),
        decreases bytes@.len() - i,
    {
        out.push(bytes[i]);
        i = i + 1;
        assert(out@ =~= old(out)@ + bytes@.take(i as int));
    }
    assert(bytes@.take(bytes@.len() as int) =~= bytes@);
}

/// Appends the decimal digits of `n` to `out`.
pub fn write_decimal(out: &mut Vec<u8>, n: u64)
    ensures
        final(out)@ == old(out)@ + decimal(n as nat),
    decreases n,
{
    if n >= 10 {
        write_decimal(out, n / 10);
    }
    out.push(48u8 + (n % 10) as u8);
    assert(out@ =~= old(out)@ + decimal(n as nat));
}

/// Appends the JSON text of the integer `n` to `out`.
pub fn write_number(out: &mut Vec<u8>, n: JsonInt)
    ensures
        final(out)@ == old(out)@ + json_integer(n.value()),
{
    match n {
        JsonInt::PosInt(v) => write_decimal(out, v),
        JsonInt::NegInt(v) => {
            if v < 0 {
                out.push(45u8);
                let magnitude: u64 = ((-(v + 1)) as u64) + 1;
                write_decimal(out, magnitude);
                assert(out@ =~= old(out)@ + json_integer(n.value()));
            } else {
                write_decimal(out, v as u64);
            }
        },
    }
}

/// Appends the JSON literal of `b` to `out`.
pub fn write_bool(out: &mut Vec<u8>, b: bool)
    ensures
        final(out)@ == old(out)@ + json_bool(b),
{
    if b {
        push_bytes(out, "true".as_bytes());
    } else {
        push_bytes(out, "false".as_bytes());
    }
}

/// Appends the escaped form of one byte.
fn write_escaped_byte(out: &mut Vec<u8>, b: u8)
    ensures
        final(out)@ == old(out)@ + escape_byte(b),
{
    if b == 0x22 || b == 0x5c {
        out.push(0x5c);
        out.push(b);
    } else if b == 0x08 {
        out.push(0x5c);
        out.push(0x62);
    } else if b == 0x0c {
        out.push(0x5c);
        out.push(0x66);
    } else if b == 0x0a {
        out.push(0x5c);
        out.push(0x6e);
    } else if b == 0x0d {
        out.push(0x5c);
        out.push(0x72);
    } else if b == 0x09 {
        out.push(0x5c);
        out.push(0x74);
    } else if b < 0x20 {
        out.push(0x5c);
        out.push(0x75);
        out.push(0x30);
        out.push(0x30);
        let hi: u8 = b / 16;
        let lo: u8 = b % 16;
        out.push(if hi < 10 { 48 + hi } else { 87 + hi });
        out.push(if lo < 10 { 48 + lo } else { 87 + lo });
    } else {
        out.push(b);
    }
    assert(out@ =~= old(out)@ + escape_byte(b));
}

/// Appends the JSON string literal holding `s` to `out`.
pub fn write_string(out: &mut Vec<u8>, s: &[u8])
    ensures
        final(out)@ == old(out)@ + json_string(s@),
{
    out.push(0x22);
    let ghost start = out@;
    let mut i: usize = 0;
    while i < s.len()
        invariant
            0 <= i <= s@.len(),
            out@ == start + escape(s@.take(i as int)),
        decreases s@.len() - i,
    {
        let ghost before = out@;
        write_escaped_byte(out, s[i]);
        proof {
            assert(s@.take(i + 1).drop_last() =~= s@.take(i as int));
        }
        i = i + 1;
        assert(out@ =~= start + escape(s@.take(i as int)));
    }
    assert(s@.take(s@.len() as int) =~= s@);
    out.push(0x22);
    assert(out@ =~= old(out)@ + json_string(s@));
}

/// Appends the member `key: value` to an object under construction whose
/// members so far are `ms`; `first` tells whether there are none yet.
pub fn write_member(out: &mut Vec<u8>, first: bool, Ghost(ms): Ghost<Seq<Seq<u8>>>, key: &str, value: &[u8])
    requires
        old(out)@ == seq![0x7bu8] + join_members(ms),
        first == (ms.len() == 0),
    ensures
        final(out)@ == seq![0x7bu8] + join_members(ms.push(member(key.spec_bytes(), value@))),
{
    let ghost m = member(key.spec_bytes(), value@);
    if !first {
        out.push(0x2c);
    }
    out.push(0x22);
    push_bytes(out, key.as_bytes());
    out.push(0x22);
    out.push(0x3a);
    push_bytes(out, value);
    proof {
        assert(ms.push(m).drop_last() =~= ms);
        if ms.len() == 0 {
            assert(join_members(ms.push(m)) == m);
        }
    }
    assert(out@ =~= seq![0x7bu8] + join_members(ms.push(m)));
}

/// Adds the member `key` to an object under construction when a value is
/// present; returns whether the object is still empty, and its members.
fn write_optional_member(
    out: &mut Vec<u8>,
    first: bool,
    Ghost(ms): Ghost<Seq<Seq<u8>>>,
    key: &str,
    value: Option<Vec<u8>>,
) -> (r: (bool, Ghost<Seq<Seq<u8>>>))
    requires
        old(out)@ == seq![0x7bu8] + join_members(ms),
        first == (ms.len() == 0),
    ensures
        r.1@ == with_member(ms, key.spec_bytes(), match value { Some(v) => Some(v@), None => None }),
        final(out)@ == seq![0x7bu8] + join_members(r.1@),
        r.0 == (r.1@.len() == 0),
{
    match value {
        Some(v) => {
            write_member(out, first, Ghost(ms), key, v.as_slice());
            (false, Ghost(ms.push(member(key.spec_bytes(), v@))))
        },
        None => (first, Ghost(ms)),
    }
}

/// The JSON text of a present number.
fn number_bytes(n: Option<JsonInt>) -> (r: Option<Vec<u8>>)
    ensures
        match r { Some(v) => Some(v@), None => None } == number_text(n),
{
    match n {
        Some(x) => {
            let mut v: Vec<u8> = Vec::new();
            write_number(&mut v, x);
            assert(v@ =~= json_integer(x.value()));
            Some(v)
        },
        None => None,
    }
}

/// The JSON text of request parameters.
pub fn params_json(p: &RequestParams) -> (r: Vec<u8>)
    ensures
        r@ == json_params(*p),
{
    let mut out: Vec<u8> = Vec::new();
    out.push(0x7b);
    assert(out@ =~= seq![0x7bu8] + join_members(Seq::empty()));
    let state = match p.state {
        Some(b) => {
            let mut v: Vec<u8> = Vec::new();
            write_bool(&mut v, b);
            assert(v@ =~= json_bool(b));
            Some(v)
        },
        None => None,
    };
    let (first, ms) = write_optional_member(&mut out, true, Ghost(Seq::empty()), "state", state);
    let (first, ms) = write_optional_member(&mut out, first, ms, "speed", number_bytes(p.speed));
    let (first, ms) = write_optional_member(&mut out, first, ms, "ratio", number_bytes(p.ratio));
    let (first, ms) = write_optional_member(&mut out, first, ms, "brightness", number_bytes(p.brightness));
    let (first, ms) = write_optional_member(&mut out, first, ms, "temp", number_bytes(p.temp));
    let (first, ms) = write_optional_member(&mut out, first, ms, "r", number_bytes(p.r));
    let (first, ms) = write_optional_member(&mut out, first, ms, "g", number_bytes(p.g));
    let (first, ms) = write_optional_member(&mut out, first, ms, "b", number_bytes(p.b));
    let (first, ms) = write_optional_member(&mut out, first, ms, "c", number_bytes(p.c));
    let (first, ms) = write_optional_member(&mut out, first, ms, "w", number_bytes(p.w));
    let (first, ms) = write_optional_member(&mut out, first, ms, "sceneId", number_bytes(p.scene_id));
    assert(ms@ == params_members(*p));
    out.push(0x7d);
    assert(out@ =~= json_params(*p));
    out
}

} // verus!
