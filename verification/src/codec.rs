//! Topic and payload codec for the bridge's MQTT traffic.
//!
//! Topics and payloads are handled as plain byte strings.  Inbound output
//! commands arrive on `{prefix}/output/{channel}` with a boolean literal
//! payload; input transitions are published on `{prefix}/input/{channel}`
//! with the boolean's canonical text form.  The decimal channel number is
//! parsed and rendered here with exact contracts.

use vstd::prelude::*;

verus! {

// ---------------------------------------------------------------------------
// Byte-string building blocks
// ---------------------------------------------------------------------------
/// True when `a` starts with `b`.
pub open spec fn spec_starts_with(a: Seq<u8>, b: Seq<u8>) -> bool {
    a.len() >= b.len() && a.take(b.len() as int) == b
}

/// Byte-for-byte equality of two slices.
pub fn bytes_eq(a: &[u8], b: &[u8]) -> (r: bool)
    ensures
        r == (a@ == b@),
{
    if a.len() != b.len() {
        proof {
            assert(a@ != b@);
        }
        return false;
    }
    for i in 0..a.len()
        invariant
            a@.len() == b@.len(),
            forall|j: int| 0 <= j < i ==> a@[j] == b@[j],
    {
        if a[i] != b[i] {
            proof {
                assert(a@ != b@);
            }
            return false;
        }
    }
    proof {
        assert(a@ =~= b@);
    }
    true
}

/// True when `a` starts with `b`, compared byte for byte.
pub fn starts_with(a: &[u8], b: &[u8]) -> (r: bool)
    ensures
        r == spec_starts_with(a@, b@),
{
    if a.len() < b.len() {
        return false;
    }
    for i in 0..b.len()
        invariant
            a@.len() >= b@.len(),
            forall|j: int| 0 <= j < i ==> a@[j] == b@[j],
    {
        if a[i] != b[i] {
            proof {
                assert(a@.take(b@.len() as int)[i as int] != b@[i as int]);
            }
            return false;
        }
    }
    proof {
        assert(a@.take(b@.len() as int) =~= b@);
    }
    true
}

// ---------------------------------------------------------------------------
// Boolean payload vocabulary
// ---------------------------------------------------------------------------
/// The payload literal `"true"`.
pub open spec fn lit_true() -> Seq<u8> {
    seq!['t' as u8, 'r' as u8, 'u' as u8, 'e' as u8]
}

/// The payload literal `"false"`.
pub open spec fn lit_false() -> Seq<u8> {
    seq!['f' as u8, 'a' as u8, 'l' as u8, 's' as u8, 'e' as u8]
}

/// The payload literal `"on"`.
pub open spec fn lit_on() -> Seq<u8> {
    seq!['o' as u8, 'n' as u8]
}

/// The payload literal `"ON"`.
pub open spec fn lit_on_upper() -> Seq<u8> {
    seq!['O' as u8, 'N' as u8]
}

/// The payload literal `"off"`.
pub open spec fn lit_off() -> Seq<u8> {
    seq!['o' as u8, 'f' as u8, 'f' as u8]
}

/// The payload literal `"OFF"`.
pub open spec fn lit_off_upper() -> Seq<u8> {
    seq!['O' as u8, 'F' as u8, 'F' as u8]
}

/// The single raw byte `0x01`.
pub open spec fn lit_raw_one() -> Seq<u8> {
    seq![1u8]
}

/// The single raw byte `0x00`.
pub open spec fn lit_raw_zero() -> Seq<u8> {
    seq![0u8]
}

/// The accepted boolean vocabulary: `"true"`, `"on"`, `"ON"` and the raw
/// byte `0x01` decode to true; `"false"`, `"off"`, `"OFF"` and the raw
/// byte `0x00` decode to false; everything else is rejected.
pub open spec fn spec_decode_value(p: Seq<u8>) -> Option<bool> {
    if p == lit_true() || p == lit_on() || p == lit_on_upper() || p == lit_raw_one() {
        Some(true)
    } else if p == lit_false() || p == lit_off() || p == lit_off_upper() || p
        == lit_raw_zero() {
        Some(false)
    } else {
        None
    }
}

/// Decodes an inbound payload against the fixed boolean vocabulary.
pub fn decode_value(payload: &[u8]) -> (r: Option<bool>)
    ensures
        r == spec_decode_value(payload@),
{
    let t_true = ['t' as u8, 'r' as u8, 'u' as u8, 'e' as u8];
    let t_on = ['o' as u8, 'n' as u8];
    let t_on_u = ['O' as u8, 'N' as u8];
    let t_one = [1u8];
    let t_false = ['f' as u8, 'a' as u8, 'l' as u8, 's' as u8, 'e' as u8];
    let t_off = ['o' as u8, 'f' as u8, 'f' as u8];
    let t_off_u = ['O' as u8, 'F' as u8, 'F' as u8];
    let t_zero = [0u8];
    proof {
        assert(t_true@ =~= lit_true());
        assert(t_on@ =~= lit_on());
        assert(t_on_u@ =~= lit_on_upper());
        assert(t_one@ =~= lit_raw_one());
        assert(t_false@ =~= lit_false());
        assert(t_off@ =~= lit_off());
        assert(t_off_u@ =~= lit_off_upper());
        assert(t_zero@ =~= lit_raw_zero());
    }
    if bytes_eq(payload, t_true.as_slice()) || bytes_eq(payload, t_on.as_slice())
        || bytes_eq(payload, t_on_u.as_slice()) || bytes_eq(payload, t_one.as_slice()) {
        Some(true)
    } else if bytes_eq(payload, t_false.as_slice()) || bytes_eq(payload, t_off.as_slice())
        || bytes_eq(payload, t_off_u.as_slice()) || bytes_eq(payload, t_zero.as_slice()) {
        Some(false)
    } else {
        None
    }
}

/// The canonical text form of a boolean: `"true"` or `"false"`.
pub open spec fn spec_bool_text(v: bool) -> Seq<u8> {
    if v {
        lit_true()
    } else {
        lit_false()
    }
}

/// Renders a boolean as its canonical text form.
pub fn bool_text(v: bool) -> (r: Vec<u8>)
    ensures
        r@ == spec_bool_text(v),
{
    let mut r: Vec<u8> = Vec::new();
    if v {
        r.push('t' as u8);
        r.push('r' as u8);
        r.push('u' as u8);
        r.push('e' as u8);
        proof {
            assert(r@ =~= lit_true());
        }
    } else {
        r.push('f' as u8);
        r.push('a' as u8);
        r.push('l' as u8);
        r.push('s' as u8);
        r.push('e' as u8);
        proof {
            assert(r@ =~= lit_false());
        }
    }
    r
}

// ---------------------------------------------------------------------------
// Decimal numbers
// ---------------------------------------------------------------------------
/// True when every byte of `s` is an ASCII decimal digit.
pub open spec fn spec_all_digits(s: Seq<u8>) -> bool {
    forall|i: int| 0 <= i < s.len() ==> '0' as u8 <= #[trigger] s[i] <= '9' as u8
}

/// The number a string of decimal digits denotes.
pub open spec fn spec_digits_value(s: Seq<u8>) -> int
    recommends
        spec_all_digits(s),
    decreases s.len(),
{
    if s.len() == 0 {
        0
    } else {
        spec_digits_value(s.drop_last()) * 10 + (s.last() - ('0' as u8))
    }
}

/// A digit string never denotes a negative number.
proof fn lemma_digits_value_nonneg(s: Seq<u8>)
    requires
        spec_all_digits(s),
    ensures
        spec_digits_value(s) >= 0,
    decreases s.len(),
{
    if s.len() > 0 {
        assert(spec_all_digits(s.drop_last()));
        lemma_digits_value_nonneg(s.drop_last());
    }
}

/// Extending a digit string to the right never shrinks its value.
proof fn lemma_digits_value_grows(s: Seq<u8>, i: int)
    requires
        spec_all_digits(s),
        0 <= i <= s.len(),
    ensures
        spec_digits_value(s.take(i)) <= spec_digits_value(s),
    decreases s.len() - i,
{
    if i < s.len() {
        assert(spec_all_digits(s.take(i)));
        assert(spec_all_digits(s.take(i + 1)));
        assert(s.take(i + 1).drop_last() =~= s.take(i));
        lemma_digits_value_nonneg(s.take(i));
        lemma_digits_value_grows(s, i + 1);
    } else {
        assert(s.take(i) =~= s);
    }
}

/// The digit sequence a decimal string parses, after an optional leading
/// `'+'` sign.
pub open spec fn spec_number_digits(s: Seq<u8>) -> Seq<u8> {
    if s.len() > 0 && s[0] == '+' as u8 {
        s.drop_first()
    } else {
        s
    }
}

/// How `str::parse` reads a `u16`: an optional leading `'+'`, then one or
/// more decimal digits whose value fits in 16 bits; anything else fails.
pub open spec fn spec_parse_u16(s: Seq<u8>) -> Option<u16> {
    let digits = spec_number_digits(s);
    if digits.len() > 0 && spec_all_digits(digits) && spec_digits_value(digits)
        <= u16::MAX {
        Some(spec_digits_value(digits) as u16)
    } else {
        None
    }
}

/// How `str::parse` reads a `u64`, in the same form as [`spec_parse_u16`].
pub open spec fn spec_parse_u64(s: Seq<u8>) -> Option<u64> {
    let digits = spec_number_digits(s);
    if digits.len() > 0 && spec_all_digits(digits) && spec_digits_value(digits)
        <= u64::MAX {
        Some(spec_digits_value(digits) as u64)
    } else {
        None
    }
}

/// Parses a decimal `u16` from `s`.
pub fn parse_u16(s: &[u8]) -> (r: Option<u16>)
    ensures
        r == spec_parse_u16(s@),
{
    let n = s.len();
    let start: usize = if n > 0 && s[0] == '+' as u8 {
        1
    } else {
        0
    };
    let ghost digits = spec_number_digits(s@);
    proof {
        assert(digits =~= s@.skip(start as int));
    }
    if n == start {
        return None;
    }
    let mut acc: u32 = 0;
    for i in start..n
        invariant
            start <= i <= n,
            n == s@.len(),
            digits == spec_number_digits(s@),
            digits == s@.skip(start as int),
            digits.len() == n - start,
            spec_all_digits(digits.take(i - start)),
            acc == spec_digits_value(digits.take(i - start)),
            acc <= u16::MAX,
    {
        let c = s[i];
        proof {
            assert(digits[i - start] == s@[i as int]);
        }
        if c < '0' as u8 || c > '9' as u8 {
            proof {
                assert(!spec_all_digits(digits)) by {
                    assert(digits[i - start] == c);
                }
            }
            return None;
        }
        let d: u32 = (c - ('0' as u8)) as u32;
        proof {
            assert(digits.take(i - start + 1).drop_last() =~= digits.take(i - start));
        }
        acc = acc * 10 + d;
        if acc > u16::MAX as u32 {
            proof {
                let k = i - start + 1;
                assert(digits.take(k).last() == c);
                assert(spec_digits_value(digits.take(k)) == acc);
                if spec_all_digits(digits) {
                    lemma_digits_value_grows(digits, k);
                    assert(spec_digits_value(digits) > u16::MAX);
                }
            }
            return None;
        }
    }
    proof {
        assert(digits.take(n - start) =~= digits);
    }
    Some(acc as u16)
}

/// Parses a decimal `u64` from `s`.
pub fn parse_u64(s: &[u8]) -> (r: Option<u64>)
    ensures
        r == spec_parse_u64(s@),
{
    let n = s.len();
    let start: usize = if n > 0 && s[0] == '+' as u8 {
        1
    } else {
        0
    };
    let ghost digits = spec_number_digits(s@);
    proof {
        assert(digits =~= s@.skip(start as int));
    }
    if n == start {
        return None;
    }
    let mut acc: u128 = 0;
    for i in start..n
        invariant
            start <= i <= n,
            n == s@.len(),
            digits == spec_number_digits(s@),
            digits == s@.skip(start as int),
            digits.len() == n - start,
            spec_all_digits(digits.take(i - start)),
            acc == spec_digits_value(digits.take(i - start)),
            acc <= u64::MAX,
    {
        let c = s[i];
        proof {
            assert(digits[i - start] == s@[i as int]);
        }
        if c < '0' as u8 || c > '9' as u8 {
            proof {
                assert(!spec_all_digits(digits)) by {
                    assert(digits[i - start] == c);
                }
            }
            return None;
        }
        let d: u128 = (c - ('0' as u8)) as u128;
        proof {
            assert(digits.take(i - start + 1).drop_last() =~= digits.take(i - start));
        }
        acc = acc * 10 + d;
        if acc > u64::MAX as u128 {
            proof {
                let k = i - start + 1;
                assert(digits.take(k).last() == c);
                assert(spec_digits_value(digits.take(k)) == acc);
                if spec_all_digits(digits) {
                    lemma_digits_value_grows(digits, k);
                    assert(spec_digits_value(digits) > u64::MAX);
                }
            }
            return None;
        }
    }
    proof {
        assert(digits.take(n - start) =~= digits);
    }
    Some(acc as u64)
}

/// The canonical decimal rendering of a `u16`: no sign, no leading zero
/// except for the number zero itself.
pub open spec fn spec_u16_dec(n: u16) -> Seq<u8>
    decreases n,
{
    if n < 10 {
        seq![((('0' as u8) + n) as u8)]
    } else {
        spec_u16_dec((n / 10) as u16).push(((('0' as u8) + n % 10) as u8))
    }
}

/// Appends the canonical decimal rendering of `n` to `out`.
fn push_u16_dec(n: u16, out: &mut Vec<u8>)
    ensures
        final(out)@ == old(out)@ + spec_u16_dec(n),
    decreases n,
{
    if n < 10 {
        out.push(('0' as u8) + n as u8);
        proof {
            assert(out@ =~= old(out)@ + spec_u16_dec(n));
        }
    } else {
        push_u16_dec(n / 10, out);
        out.push(('0' as u8) + (n % 10) as u8);
        proof {
            assert(out@ =~= old(out)@ + spec_u16_dec(n));
        }
    }
}

/// Renders a channel number in its canonical decimal form.
pub fn u16_dec(n: u16) -> (r: Vec<u8>)
    ensures
        r@ == spec_u16_dec(n),
{
    let mut out: Vec<u8> = Vec::new();
    push_u16_dec(n, &mut out);
    proof {
        assert(out@ =~= spec_u16_dec(n));
    }
    out
}

// ---------------------------------------------------------------------------
// Topic scheme
// ---------------------------------------------------------------------------
/// The relative topic `"status"`.
pub open spec fn lit_status() -> Seq<u8> {
    seq!['s' as u8, 't' as u8, 'a' as u8, 't' as u8, 'u' as u8, 's' as u8]
}

/// The relative topic `"heartbeat"`.
pub open spec fn lit_heartbeat() -> Seq<u8> {
    seq![
        'h' as u8,
        'e' as u8,
        'a' as u8,
        'r' as u8,
        't' as u8,
        'b' as u8,
        'e' as u8,
        'a' as u8,
        't' as u8,
    ]
}

/// The topic segment `"/output/"`.
pub open spec fn lit_output_infix() -> Seq<u8> {
    seq![
        '/' as u8,
        'o' as u8,
        'u' as u8,
        't' as u8,
        'p' as u8,
        'u' as u8,
        't' as u8,
        '/' as u8,
    ]
}

/// The relative subscription filter `"output/+"`.
pub open spec fn lit_output_filter() -> Seq<u8> {
    seq![
        'o' as u8,
        'u' as u8,
        't' as u8,
        'p' as u8,
        'u' as u8,
        't' as u8,
        '/' as u8,
        '+' as u8,
    ]
}

/// The relative topic for an input channel: `"input/{channel}"`.
pub open spec fn spec_input_rel(channel: u16) -> Seq<u8> {
    seq!['i' as u8, 'n' as u8, 'p' as u8, 'u' as u8, 't' as u8, '/' as u8] + spec_u16_dec(
        channel,
    )
}

/// A relative topic under the device's prefix: `"{prefix}/{rel}"`, or
/// `rel` alone when the prefix is empty.
pub open spec fn spec_full_topic(prefix: Seq<u8>, rel: Seq<u8>) -> Seq<u8> {
    if prefix.len() == 0 {
        rel
    } else {
        prefix + seq!['/' as u8] + rel
    }
}

/// Joins the device prefix and a relative topic.
pub fn full_topic(prefix: &[u8], rel: &[u8]) -> (r: Vec<u8>)
    ensures
        r@ == spec_full_topic(prefix@, rel@),
{
    let mut r: Vec<u8> = Vec::new();
    if prefix.len() > 0 {
        append_slice(&mut r, prefix);
        r.push('/' as u8);
    }
    append_slice(&mut r, rel);
    proof {
        assert(r@ =~= spec_full_topic(prefix@, rel@));
    }
    r
}

/// Builds the relative topic for an input-channel transition.
pub fn input_rel(channel: u16) -> (r: Vec<u8>)
    ensures
        r@ == spec_input_rel(channel),
{
    let mut r: Vec<u8> = Vec::new();
    r.push('i' as u8);
    r.push('n' as u8);
    r.push('p' as u8);
    r.push('u' as u8);
    r.push('t' as u8);
    r.push('/' as u8);
    push_u16_dec(channel, &mut r);
    proof {
        assert(r@ =~= spec_input_rel(channel));
    }
    r
}

/// Builds the relative topic `"status"`.
pub fn status_rel() -> (r: Vec<u8>)
    ensures
        r@ == lit_status(),
{
    let mut r: Vec<u8> = Vec::new();
    r.push('s' as u8);
    r.push('t' as u8);
    r.push('a' as u8);
    r.push('t' as u8);
    r.push('u' as u8);
    r.push('s' as u8);
    proof {
        assert(r@ =~= lit_status());
    }
    r
}

/// Builds the relative topic `"heartbeat"`.
pub fn heartbeat_rel() -> (r: Vec<u8>)
    ensures
        r@ == lit_heartbeat(),
{
    let mut r: Vec<u8> = Vec::new();
    r.push('h' as u8);
    r.push('e' as u8);
    r.push('a' as u8);
    r.push('r' as u8);
    r.push('t' as u8);
    r.push('b' as u8);
    r.push('e' as u8);
    r.push('a' as u8);
    r.push('t' as u8);
    proof {
        assert(r@ =~= lit_heartbeat());
    }
    r
}

/// Builds the relative subscription filter `"output/+"`.
pub fn output_filter_rel() -> (r: Vec<u8>)
    ensures
        r@ == lit_output_filter(),
{
    let mut r: Vec<u8> = Vec::new();
    r.push('o' as u8);
    r.push('u' as u8);
    r.push('t' as u8);
    r.push('p' as u8);
    r.push('u' as u8);
    r.push('t' as u8);
    r.push('/' as u8);
    r.push('+' as u8);
    proof {
        assert(r@ =~= lit_output_filter());
    }
    r
}

/// Whether an inbound topic has the output-command shape: the device
/// prefix followed by `"/output/"`.
pub open spec fn spec_is_output_topic(prefix: Seq<u8>, topic: Seq<u8>) -> bool {
    spec_starts_with(topic, prefix) && spec_starts_with(
        topic.skip(prefix.len() as int),
        lit_output_infix(),
    )
}

/// Tests an inbound topic for the output-command shape.
pub fn is_output_topic(prefix: &[u8], topic: &[u8]) -> (r: bool)
    ensures
        r == spec_is_output_topic(prefix@, topic@),
{
    if !starts_with(topic, prefix) {
        return false;
    }
    let infix = [
        '/' as u8,
        'o' as u8,
        'u' as u8,
        't' as u8,
        'p' as u8,
        'u' as u8,
        't' as u8,
        '/' as u8,
    ];
    proof {
        assert(infix@ =~= lit_output_infix());
    }
    let rest = slice_skip(topic, prefix.len());
    starts_with(rest, infix.as_slice())
}

/// The channel an inbound topic addresses: the topic must be the device
/// prefix, then `"/output/"`, then a decimal channel number.  Any other
/// topic shape addresses no channel.
pub open spec fn spec_decode_topic(prefix: Seq<u8>, topic: Seq<u8>) -> Option<u16> {
    if spec_is_output_topic(prefix, topic) {
        spec_parse_u16(topic.skip(prefix.len() as int).skip(lit_output_infix().len() as int))
    } else {
        None
    }
}

/// Decodes an inbound topic into the output channel it addresses, if any.
pub fn decode_topic(prefix: &[u8], topic: &[u8]) -> (r: Option<u16>)
    ensures
        r == spec_decode_topic(prefix@, topic@),
{
    if !starts_with(topic, prefix) {
        return None;
    }
    let infix = [
        '/' as u8,
        'o' as u8,
        'u' as u8,
        't' as u8,
        'p' as u8,
        'u' as u8,
        't' as u8,
        '/' as u8,
    ];
    proof {
        assert(infix@ =~= lit_output_infix());
    }
    let plen = prefix.len();
    let rest = slice_skip(topic, plen);
    proof {
        assert(rest@ =~= topic@.skip(plen as int));
    }
    if !starts_with(rest, infix.as_slice()) {
        return None;
    }
    let digits = slice_skip(rest, 8);
    proof {
        assert(digits@ =~= rest@.skip(8));
    }
    parse_u16(digits)
}

/// The device's topic prefix: its name, a slash, and its hardware
/// address.
pub fn device_prefix(name: &[u8], address: &[u8]) -> (r: Vec<u8>)
    ensures
        r@ == name@ + seq!['/' as u8] + address@,
{
    let mut r: Vec<u8> = Vec::new();
    append_slice(&mut r, name);
    r.push('/' as u8);
    append_slice(&mut r, address);
    proof {
        assert(r@ =~= name@ + seq!['/' as u8] + address@);
    }
    r
}

/// Copies every byte of `extra` onto the end of `out`.
fn append_slice(out: &mut Vec<u8>, extra: &[u8])
    ensures
        final(out)@ == old(out)@ + extra@,
{
    for i in 0..extra.len()
        invariant
            out@ == old(out)@ + extra@.take(i as int),
    {
        out.push(extra[i]);
        proof {
            assert(out@ =~= old(out)@ + extra@.take(i + 1));
        }
    }
    proof {
        assert(extra@.take(extra@.len() as int) =~= extra@);
    }
}

/// The tail of `s` from position `from` on.
fn slice_skip(s: &[u8], from: usize) -> (r: &[u8])
    requires
        from <= s@.len(),
    ensures
        r@ == s@.skip(from as int),
{
    let r = &s[from..s.len()];
    proof {
        assert(r@ =~= s@.skip(from as int));
    }
    r
}

} // verus!
