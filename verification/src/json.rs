//! Byte-exact construction of JSON text.
//!
//! Notification bodies are built as UTF-8 byte vectors whose exact contents
//! are pinned by the spec functions here: decimal number tokens, lowercase
//! hex tokens, and JSON string tokens with full escaping.

use vstd::prelude::*;
use vstd::utf8::encode_utf8;
use vstd::string::StringSliceAdditionalSpecFns;

verus! {

/// The ASCII decimal digits of `n`, most significant first, no sign and no
/// leading zeros (`0` itself is the single digit `0`).
pub open spec fn dec_digits(n: nat) -> Seq<u8>
    decreases n,
{
    if n < 10 {
        seq![(0x30 + n) as u8]
    } else {
        dec_digits(n / 10).push((0x30 + n % 10) as u8)
    }
}

/// The lowercase ASCII hex digit for a value below 16.
pub open spec fn hex_digit(d: nat) -> u8 {
    if d < 10 {
        (0x30 + d) as u8
    } else {
        (0x61 + (d - 10)) as u8
    }
}

/// Lowercase hex encoding: two digits per input byte, high digit first,
/// bytes in order.
pub open spec fn hex_bytes(s: Seq<u8>) -> Seq<u8>
    decreases s.len(),
{
    if s.len() == 0 {
        Seq::empty()
    } else {
        hex_bytes(s.drop_last())
            + seq![hex_digit((s.last() / 16) as nat), hex_digit((s.last() % 16) as nat)]
    }
}

/// Whether a byte is an ASCII hex digit, either case.
pub open spec fn is_hex_digit(b: u8) -> bool {
    (0x30 <= b && b <= 0x39) || (0x61 <= b && b <= 0x66) || (0x41 <= b && b <= 0x46)
}

/// The value of an ASCII hex digit.
pub open spec fn hex_val(b: u8) -> nat {
    if 0x30 <= b && b <= 0x39 {
        (b - 0x30) as nat
    } else if 0x61 <= b && b <= 0x66 {
        (b - 0x61 + 10) as nat
    } else if 0x41 <= b && b <= 0x46 {
        (b - 0x41 + 10) as nat
    } else {
        0
    }
}

/// The bytes encoded by a hex text: one byte per digit pair, high digit
/// first.
pub open spec fn decoded_hex(s: Seq<u8>) -> Seq<u8>
    decreases s.len(),
{
    if s.len() < 2 {
        Seq::empty()
    } else {
        decoded_hex(s.drop_last().drop_last())
            + seq![(hex_val(s[s.len() - 2]) * 16 + hex_val(s.last())) as u8]
    }
}

/// How one byte of UTF-8 text appears inside a JSON string token: quote and
/// backslash get a backslash escape, the named control characters get their
/// short escapes, the remaining control bytes get `\u00XX`, and every other
/// byte stands as itself.
pub open spec fn escaped_byte(b: u8) -> Seq<u8> {
    if b == 0x22 {
        seq![0x5cu8, 0x22u8]
    } else if b == 0x5c {
        seq![0x5cu8, 0x5cu8]
    } else if b == 0x08 {
        seq![0x5cu8, 0x62u8]
    } else if b == 0x0c {
        seq![0x5cu8, 0x66u8]
    } else if b == 0x0a {
        seq![0x5cu8, 0x6eu8]
    } else if b == 0x0d {
        seq![0x5cu8, 0x72u8]
    } else if b == 0x09 {
        seq![0x5cu8, 0x74u8]
    } else if b < 0x20 {
        seq![0x5cu8, 0x75u8, 0x30u8, 0x30u8, hex_digit((b / 16) as nat), hex_digit((b % 16) as nat)]
    } else {
        seq![b]
    }
}

/// JSON escaping of a whole byte sequence.
pub open spec fn json_escaped(s: Seq<u8>) -> Seq<u8>
    decreases s.len(),
{
    if s.len() == 0 {
        Seq::empty()
    } else {
        json_escaped(s.drop_last()) + escaped_byte(s.last())
    }
}

/// A JSON string token: double quotes around the escaped text.
pub open spec fn json_string(s: Seq<u8>) -> Seq<u8> {
    seq![0x22u8] + json_escaped(s) + seq![0x22u8]
}

/// A JSON string token of lowercase hex digits.
pub open spec fn hex_string(s: Seq<u8>) -> Seq<u8> {
    seq![0x22u8] + hex_bytes(s) + seq![0x22u8]
}

/// `null` when absent, a JSON string token when present.
pub open spec fn json_opt_string(s: Option<Seq<u8>>) -> Seq<u8> {
    match s {
        Option::Some(b) => json_string(b),
        Option::None => encode_utf8("null"@),
    }
}

/// The UTF-8 bytes of an optional string.
pub open spec fn opt_bytes(s: Option<String>) -> Option<Seq<u8>> {
    match s {
        Option::Some(x) => Option::Some(encode_utf8(x@)),
        Option::None => Option::None,
    }
}

/// Appends a whole byte slice.
pub fn append_bytes(out: &mut Vec<u8>, s: &[u8])
    ensures
        final(out)@ == old(out)@ + s@,
{
    let mut i: usize = 0;
    while i < s.len()
        invariant
            i <= s@.len(),
            out@ == old(out)@ + s@.take(i as int),
        decreases s@.len() - i,
    {
        out.push(s[i]);
        proof {
            assert(s@.take(i + 1) =~= s@.take(i as int).push(s@[i as int]));
            assert(out@ =~= old(out)@ + s@.take(i + 1));
        }
        i += 1;
    }
    proof {
        assert(s@.take(s@.len() as int) =~= s@);
    }
}

/// Appends the UTF-8 bytes of a text fragment.
pub fn append_str(out: &mut Vec<u8>, s: &str)
    ensures
        final(out)@ == old(out)@ + encode_utf8(s@),
{
    append_bytes(out, s.as_bytes());
}

/// Appends the decimal digits of `n`.
pub fn append_u64_dec(out: &mut Vec<u8>, n: u64)
    ensures
        final(out)@ == old(out)@ + dec_digits(n as nat),
    decreases n,
{
    if n >= 10 {
        append_u64_dec(out, n / 10);
        out.push(0x30 + (n % 10) as u8);
    } else {
        out.push(0x30 + n as u8);
    }
    proof {
        assert(out@ =~= old(out)@ + dec_digits(n as nat));
    }
}

/// The lowercase hex digit of a value below 16.
fn hex_digit_exec(d: u8) -> (r: u8)
    requires
        d < 16,
    ensures
        r == hex_digit(d as nat),
{
    if d < 10 {
        0x30 + d
    } else {
        0x61 + (d - 10)
    }
}

/// Appends the lowercase hex encoding of a byte slice.
pub fn append_hex(out: &mut Vec<u8>, s: &[u8])
    ensures
        final(out)@ == old(out)@ + hex_bytes(s@),
{
    let mut i: usize = 0;
    while i < s.len()
        invariant
            i <= s@.len(),
            out@ == old(out)@ + hex_bytes(s@.take(i as int)),
        decreases s@.len() - i,
    {
        let b = s[i];
        out.push(hex_digit_exec(b / 16));
        out.push(hex_digit_exec(b % 16));
        proof {
            assert(s@.take(i + 1).drop_last() =~= s@.take(i as int));
            assert(s@.take(i + 1).last() == s@[i as int]);
            assert(out@ =~= old(out)@ + hex_bytes(s@.take(i + 1)));
        }
        i += 1;
    }
    proof {
        assert(s@.take(s@.len() as int) =~= s@);
    }
}

/// Appends the JSON escape of one byte.
fn append_escaped_byte(out: &mut Vec<u8>, b: u8)
    ensures
        final(out)@ == old(out)@ + escaped_byte(b),
{
    if b == 0x22 {
        out.push(0x5c);
        out.push(0x22);
    } else if b == 0x5c {
        out.push(0x5c);
        out.push(0x5c);
    } else if b == 0x08 {
        out.push(0x5c);
        out.push(0x62);
    } else if b == 0x0c {
        out.push(0x5c);
        out.push(0x66);
    } else if b == 0x0a {
        out.push(0x5c);
        out.push(0x6e);
    } else if b == 0x0d {
        out.push(0x5c);
        out.push(0x72);
    } else if b == 0x09 {
        out.push(0x5c);
        out.push(0x74);
    } else if b < 0x20 {
        out.push(0x5c);
        out.push(0x75);
        out.push(0x30);
        out.push(0x30);
        out.push(hex_digit_exec(b / 16));
        out.push(hex_digit_exec(b % 16));
    } else {
        out.push(b);
    }
    proof {
        assert(out@ =~= old(out)@ + escaped_byte(b));
    }
}

/// Appends a JSON string token holding the escaped bytes of `s`.
pub fn append_json_string_bytes(out: &mut Vec<u8>, s: &[u8])
    ensures
        final(out)@ == old(out)@ + json_string(s@),
{
    out.push(0x22);
    let mut i: usize = 0;
    while i < s.len()
        invariant
            i <= s@.len(),
            out@ == old(out)@ + seq![0x22u8] + json_escaped(s@.take(i as int)),
        decreases s@.len() - i,
    {
        append_escaped_byte(out, s[i]);
        proof {
            assert(s@.take(i + 1).drop_last() =~= s@.take(i as int));
            assert(s@.take(i + 1).last() == s@[i as int]);
            assert(out@ =~= old(out)@ + seq![0x22u8] + json_escaped(s@.take(i + 1)));
        }
        i += 1;
    }
    out.push(0x22);
    proof {
        assert(s@.take(s@.len() as int) =~= s@);
        assert(out@ =~= old(out)@ + json_string(s@));
    }
}

/// Appends a JSON string token holding the escaped UTF-8 bytes of `s`.
pub fn append_json_string(out: &mut Vec<u8>, s: &str)
    ensures
        final(out)@ == old(out)@ + json_string(encode_utf8(s@)),
{
    append_json_string_bytes(out, s.as_bytes());
}

/// The value of one hex digit byte, when it is one.
fn hex_val_exec(b: u8) -> (r: Option<u8>)
    ensures
        r is Some <==> is_hex_digit(b),
        r is Some ==> r->0 == hex_val(b),
{
    if 0x30 <= b && b <= 0x39 {
        Option::Some(b - 0x30)
    } else if 0x61 <= b && b <= 0x66 {
        Option::Some(b - 0x61 + 10)
    } else if 0x41 <= b && b <= 0x46 {
        Option::Some(b - 0x41 + 10)
    } else {
        Option::None
    }
}

/// Parses hex text into the bytes it encodes. Succeeds exactly on
/// even-length input made of hex digits of either case; fails on everything
/// else.
pub fn parse_hex(s: &str) -> (r: Option<Vec<u8>>)
    ensures
        r is Some <==> (encode_utf8(s@).len() % 2 == 0 && (forall|i: int|
            0 <= i < encode_utf8(s@).len() ==> is_hex_digit(encode_utf8(s@)[i]))),
        r is Some ==> r->0@ == decoded_hex(encode_utf8(s@)),
{
    let bytes = s.as_bytes();
    if bytes.len() % 2 != 0 {
        return Option::None;
    }
    let mut out: Vec<u8> = Vec::new();
    let mut i: usize = 0;
    while i < bytes.len()
        invariant
            bytes@ == encode_utf8(s@),
            i <= bytes@.len(),
            i % 2 == 0,
            bytes@.len() % 2 == 0,
            forall|j: int| 0 <= j < i ==> is_hex_digit(bytes@[j]),
            out@ == decoded_hex(bytes@.take(i as int)),
        decreases bytes@.len() - i,
    {
        let hi = match hex_val_exec(bytes[i]) {
            Option::Some(v) => v,
            Option::None => {
                return Option::None;
            },
        };
        let lo = match hex_val_exec(bytes[i + 1]) {
            Option::Some(v) => v,
            Option::None => {
                return Option::None;
            },
        };
        out.push(hi * 16 + lo);
        proof {
            assert(bytes@.take(i + 2).drop_last().drop_last() =~= bytes@.take(i as int));
            assert(bytes@.take(i + 2)[i + 2 - 2] == bytes@[i as int]);
            assert(bytes@.take(i + 2).last() == bytes@[i + 1]);
            assert(out@ =~= decoded_hex(bytes@.take(i + 2)));
        }
        i += 2;
    }
    proof {
        assert(bytes@.take(bytes@.len() as int) =~= bytes@);
    }
    Option::Some(out)
}

/// A hex digit token is a hex digit and carries its value.
proof fn lemma_hex_digit_val(d: nat)
    requires
        d < 16,
    ensures
        is_hex_digit(hex_digit(d)),
        hex_val(hex_digit(d)) == d,
{
}

/// Law (hex round trip): encoding then parsing gives the bytes back — the
/// encoder's output has two digits per byte, every one a hex digit, and it
/// decodes to exactly the encoder's input.
pub proof fn lemma_hex_round_trip(v: Seq<u8>)
    ensures
        hex_bytes(v).len() == 2 * v.len(),
        forall|i: int| 0 <= i < hex_bytes(v).len() ==> is_hex_digit(hex_bytes(v)[i]),
        decoded_hex(hex_bytes(v)) == v,
    decreases v.len(),
{
    if v.len() == 0 {
        assert(decoded_hex(hex_bytes(v)) =~= v);
    } else {
        lemma_hex_round_trip(v.drop_last());
        let hb = hex_bytes(v);
        let prefix = hex_bytes(v.drop_last());
        let b = v.last();
        lemma_hex_digit_val((b / 16) as nat);
        lemma_hex_digit_val((b % 16) as nat);
        assert(hb.drop_last().drop_last() =~= prefix);
        assert(hb[hb.len() - 2] == hex_digit((b / 16) as nat));
        assert(hb.last() == hex_digit((b % 16) as nat));
        assert forall|i: int| 0 <= i < hb.len() implies is_hex_digit(hb[i]) by {
            if i < hb.len() - 2 {
                assert(hb[i] == prefix[i]);
            }
        }
        assert((hex_val(hb[hb.len() - 2]) * 16 + hex_val(hb.last())) as u8 == b);
        assert(decoded_hex(hb) =~= v);
    }
}

/// Appends `null` or a JSON string token.
pub fn append_json_opt_string(out: &mut Vec<u8>, s: &Option<String>)
    ensures
        final(out)@ == old(out)@ + json_opt_string(opt_bytes(*s)),
{
    match s {
        Option::Some(x) => append_json_string(out, x.as_str()),
        Option::None => append_str(out, "null"),
    }
}

} // verus!
