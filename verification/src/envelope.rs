//! The wire envelope for plaintext batches: a JSON object `{"logs":[...]}`
//! holding the batch's lines in order. The encoder produces the envelope
//! bytes; a specification-level parser defines what the envelope means, and
//! the round-trip law proves that parsing an encoded envelope yields back
//! exactly the lines that were sealed.

use vstd::prelude::*;
use vstd::utf8::{decode_utf8, encode_utf8, valid_utf8};

verus! {

pub const QUOTE: u8 = 0x22;
pub const BACKSLASH: u8 = 0x5c;
pub const COMMA: u8 = 0x2c;
pub const LBRACE: u8 = 0x7b;
pub const RBRACE: u8 = 0x7d;
pub const LBRACKET: u8 = 0x5b;
pub const RBRACKET: u8 = 0x5d;
pub const LOWER_U: u8 = 0x75;
pub const DIGIT_ZERO: u8 = 0x30;

/// The ASCII byte of the lowercase hexadecimal digit for `d`.
pub open spec fn hex_digit_char(d: u8) -> u8 {
    if d < 10 {
        (0x30 + d) as u8
    } else {
        (0x57 + d) as u8
    }
}

pub open spec fn is_hex_digit(b: u8) -> bool {
    (0x30 <= b && b <= 0x39) || (0x61 <= b && b <= 0x66)
}

/// The value of a lowercase hexadecimal digit byte.
pub open spec fn hex_val(b: u8) -> u8 {
    if b >= 0x61 {
        (b - 0x57) as u8
    } else {
        (b - 0x30) as u8
    }
}

/// How one byte of a line appears inside a JSON string literal: quotes and
/// backslashes are escaped, control bytes become `\u00xx`, everything else
/// (including UTF-8 continuation bytes) passes through.
pub open spec fn escape_byte(b: u8) -> Seq<u8> {
    if b == QUOTE {
        seq![BACKSLASH, QUOTE]
    } else if b == BACKSLASH {
        seq![BACKSLASH, BACKSLASH]
    } else if b < 0x20 {
        seq![BACKSLASH, LOWER_U, DIGIT_ZERO, DIGIT_ZERO, hex_digit_char(b / 16), hex_digit_char(b % 16)]
    } else {
        seq![b]
    }
}

pub open spec fn escape_bytes(s: Seq<u8>) -> Seq<u8>
    decreases s.len(),
{
    if s.len() == 0 {
        Seq::empty()
    } else {
        escape_byte(s[0]) + escape_bytes(s.skip(1))
    }
}

/// A JSON string literal: the escaped bytes between two quotes.
pub open spec fn quoted(s: Seq<u8>) -> Seq<u8> {
    seq![QUOTE] + escape_bytes(s) + seq![QUOTE]
}

/// The comma-separated JSON string literals of the lines, without brackets.
pub open spec fn joined(lines: Seq<Seq<u8>>) -> Seq<u8>
    decreases lines.len(),
{
    if lines.len() == 0 {
        Seq::empty()
    } else if lines.len() == 1 {
        quoted(lines[0])
    } else {
        quoted(lines[0]) + seq![COMMA] + joined(lines.skip(1))
    }
}

/// The bytes of `{"logs":[`.
pub open spec fn envelope_prefix() -> Seq<u8> {
    seq![LBRACE, QUOTE, 0x6cu8, 0x6fu8, 0x67u8, 0x73u8, QUOTE, 0x3au8, LBRACKET]
}

/// The whole envelope over already-encoded byte lines.
pub open spec fn envelope_of_byte_lines(lines: Seq<Seq<u8>>) -> Seq<u8> {
    envelope_prefix() + joined(lines) + seq![RBRACKET, RBRACE]
}

/// The envelope's bytes for a batch of lines.
pub open spec fn envelope_bytes(lines: Seq<Seq<char>>) -> Seq<u8> {
    envelope_of_byte_lines(lines.map_values(|l: Seq<char>| encode_utf8(l)))
}

pub proof fn lemma_escape_bytes_push(s: Seq<u8>, b: u8)
    ensures
        escape_bytes(s.push(b)) == escape_bytes(s) + escape_byte(b),
    decreases s.len(),
{
    if s.len() == 0 {
        assert(s.push(b)[0] == b);
        assert(s.push(b).skip(1) =~= Seq::<u8>::empty());
        assert(escape_bytes(s) == Seq::<u8>::empty());
        assert(escape_bytes(s.push(b)) == escape_byte(b) + escape_bytes(s.push(b).skip(1)));
        assert(escape_bytes(s.push(b).skip(1)) == Seq::<u8>::empty());
        assert(escape_bytes(s.push(b)) =~= escape_bytes(s) + escape_byte(b));
    } else {
        assert(s.push(b)[0] == s[0]);
        assert(s.push(b).skip(1) =~= s.skip(1).push(b));
        lemma_escape_bytes_push(s.skip(1), b);
        assert(escape_bytes(s.push(b)) == escape_byte(s[0]) + (escape_bytes(s.skip(1))
            + escape_byte(b)));
        assert(escape_bytes(s.push(b)) =~= escape_bytes(s) + escape_byte(b));
    }
}

pub proof fn lemma_joined_push(lines: Seq<Seq<u8>>, l: Seq<u8>)
    ensures
        lines.len() == 0 ==> joined(lines.push(l)) == quoted(l),
        lines.len() > 0 ==> joined(lines.push(l)) == joined(lines) + seq![COMMA] + quoted(l),
    decreases lines.len(),
{
    if lines.len() == 0 {
        assert(joined(lines.push(l)) =~= quoted(l));
    } else if lines.len() == 1 {
        assert(lines.push(l)[0] == lines[0]);
        assert(lines.push(l).skip(1) =~= lines.skip(1).push(l));
        assert(lines.skip(1).push(l).len() == 1);
        assert(lines.skip(1).push(l)[0] == l);
        assert(joined(lines.push(l)) == quoted(lines[0]) + seq![COMMA] + joined(
            lines.skip(1).push(l),
        ));
        assert(joined(lines.skip(1).push(l)) == quoted(l));
        assert(joined(lines) == quoted(lines[0]));
        assert(joined(lines.push(l)) =~= joined(lines) + seq![COMMA] + quoted(l));
    } else {
        assert(lines.push(l)[0] == lines[0]);
        assert(lines.push(l).skip(1) =~= lines.skip(1).push(l));
        lemma_joined_push(lines.skip(1), l);
        assert(joined(lines.push(l)) == quoted(lines[0]) + seq![COMMA] + (joined(lines.skip(1))
            + seq![COMMA] + quoted(l)));
        assert(joined(lines.push(l)) =~= joined(lines) + seq![COMMA] + quoted(l));
    }
}

/// The value of a two-digit lowercase hexadecimal escape.
pub open spec fn hex_val2(hi: u8, lo: u8) -> u8 {
    (16 * hex_val(hi) + hex_val(lo)) as u8
}

/// Parses the body of a JSON string literal, after its opening quote:
/// the unescaped content and the remainder after the closing quote.
pub open spec fn parse_qstr(b: Seq<u8>) -> Option<(Seq<u8>, Seq<u8>)>
    decreases b.len(),
{
    if b.len() == 0 {
        Option::None
    } else if b[0] == QUOTE {
        Option::Some((Seq::empty(), b.skip(1)))
    } else if b[0] == BACKSLASH {
        if b.len() >= 2 && (b[1] == QUOTE || b[1] == BACKSLASH) {
            match parse_qstr(b.skip(2)) {
                Option::Some((s, r)) => Option::Some((seq![b[1]] + s, r)),
                Option::None => Option::None,
            }
        } else if b.len() >= 6 && b[1] == LOWER_U && b[2] == DIGIT_ZERO && b[3] == DIGIT_ZERO
            && is_hex_digit(b[4]) && is_hex_digit(b[5]) && hex_val2(b[4], b[5]) < 0x20 {
            match parse_qstr(b.skip(6)) {
                Option::Some((s, r)) => Option::Some((seq![hex_val2(b[4], b[5])] + s, r)),
                Option::None => Option::None,
            }
        } else {
            Option::None
        }
    } else if b[0] >= 0x20 {
        match parse_qstr(b.skip(1)) {
            Option::Some((s, r)) => Option::Some((seq![b[0]] + s, r)),
            Option::None => Option::None,
        }
    } else {
        Option::None
    }
}

pub proof fn lemma_parse_qstr_shrinks(b: Seq<u8>)
    ensures
        parse_qstr(b) matches Option::Some(p) ==> p.1.len() < b.len(),
    decreases b.len(),
{
    if b.len() == 0 {
    } else if b[0] == QUOTE {
    } else if b[0] == BACKSLASH {
        if b.len() >= 2 && (b[1] == QUOTE || b[1] == BACKSLASH) {
            lemma_parse_qstr_shrinks(b.skip(2));
        } else if b.len() >= 6 && b[1] == LOWER_U && b[2] == DIGIT_ZERO && b[3] == DIGIT_ZERO
            && is_hex_digit(b[4]) && is_hex_digit(b[5]) && hex_val2(b[4], b[5]) < 0x20 {
            lemma_parse_qstr_shrinks(b.skip(6));
        }
    } else if b[0] >= 0x20 {
        lemma_parse_qstr_shrinks(b.skip(1));
    }
}

/// Parses the elements of the JSON array, after its opening bracket: the
/// element contents and the remainder after the closing bracket.
pub open spec fn parse_elems(b: Seq<u8>) -> Option<(Seq<Seq<u8>>, Seq<u8>)>
    decreases b.len(),
    via parse_elems_decreases
{
    if b.len() == 0 {
        Option::None
    } else if b[0] == RBRACKET {
        Option::Some((Seq::empty(), b.skip(1)))
    } else if b[0] == QUOTE {
        match parse_qstr(b.skip(1)) {
            Option::None => Option::None,
            Option::Some((s, rest)) => if rest.len() >= 1 && rest[0] == COMMA {
                match parse_elems(rest.skip(1)) {
                    Option::None => Option::None,
                    Option::Some((ss, r2)) => Option::Some((seq![s] + ss, r2)),
                }
            } else if rest.len() >= 1 && rest[0] == RBRACKET {
                Option::Some((seq![s], rest.skip(1)))
            } else {
                Option::None
            },
        }
    } else {
        Option::None
    }
}

#[via_fn]
proof fn parse_elems_decreases(b: Seq<u8>) {
    if b.len() > 0 && b[0] == QUOTE {
        lemma_parse_qstr_shrinks(b.skip(1));
    }
}

/// Parses a whole envelope into its (still escaped-then-unescaped) byte lines.
pub open spec fn parse_envelope(b: Seq<u8>) -> Option<Seq<Seq<u8>>> {
    if b.len() >= 9 && b.take(9) == envelope_prefix() {
        match parse_elems(b.skip(9)) {
            Option::Some((elems, rest)) => if rest == seq![RBRACE] {
                Option::Some(elems)
            } else {
                Option::None
            },
            Option::None => Option::None,
        }
    } else {
        Option::None
    }
}

/// Parses a whole envelope and decodes each line from UTF-8.
pub open spec fn parse_envelope_lines(b: Seq<u8>) -> Option<Seq<Seq<char>>> {
    match parse_envelope(b) {
        Option::Some(elems) => if forall|i: int| 0 <= i < elems.len() ==> valid_utf8(#[trigger] elems[i]) {
            Option::Some(elems.map_values(|e: Seq<u8>| decode_utf8(e)))
        } else {
            Option::None
        },
        Option::None => Option::None,
    }
}

fn hex_digit(d: u8) -> (r: u8)
    requires
        d < 16,
    ensures
        r == hex_digit_char(d),
{
    if d < 10 {
        0x30 + d
    } else {
        0x57 + d
    }
}

/// Appends the escaped form of `bs` to `out`.
fn push_escaped(out: &mut Vec<u8>, bs: &[u8])
    ensures
        final(out)@ == old(out)@ + escape_bytes(bs@),
{
    let ghost orig = out@;
    let mut j: usize = 0;
    while j < bs.len()
        invariant
            j <= bs.len(),
            out@ == orig + escape_bytes(bs@.take(j as int)),
        decreases bs.len() - j,
    {
        let b = bs[j];
        proof {
            lemma_escape_bytes_push(bs@.take(j as int), b);
            assert(bs@.take(j as int).push(b) =~= bs@.take(j + 1 as int));
        }
        if b == QUOTE || b == BACKSLASH {
            out.push(BACKSLASH);
            out.push(b);
        } else if b < 0x20 {
            out.push(BACKSLASH);
            out.push(LOWER_U);
            out.push(DIGIT_ZERO);
            out.push(DIGIT_ZERO);
            out.push(hex_digit(b / 16));
            out.push(hex_digit(b % 16));
        } else {
            out.push(b);
        }
        assert(out@ =~= orig + escape_bytes(bs@.take(j + 1 as int)));
        j += 1;
    }
    assert(bs@.take(bs.len() as int) =~= bs@);
}

/// Builds the JSON envelope `{"logs":[...]}` holding the lines in order.
pub fn encode_envelope(lines: &Vec<String>) -> (r: Vec<u8>)
    ensures
        r@ == envelope_bytes(lines.deep_view()),
{
    let ghost byte_lines = lines.deep_view().map_values(|l: Seq<char>| encode_utf8(l));
    let mut out: Vec<u8> = Vec::new();
    out.push(LBRACE);
    out.push(QUOTE);
    out.push(0x6c);
    out.push(0x6f);
    out.push(0x67);
    out.push(0x73);
    out.push(QUOTE);
    out.push(0x3a);
    out.push(LBRACKET);
    assert(out@ =~= envelope_prefix());
    let mut i: usize = 0;
    while i < lines.len()
        invariant
            i <= lines.len(),
            byte_lines == lines.deep_view().map_values(|l: Seq<char>| encode_utf8(l)),
            out@ == envelope_prefix() + joined(byte_lines.take(i as int)),
        decreases lines.len() - i,
    {
        if i > 0 {
            out.push(COMMA);
        }
        out.push(QUOTE);
        let line: &String = &lines[i];
        push_escaped(&mut out, line.as_str().as_bytes());
        out.push(QUOTE);
        proof {
            assert(lines.deep_view()[i as int] == line@);
            assert(byte_lines[i as int] == encode_utf8(line@));
            lemma_joined_push(byte_lines.take(i as int), byte_lines[i as int]);
            assert(byte_lines.take(i as int).push(byte_lines[i as int]) =~= byte_lines.take(
                i + 1 as int,
            ));
            assert(out@ =~= envelope_prefix() + joined(byte_lines.take(i + 1 as int)));
        }
        i += 1;
    }
    out.push(RBRACKET);
    out.push(RBRACE);
    proof {
        assert(byte_lines.take(lines.len() as int) =~= byte_lines);
        assert(out@ =~= envelope_bytes(lines.deep_view()));
    }
    out
}

/// Unescaping inverts escaping: a string literal's body parses back to the
/// bytes it was built from, wherever it stands in the envelope.
pub proof fn lemma_parse_escaped(s: Seq<u8>, rest: Seq<u8>)
    ensures
        parse_qstr(escape_bytes(s) + seq![QUOTE] + rest) == Option::Some((s, rest)),
    decreases s.len(),
{
    let b = escape_bytes(s) + seq![QUOTE] + rest;
    if s.len() == 0 {
        assert(escape_bytes(s) == Seq::<u8>::empty());
        assert(b[0] == QUOTE);
        assert(b.skip(1) =~= rest);
        assert(s =~= Seq::<u8>::empty());
    } else {
        let s0 = s[0];
        let tail = escape_bytes(s.skip(1)) + seq![QUOTE] + rest;
        assert(escape_bytes(s) == escape_byte(s0) + escape_bytes(s.skip(1)));
        assert(b =~= escape_byte(s0) + tail);
        lemma_parse_escaped(s.skip(1), rest);
        if s0 == QUOTE || s0 == BACKSLASH {
            assert(escape_byte(s0) == seq![BACKSLASH, s0]);
            assert(b.len() >= 2 && b[0] == BACKSLASH && b[1] == s0);
            assert(b.skip(2) =~= tail);
            assert(seq![b[1]] + s.skip(1) =~= s);
        } else if s0 < 0x20 {
            let hi = hex_digit_char(s0 / 16);
            let lo = hex_digit_char(s0 % 16);
            assert(escape_byte(s0) == seq![BACKSLASH, LOWER_U, DIGIT_ZERO, DIGIT_ZERO, hi, lo]);
            assert(b.len() >= 6);
            assert(b[0] == BACKSLASH && b[1] == LOWER_U && b[2] == DIGIT_ZERO && b[3] == DIGIT_ZERO
                && b[4] == hi && b[5] == lo);
            assert(s0 / 16 < 16 && s0 % 16 < 16);
            assert(is_hex_digit(hi) && is_hex_digit(lo));
            assert(hex_val(hi) == s0 / 16 && hex_val(lo) == s0 % 16);
            assert(hex_val2(hi, lo) == s0);
            assert(b.skip(6) =~= tail);
            assert(seq![hex_val2(b[4], b[5])] + s.skip(1) =~= s);
        } else {
            assert(escape_byte(s0) == seq![s0]);
            assert(b[0] == s0);
            assert(b.skip(1) =~= tail);
            assert(seq![b[0]] + s.skip(1) =~= s);
        }
    }
}

/// The array body parses back to the lines it was joined from.
pub proof fn lemma_parse_joined(lines: Seq<Seq<u8>>, rest: Seq<u8>)
    ensures
        parse_elems(joined(lines) + seq![RBRACKET] + rest) == Option::Some((lines, rest)),
    decreases lines.len(),
{
    let b = joined(lines) + seq![RBRACKET] + rest;
    if lines.len() == 0 {
        assert(joined(lines) == Seq::<u8>::empty());
        assert(b[0] == RBRACKET);
        assert(b.skip(1) =~= rest);
        assert(lines =~= Seq::<Seq<u8>>::empty());
    } else if lines.len() == 1 {
        let after = seq![RBRACKET] + rest;
        assert(b =~= seq![QUOTE] + (escape_bytes(lines[0]) + seq![QUOTE] + after));
        assert(b[0] == QUOTE);
        assert(b.skip(1) =~= escape_bytes(lines[0]) + seq![QUOTE] + after);
        lemma_parse_escaped(lines[0], after);
        assert(after[0] == RBRACKET);
        assert(after.skip(1) =~= rest);
        assert(seq![lines[0]] =~= lines);
    } else {
        let after = seq![COMMA] + (joined(lines.skip(1)) + seq![RBRACKET] + rest);
        assert(b =~= seq![QUOTE] + (escape_bytes(lines[0]) + seq![QUOTE] + after));
        assert(b[0] == QUOTE);
        assert(b.skip(1) =~= escape_bytes(lines[0]) + seq![QUOTE] + after);
        lemma_parse_escaped(lines[0], after);
        assert(after[0] == COMMA);
        assert(after.skip(1) =~= joined(lines.skip(1)) + seq![RBRACKET] + rest);
        lemma_parse_joined(lines.skip(1), rest);
        assert(seq![lines[0]] + lines.skip(1) =~= lines);
    }
}

/// The round-trip law for the envelope itself, over already-encoded lines.
pub proof fn lemma_parse_envelope(lines: Seq<Seq<u8>>)
    ensures
        parse_envelope(envelope_of_byte_lines(lines)) == Option::Some(lines),
{
    let b = envelope_of_byte_lines(lines);
    assert(b.len() >= 9 + 2);
    assert(b.take(9) =~= envelope_prefix());
    assert(b.skip(9) =~= joined(lines) + seq![RBRACKET] + seq![RBRACE]);
    lemma_parse_joined(lines, seq![RBRACE]);
}

/// The sealed envelope of any batch of lines parses back to exactly those
/// lines, in order: decompress-and-parse after `Seal` recovers the batch.
pub proof fn lemma_envelope_round_trip(lines: Seq<Seq<char>>)
    ensures
        parse_envelope_lines(envelope_bytes(lines)) == Option::Some(lines),
{
    broadcast use vstd::utf8::encode_utf8_valid_utf8, vstd::utf8::encode_utf8_decode_utf8;

    let byte_lines = lines.map_values(|l: Seq<char>| encode_utf8(l));
    lemma_parse_envelope(byte_lines);
    assert(forall|i: int| 0 <= i < byte_lines.len() ==> valid_utf8(#[trigger] byte_lines[i]));
    assert(byte_lines.map_values(|e: Seq<u8>| decode_utf8(e)) =~= lines);
}

} // verus!
