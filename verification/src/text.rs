//! Small verified text-building helpers: decimal rendering, character
//! prefixes, the oversized-line placeholder, and the diagnostic side-channel
//! line that the host writes to standard error.

use vstd::math::min;
use vstd::prelude::*;
use vstd::std_specs::iter::IteratorSpec;
use vstd::string::StringExecFns;
use vstd::utf8::encode_utf8;

verus! {

/// Relies on `String::push`: appends one character.
#[verifier::external_body]
pub(crate) fn push_char(s: &mut String, c: char)
    ensures
        final(s)@ == old(s)@.push(c),
{
    s.push(c);
}

pub open spec fn dec_digit_char(d: nat) -> char {
    if d == 0 {
        '0'
    } else if d == 1 {
        '1'
    } else if d == 2 {
        '2'
    } else if d == 3 {
        '3'
    } else if d == 4 {
        '4'
    } else if d == 5 {
        '5'
    } else if d == 6 {
        '6'
    } else if d == 7 {
        '7'
    } else if d == 8 {
        '8'
    } else {
        '9'
    }
}

/// The decimal digits of `n`, most significant first.
pub open spec fn dec_chars(n: nat) -> Seq<char>
    decreases n,
{
    if n < 10 {
        seq![dec_digit_char(n)]
    } else {
        dec_chars(n / 10) + seq![dec_digit_char(n % 10)]
    }
}

fn dec_digit(d: u64) -> (c: char)
    requires
        d < 10,
    ensures
        c == dec_digit_char(d as nat),
{
    match d {
        0 => '0',
        1 => '1',
        2 => '2',
        3 => '3',
        4 => '4',
        5 => '5',
        6 => '6',
        7 => '7',
        8 => '8',
        _ => '9',
    }
}

/// Appends the decimal rendering of `n` to `out`.
pub fn push_decimal(out: &mut String, n: u64)
    ensures
        final(out)@ == old(out)@ + dec_chars(n as nat),
    decreases n,
{
    if n >= 10 {
        push_decimal(out, n / 10);
    }
    push_char(out, dec_digit(n % 10));
    assert(final(out)@ == old(out)@ + dec_chars(n as nat)) by {
        assert(old(out)@ + dec_chars(n as nat) =~= if n < 10 {
            old(out)@ + seq![dec_digit_char(n as nat)]
        } else {
            (old(out)@ + dec_chars((n / 10) as nat)).push(dec_digit_char((n % 10) as nat))
        });
    }
}

/// The first `k` characters of `s` (all of `s` when it is shorter).
pub fn char_prefix(s: &str, k: usize) -> (r: String)
    ensures
        r@ == s@.take(min(k as int, s@.len() as int)),
{
    broadcast use vstd::string::next_postcondition, vstd::string::axiom_spec_iter;

    let mut it = s.chars();
    let mut out = String::new();
    let mut n: usize = 0;
    loop
        invariant_except_break
            n <= k,
            n <= s@.len(),
            out@ == s@.take(n as int),
            it.obeys_prophetic_iter_laws(),
            it.remaining() == s@.skip(n as int),
        ensures
            out@ == s@.take(min(k as int, s@.len() as int)),
        decreases k - n,
    {
        if n >= k {
            proof {
                assert(s@.take(k as int) == s@.take(min(k as int, s@.len() as int)));
            }
            break;
        }
        match it.next() {
            Option::Some(c) => {
                proof {
                    assert(s@.skip(n as int)[0] == s@[n as int]);
                    assert(s@.skip(n as int).drop_first() =~= s@.skip(n + 1 as int));
                    assert(s@.take(n as int).push(s@[n as int]) =~= s@.take(n + 1 as int));
                }
                push_char(&mut out, c);
                n += 1;
            },
            Option::None => {
                proof {
                    assert(n == s@.len());
                    assert(s@.take(n as int) == s@.take(min(k as int, s@.len() as int)));
                }
                break;
            },
        }
    }
    out
}

/// How many characters of an oversized line the placeholder keeps.
pub const OVERSIZE_PREFIX_CHARS: usize = 1000;

/// What replaces a line whose byte length exceeds the size threshold: a
/// diagnostic naming the original byte length and keeping a bounded prefix.
pub open spec fn oversize_placeholder(line: Seq<char>) -> Seq<char> {
    "oversized log line of "@ + dec_chars(encode_utf8(line).len()) + " bytes, starts with: "@
        + line.take(min(OVERSIZE_PREFIX_CHARS as int, line.len() as int)) + "\n"@
}

/// Builds the placeholder for an oversized line.
pub fn build_oversize_placeholder(line: &str) -> (r: String)
    ensures
        r@ == oversize_placeholder(line@),
{
    broadcast use vstd::slice::axiom_spec_len;

    let byte_len = line.as_bytes().len();
    assert(byte_len == encode_utf8(line@).len());
    let mut out = String::new();
    out.append("oversized log line of ");
    push_decimal(&mut out, byte_len as u64);
    out.append(" bytes, starts with: ");
    let prefix = char_prefix(line, OVERSIZE_PREFIX_CHARS);
    out.append(prefix.as_str());
    out.append("\n");
    assert(out@ =~= oversize_placeholder(line@));
    out
}

/// One line for the host's diagnostic side channel. Internal failures are
/// reported through it (the host prints it to standard error) so that they
/// never re-enter the logger itself.
pub fn diagnostic_line(message: &str) -> (r: String)
    ensures
        r@ == "compressed-log: "@ + message@ + "\n"@,
{
    let mut out = String::new();
    out.append("compressed-log: ");
    out.append(message);
    out.append("\n");
    assert(out@ =~= "compressed-log: "@ + message@ + "\n"@);
    out
}

} // verus!
