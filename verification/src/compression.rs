//! Compression strategies and the batch codec: lines accumulate uncompressed
//! and are sealed into a `FinishValue` batch, zlib-compressing the JSON
//! envelope unless the strategy is `Compression::Off`.

use crate::builder::LoggerError;
use crate::envelope::{encode_envelope, lemma_envelope_round_trip, parse_envelope_lines};
use crate::logger::{CompressedLogs, PlaintextLogs};
use std::io::Write;
use vstd::prelude::*;
use vstd::utf8::encode_utf8;

verus! {

/// How a sealed batch is compressed. Levels map to zlib levels 0 through 9.
#[derive(Copy, Clone, Eq, PartialEq, Structural, Debug)]
pub enum Compression {
    /// Batches are sealed as plaintext.
    Off,
    /// zlib level 1.
    Fast,
    /// zlib level 9.
    Slow,
    /// An explicit zlib level; only 0 through 9 are accepted at build time.
    Level(u32),
    /// The compression library's own default level.
    Suggested,
}

/// Relies on flate2's `Compression::default`, whose level is 6.
#[verifier::external_body]
fn suggested_level() -> (r: u32)
    ensures
        r == 6,
{
    flate2::Compression::default().level()
}

impl Compression {
    /// The zlib level this strategy stands for.
    pub open spec fn spec_level(self) -> u32 {
        match self {
            Compression::Off => 0,
            Compression::Fast => 1,
            Compression::Slow => 9,
            Compression::Level(value) => value,
            Compression::Suggested => 6,
        }
    }

    /// A strategy is valid when its level is a zlib level.
    pub open spec fn wf(self) -> bool {
        self.spec_level() <= 9
    }

    pub fn to_level(self) -> (r: u32)
        ensures
            r == self.spec_level(),
    {
        match self {
            Compression::Fast => 1,
            Compression::Slow => 9,
            Compression::Level(value) => value,
            Compression::Suggested => suggested_level(),
            Compression::Off => 0,
        }
    }
}

/// What a zlib stream inflates to, if it is one; a function of the bytes alone.
pub uninterp spec fn zlib_inflate_of(b: Seq<u8>) -> Option<Seq<u8>>;

/// Relies on flate2's `ZlibEncoder` (`new`, `write_all`, `finish`): the
/// produced zlib stream inflates back to exactly the input bytes.
#[verifier::external_body]
fn zlib_compress(data: &[u8], level: u32) -> (r: Option<Vec<u8>>)
    requires
        level <= 9,
    ensures
        r matches Option::Some(out) ==> zlib_inflate_of(out@) == Option::Some(data@),
{
    let mut encoder = flate2::write::ZlibEncoder::new(Vec::new(), flate2::Compression::new(level));
    if encoder.write_all(data).is_err() {
        return None;
    }
    encoder.finish().ok()
}

/// A sealed batch, ready for delivery.
#[derive(Clone, Debug)]
pub enum FinishValue {
    Compressed(CompressedLogs),
    Uncompressed(PlaintextLogs),
}

/// The lines a sealed batch stands for: a plaintext batch holds them
/// directly; a compressed batch holds them as the inflatable envelope.
pub open spec fn batch_lines_of(b: FinishValue) -> Option<Seq<Seq<char>>> {
    match b {
        FinishValue::Uncompressed(p) => Option::Some(p.logs.deep_view()),
        FinishValue::Compressed(c) => match zlib_inflate_of(c.compressed_plaintext_logs@) {
            Option::Some(bytes) => parse_envelope_lines(bytes),
            Option::None => Option::None,
        },
    }
}

/// The byte length of a line's UTF-8 form.
pub open spec fn line_bytes(l: Seq<char>) -> nat {
    encode_utf8(l).len()
}

/// The total uncompressed byte count of a batch's lines.
pub open spec fn total_bytes(lines: Seq<Seq<char>>) -> nat
    decreases lines.len(),
{
    if lines.len() == 0 {
        0
    } else {
        total_bytes(lines.drop_last()) + line_bytes(lines.last())
    }
}

/// `total_bytes`, saturated at the machine's limit; this is what the codec's
/// size counter holds.
pub open spec fn counted_bytes(lines: Seq<Seq<char>>) -> nat {
    if total_bytes(lines) <= usize::MAX as nat {
        total_bytes(lines)
    } else {
        usize::MAX as nat
    }
}

/// The codec: accumulates formatted lines and their uncompressed size, and
/// seals them into a batch. Always used under the logger's exclusive access.
pub struct Encoder {
    compression: Compression,
    uncompressed_buffer: Vec<String>,
    uncompressed_bytes: usize,
}

impl Encoder {
    /// The accumulated lines, in order of arrival.
    pub closed spec fn lines(self) -> Seq<Seq<char>> {
        self.uncompressed_buffer.deep_view()
    }

    /// The compression strategy the batch will be sealed with.
    pub closed spec fn strategy(self) -> Compression {
        self.compression
    }

    /// The accumulated uncompressed byte count.
    pub closed spec fn size(self) -> nat {
        self.uncompressed_bytes as nat
    }

    /// The codec's invariant: a valid strategy, and a size counter that is
    /// the (saturated) total of its lines' byte lengths.
    pub open spec fn wf(self) -> bool {
        &&& self.strategy().wf()
        &&& self.size() == counted_bytes(self.lines())
    }

    pub fn new(level: Compression) -> (r: Encoder)
        requires
            level.wf(),
        ensures
            r.wf(),
            r.lines() == Seq::<Seq<char>>::empty(),
            r.size() == 0,
            r.strategy() == level,
    {
        let e = Encoder { compression: level, uncompressed_buffer: Vec::new(), uncompressed_bytes: 0 };
        proof {
            assert(e.lines() =~= Seq::<Seq<char>>::empty());
        }
        e
    }

    /// How many lines the codec holds.
    pub fn len(&self) -> (r: usize)
        ensures
            r == self.lines().len(),
    {
        self.uncompressed_buffer.len()
    }

    pub fn is_empty(&self) -> (r: bool)
        ensures
            r == (self.lines().len() == 0),
    {
        self.uncompressed_buffer.is_empty()
    }

    /// Appends one line and counts its uncompressed bytes (saturating at the
    /// machine's limit, which is far past any sane threshold).
    pub fn add_line(&mut self, line: String)
        requires
            old(self).wf(),
        ensures
            final(self).wf(),
            final(self).lines() == old(self).lines().push(line@),
            final(self).strategy() == old(self).strategy(),
            final(self).size() == if old(self).size() + line_bytes(line@) <= usize::MAX as nat {
                old(self).size() + line_bytes(line@)
            } else {
                usize::MAX as nat
            },
    {
        broadcast use vstd::slice::axiom_spec_len;

        let n = line.as_str().as_bytes().len();
        assert(n == line_bytes(line@));
        if self.uncompressed_bytes <= usize::MAX - n {
            self.uncompressed_bytes = self.uncompressed_bytes + n;
        } else {
            self.uncompressed_bytes = usize::MAX;
        }
        self.uncompressed_buffer.push(line);
        proof {
            assert(self.lines() =~= old(self).lines().push(line@));
            assert(self.lines().drop_last() =~= old(self).lines());
            assert(self.lines().last() == line@);
        }
    }

    /// The accumulated uncompressed byte count, for threshold comparisons;
    /// deliberately not the compressed size, so that rotation cadence does
    /// not depend on compression efficiency.
    pub fn uncompressed_bytes(&self) -> (r: usize)
        ensures
            r == self.size(),
    {
        self.uncompressed_bytes
    }

    /// Seals the codec into a batch, consuming it. With compression off the
    /// lines are returned as they stand, and sealing cannot fail; otherwise
    /// the JSON envelope of the lines is compressed, and a failure of the
    /// compressing stream is an `EncodingError` (fatal to this batch).
    pub fn finish(self) -> (r: Result<FinishValue, LoggerError>)
        requires
            self.wf(),
        ensures
            r matches Ok(batch) ==> batch_lines_of(batch) == Option::Some(self.lines()),
            r matches Ok(batch) ==> ((batch is Uncompressed) <==> self.strategy() is Off),
            self.strategy() is Off ==> r is Ok,
            r matches Err(e) ==> e is EncodingError && !(self.strategy() is Off),
    {
        match self.compression {
            Compression::Off => {
                let batch = FinishValue::Uncompressed(PlaintextLogs { logs: self.uncompressed_buffer });
                proof {
                    assert(batch_lines_of(batch) == Option::Some(self.lines()));
                }
                Ok(batch)
            },
            _ => {
                let envelope = encode_envelope(&self.uncompressed_buffer);
                let level = self.compression.to_level();
                match zlib_compress(envelope.as_slice(), level) {
                    Option::Some(bytes) => {
                        proof {
                            lemma_envelope_round_trip(self.lines());
                        }
                        Ok(FinishValue::Compressed(CompressedLogs { compressed_plaintext_logs: bytes }))
                    },
                    Option::None => Err(LoggerError::EncodingError),
                }
            },
        }
    }
}

} // verus!
