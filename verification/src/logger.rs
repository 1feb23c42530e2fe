//! The logger: the producer-facing rotating buffer. Lines accumulate in the
//! active codec; once the batch's uncompressed size or the time since the
//! last rotation crosses its threshold, the codec is sealed into a batch and
//! replaced by a fresh one — atomically with respect to the append — and the
//! batch is handed back to the caller for out-of-band delivery.

use crate::builder::LoggerError;
use crate::clock::{sat_add, sat_add_spec};
use crate::compression::{batch_lines_of, counted_bytes, line_bytes, Compression, Encoder, FinishValue};
use crate::formatter::LogFormat;
use crate::record::{Level, Record};
use vstd::prelude::*;

verus! {

/// A plaintext batch: the sealed lines, in order.
#[derive(Clone, Debug)]
pub struct PlaintextLogs {
    /// The batch's log lines.
    pub logs: Vec<String>,
}

/// A compressed batch: the zlib stream of the JSON envelope of the lines.
#[derive(Clone, Debug)]
pub struct CompressedLogs {
    /// A compressed JSON serialization of a plaintext batch.
    pub compressed_plaintext_logs: Vec<u8>,
}

/// The line actually stored for an appended line: a line whose byte length
/// exceeds the size threshold is replaced by the placeholder, never rejected.
pub open spec fn stored_line(line: Seq<char>, threshold: nat) -> Seq<char> {
    if line_bytes(line) > threshold {
        crate::text::oversize_placeholder(line)
    } else {
        line
    }
}

/// Whether the time threshold has elapsed since the last rotation.
pub open spec fn time_due(now: u64, last_rotation: u64, time_threshold: u64) -> bool {
    now >= sat_add_spec(last_rotation, time_threshold)
}

/// One append at the model level: the stored form of the line joins the
/// pending lines; if their total size now reaches the threshold (the
/// comparison happens after the write), all pending lines are emitted as one
/// batch and the buffer restarts empty.
pub open spec fn append_step(pending: Seq<Seq<char>>, line: Seq<char>, threshold: nat) -> (
    Seq<Seq<char>>,
    Option<Seq<Seq<char>>>,
) {
    let after = pending.push(stored_line(line, threshold));
    if counted_bytes(after) >= threshold {
        (Seq::<Seq<char>>::empty(), Option::Some(after))
    } else {
        (after, Option::<Seq<Seq<char>>>::None)
    }
}

/// The model state after a whole sequence of appends from an empty buffer:
/// the pending lines and every batch emitted on the way.
pub open spec fn run_appends(lines: Seq<Seq<char>>, threshold: nat) -> (
    Seq<Seq<char>>,
    Seq<Seq<Seq<char>>>,
)
    decreases lines.len(),
{
    if lines.len() == 0 {
        (Seq::<Seq<char>>::empty(), Seq::<Seq<Seq<char>>>::empty())
    } else {
        let (pending, batches) = run_appends(lines.drop_last(), threshold);
        let (next, emitted) = append_step(pending, lines.last(), threshold);
        match emitted {
            Option::Some(batch) => (next, batches.push(batch)),
            Option::None => (next, batches),
        }
    }
}

/// One append emits a batch exactly when it makes the pending lines' total
/// size reach the threshold, and that batch is exactly the pending lines
/// with the new one last: one rotation per crossing.
pub proof fn lemma_rotation_iff_crossing(pending: Seq<Seq<char>>, line: Seq<char>, threshold: nat)
    ensures
        ({
            let after = pending.push(stored_line(line, threshold));
            let (next, emitted) = append_step(pending, line, threshold);
            &&& (emitted is Some <==> counted_bytes(after) >= threshold)
            &&& (emitted matches Option::Some(batch) ==> batch == after && next
                == Seq::<Seq<char>>::empty())
            &&& (emitted is None ==> next == after)
        }),
{
}

/// Size-triggered rotation loses nothing and duplicates nothing: across any
/// sequence of appends, the emitted batches followed by the still-pending
/// lines are exactly the stored forms of all appended lines, in order — and
/// each batch is emitted by exactly the append that crosses the threshold.
pub proof fn lemma_append_conservation(lines: Seq<Seq<char>>, threshold: nat)
    ensures
        ({
            let (pending, batches) = run_appends(lines, threshold);
            batches.flatten() + pending =~= lines.map_values(
                |l: Seq<char>| stored_line(l, threshold),
            )
        }),
    decreases lines.len(),
{
    broadcast use Seq::lemma_flatten_push;

    let stored = lines.map_values(|l: Seq<char>| stored_line(l, threshold));
    if lines.len() == 0 {
        let (pending, batches) = run_appends(lines, threshold);
        assert(batches.flatten() =~= Seq::<Seq<char>>::empty());
    } else {
        lemma_append_conservation(lines.drop_last(), threshold);
        let (pending, batches) = run_appends(lines.drop_last(), threshold);
        let s = stored_line(lines.last(), threshold);
        assert(lines.drop_last().map_values(|l: Seq<char>| stored_line(l, threshold)) =~= stored.drop_last());
        assert(stored.last() == s);
        assert(stored.drop_last().push(s) =~= stored);
        let after = pending.push(s);
        if counted_bytes(after) >= threshold {
            assert(batches.push(after).flatten() + Seq::<Seq<char>>::empty() =~= batches.flatten()
                + after);
            assert(batches.flatten() + after =~= (batches.flatten() + pending).push(s));
        } else {
            assert(batches.flatten() + after =~= (batches.flatten() + pending).push(s));
        }
    }
}

/// The logger: the standard logging-sink surface over one rotating buffer.
/// The host is expected to guard it with its own exclusive lock and to ship
/// every returned batch.
pub struct Logger<F: LogFormat> {
    level: Level,
    compression: Compression,
    threshold: usize,
    time_threshold_secs: u64,
    encoder: Encoder,
    sink_url: String,
    format: F,
    last_rotation: u64,
}

impl<F: LogFormat> Logger<F> {
    /// The minimum level a record must pass.
    pub closed spec fn spec_level(self) -> Level {
        self.level
    }

    pub closed spec fn strategy(self) -> Compression {
        self.compression
    }

    /// The size threshold in uncompressed bytes.
    pub closed spec fn spec_threshold(self) -> nat {
        self.threshold as nat
    }

    /// The time threshold in seconds.
    pub closed spec fn spec_time_threshold(self) -> u64 {
        self.time_threshold_secs
    }

    /// The lines buffered since the last rotation, in order.
    pub closed spec fn pending(self) -> Seq<Seq<char>> {
        self.encoder.lines()
    }

    /// The buffered lines' uncompressed byte count.
    pub closed spec fn pending_size(self) -> nat {
        self.encoder.size()
    }

    pub closed spec fn spec_sink_url(self) -> Seq<char> {
        self.sink_url@
    }

    /// When the buffer last rotated (seconds since the Unix epoch).
    pub closed spec fn spec_last_rotation(self) -> u64 {
        self.last_rotation
    }

    pub closed spec fn spec_format(self) -> F {
        self.format
    }

    pub closed spec fn wf(self) -> bool {
        &&& self.encoder.wf()
        &&& self.encoder.strategy() == self.strategy()
        &&& self.strategy().wf()
    }

    /// Everything but the buffer and the rotation stamp is fixed at build time.
    pub open spec fn same_config(pre: Self, post: Self) -> bool {
        &&& post.spec_level() == pre.spec_level()
        &&& post.strategy() == pre.strategy()
        &&& post.spec_threshold() == pre.spec_threshold()
        &&& post.spec_time_threshold() == pre.spec_time_threshold()
        &&& post.spec_sink_url() == pre.spec_sink_url()
        &&& post.spec_format() == pre.spec_format()
    }

    /// A fresh codec for the configured strategy; rejects a strategy whose
    /// level is not a zlib level.
    pub fn new_encoder(compression: Compression) -> (r: Result<Encoder, LoggerError>)
        ensures
            compression.wf() ==> (r matches Ok(e) && e.wf() && e.lines() == Seq::<Seq<char>>::empty()
                && e.size() == 0 && e.strategy() == compression),
            !compression.wf() ==> (r matches Err(e) && e is ConfigurationError),
    {
        match compression {
            Compression::Level(value) => {
                if value > 9 {
                    return Err(LoggerError::ConfigurationError);
                }
            },
            _ => {},
        }
        Ok(Encoder::new(compression))
    }

    /// Builds a logger. Fails fast with `ConfigurationError` — before any
    /// logging — on an empty sink URL or an out-of-range compression level.
    pub fn with_level(
        level: Level,
        compression: Compression,
        threshold: usize,
        time_threshold_secs: u64,
        sink_url: String,
        format: F,
        start_time: u64,
    ) -> (r: Result<Logger<F>, LoggerError>)
        ensures
            (compression.wf() && sink_url@.len() > 0) <==> r is Ok,
            r matches Err(e) ==> e is ConfigurationError,
            r matches Ok(logger) ==> {
                &&& logger.wf()
                &&& logger.spec_level() == level
                &&& logger.strategy() == compression
                &&& logger.spec_threshold() == threshold as nat
                &&& logger.spec_time_threshold() == time_threshold_secs
                &&& logger.spec_sink_url() == sink_url@
                &&& logger.spec_format() == format
                &&& logger.pending() == Seq::<Seq<char>>::empty()
                &&& logger.pending_size() == 0
                &&& logger.spec_last_rotation() == start_time
            },
    {
        if sink_url.as_str().is_empty() {
            return Err(LoggerError::ConfigurationError);
        }
        let encoder = match Self::new_encoder(compression) {
            Ok(e) => e,
            Err(e) => {
                return Err(e);
            },
        };
        Ok(
            Logger {
                level,
                compression,
                threshold,
                time_threshold_secs,
                encoder,
                sink_url,
                format,
                last_rotation: start_time,
            },
        )
    }

    /// Whether records at `level` are accepted; a cheap filter, no lock taken.
    pub fn enabled(&self, level: Level) -> (r: bool)
        ensures
            r == level.spec_enabled_at(self.spec_level()),
    {
        level.enabled_at(self.level)
    }

    /// The configured sink URL, for the delivery path.
    pub fn sink_url(&self) -> (r: String)
        ensures
            r@ == self.spec_sink_url(),
    {
        self.sink_url.clone()
    }

    /// How many lines are buffered since the last rotation.
    pub fn pending_len(&self) -> (r: usize)
        ensures
            r == self.pending().len(),
    {
        self.encoder.len()
    }

    /// The buffered lines' uncompressed byte count.
    pub fn pending_bytes(&self) -> (r: usize)
        ensures
            r == self.pending_size(),
    {
        self.encoder.uncompressed_bytes()
    }

    /// Seals the buffer into a batch and installs a fresh codec, all under
    /// the caller's exclusive access; the rotation stamp moves to `now`.
    fn rotate_internal(&mut self, now: u64) -> (r: Result<FinishValue, LoggerError>)
        requires
            old(self).wf(),
        ensures
            rotate_rel(*old(self), *final(self), now, r),
    {
        let mut sealed = Encoder::new(self.compression);
        core::mem::swap(&mut self.encoder, &mut sealed);
        self.last_rotation = now;
        sealed.finish()
    }

    /// Seals and replaces the buffer unconditionally; used by `flush` and at
    /// shutdown so no buffered line is silently discarded.
    pub fn force_rotate(&mut self, now: u64) -> (r: Result<FinishValue, LoggerError>)
        requires
            old(self).wf(),
        ensures
            rotate_rel(*old(self), *final(self), now, r),
    {
        self.rotate_internal(now)
    }

    /// Rotates unconditionally and hands the batch back; the caller must get
    /// it at least to the transport layer before dropping it.
    pub fn flush(&mut self, now: u64) -> (r: Result<FinishValue, LoggerError>)
        requires
            old(self).wf(),
        ensures
            rotate_rel(*old(self), *final(self), now, r),
    {
        self.rotate_internal(now)
    }

    /// Appends one line: an oversized line is first replaced by the
    /// placeholder; the line is written, and then — still under the same
    /// exclusive access — the thresholds are checked and the buffer rotated
    /// if either is crossed. The freshly written line stays in the batch
    /// that triggered the rotation.
    pub fn append(&mut self, line: String, now: u64) -> (r: Result<Option<FinishValue>, LoggerError>)
        requires
            old(self).wf(),
        ensures
            append_rel(*old(self), *final(self), line@, now, r),
    {
        broadcast use vstd::slice::axiom_spec_len;

        let ghost pre = *old(self);
        let byte_len = line.as_str().as_bytes().len();
        let stored: String = if byte_len > self.threshold {
            crate::text::build_oversize_placeholder(line.as_str())
        } else {
            line
        };
        assert(stored@ == stored_line(line@, pre.spec_threshold()));
        self.encoder.add_line(stored);
        proof {
            let after = pre.pending().push(stored@);
            assert(after.drop_last() =~= pre.pending());
            assert(after.last() == stored@);
            assert(self.encoder.size() == counted_bytes(after));
        }
        let size = self.encoder.uncompressed_bytes();
        let deadline = sat_add(self.last_rotation, self.time_threshold_secs);
        if size >= self.threshold || now >= deadline {
            match self.rotate_internal(now) {
                Ok(batch) => Ok(Some(batch)),
                Err(e) => Err(e),
            }
        } else {
            Ok(None)
        }
    }

    /// The standard sink entry point: a record below the configured level is
    /// ignored without touching the buffer; otherwise it is formatted and
    /// appended, with the record's own timestamp as the clock.
    pub fn log(&mut self, record: &Record) -> (r: Result<Option<FinishValue>, LoggerError>)
        requires
            old(self).wf(),
        ensures
            final(self).wf(),
            !record.level.spec_enabled_at(old(self).spec_level()) ==> (r matches Ok(o) && o is None
                && *final(self) == *old(self)),
            record.level.spec_enabled_at(old(self).spec_level()) ==> exists|l: Seq<char>|
                append_rel(*old(self), *final(self), l, record.timestamp, r),
    {
        if !self.enabled(record.level) {
            return Ok(None);
        }
        let line = self.format.format(record);
        let ghost l = line@;
        let r = self.append(line, record.timestamp);
        proof {
            assert(append_rel(*old(self), *self, l, record.timestamp, r));
        }
        r
    }
}

/// How one rotation relates the logger's state before and after, the clock,
/// and the sealed batch: the buffer restarts empty, the stamp moves to `now`,
/// a sealed batch holds exactly the lines that were pending, sealing with
/// compression off cannot fail, and a failure is an `EncodingError` (the
/// batch is lost, never retried).
pub open spec fn rotate_rel<F: LogFormat>(
    pre: Logger<F>,
    post: Logger<F>,
    now: u64,
    r: Result<FinishValue, LoggerError>,
) -> bool {
    &&& Logger::same_config(pre, post)
    &&& post.wf()
    &&& post.pending() == Seq::<Seq<char>>::empty()
    &&& post.pending_size() == 0
    &&& post.spec_last_rotation() == now
    &&& (r matches Ok(batch) ==> (batch_lines_of(batch) == Option::Some(pre.pending()) && ((batch
        is Uncompressed) <==> pre.strategy() is Off)))
    &&& (pre.strategy() is Off ==> r is Ok)
    &&& (r matches Err(e) ==> e is EncodingError)
}

/// How one append relates the logger's state before and after, the appended
/// line, the clock, and the result: the stored form of the line joins the
/// buffer; a rotation happens exactly when the size after the write reaches
/// the size threshold or the time threshold has elapsed, and the batch then
/// holds every pending line including the new one, in order.
pub open spec fn append_rel<F: LogFormat>(
    pre: Logger<F>,
    post: Logger<F>,
    line: Seq<char>,
    now: u64,
    r: Result<Option<FinishValue>, LoggerError>,
) -> bool {
    let stored = stored_line(line, pre.spec_threshold());
    let after = pre.pending().push(stored);
    let due = counted_bytes(after) >= pre.spec_threshold() || time_due(
        now,
        pre.spec_last_rotation(),
        pre.spec_time_threshold(),
    );
    &&& Logger::same_config(pre, post)
    &&& post.wf()
    &&& post.pending_size() == counted_bytes(post.pending())
    &&& if !due {
        &&& r matches Ok(o) && o is None
        &&& post.pending() == after
        &&& post.spec_last_rotation() == pre.spec_last_rotation()
    } else {
        &&& post.pending() == Seq::<Seq<char>>::empty()
        &&& post.pending_size() == 0
        &&& post.spec_last_rotation() == now
        &&& (r matches Ok(o) ==> (o matches Some(batch) && batch_lines_of(batch) == Option::Some(
            after,
        ) && ((batch is Uncompressed) <==> pre.strategy() is Off)))
        &&& (pre.strategy() is Off ==> r is Ok)
        &&& (r matches Err(e) ==> e is EncodingError)
    }
}

/// A successful append whose time threshold is not due behaves exactly as
/// the model step: the buffer follows `append_step`, and a batch is returned
/// exactly when the step emits one, sealed from exactly the step's lines.
pub proof fn lemma_append_matches_model<F: LogFormat>(
    pre: Logger<F>,
    post: Logger<F>,
    line: Seq<char>,
    now: u64,
    r: Result<Option<FinishValue>, LoggerError>,
)
    requires
        append_rel(pre, post, line, now, r),
        !time_due(now, pre.spec_last_rotation(), pre.spec_time_threshold()),
        r is Ok,
    ensures
        ({
            let (next, emitted) = append_step(pre.pending(), line, pre.spec_threshold());
            &&& post.pending() == next
            &&& (emitted is Some <==> r->Ok_0 is Some)
            &&& (r->Ok_0 matches Some(batch) ==> batch_lines_of(batch) == emitted)
        }),
{
}

/// Flushing an empty buffer is idempotent: two successive rotations with no
/// intervening append both seal empty batches — with compression off, both
/// succeed — and the buffer stays empty throughout.
pub proof fn lemma_flush_empty_idempotent<F: LogFormat>(
    s0: Logger<F>,
    s1: Logger<F>,
    s2: Logger<F>,
    now1: u64,
    now2: u64,
    r1: Result<FinishValue, LoggerError>,
    r2: Result<FinishValue, LoggerError>,
)
    requires
        s0.pending().len() == 0,
        rotate_rel(s0, s1, now1, r1),
        rotate_rel(s1, s2, now2, r2),
    ensures
        r1 matches Ok(b) ==> batch_lines_of(b) == Option::Some(Seq::<Seq<char>>::empty()),
        r2 matches Ok(b) ==> batch_lines_of(b) == Option::Some(Seq::<Seq<char>>::empty()),
        s2.pending().len() == 0,
        s0.strategy() is Off ==> (r1 is Ok && r2 is Ok),
{
    assert(s0.pending() =~= Seq::<Seq<char>>::empty());
}

} // verus!
