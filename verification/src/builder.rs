//! Configuration of the logger: the error taxonomy and the builder that
//! assembles a `Logger` from a level, a compression strategy, thresholds, a
//! sink URL and a formatter.

use crate::compression::Compression;
use crate::formatter::{DefaultFormat, LogFormat};
use crate::logger::Logger;
use crate::record::Level;
use vstd::prelude::*;

verus! {

/// What can go wrong inside the logging path. Failures never panic the host:
/// they are returned here and reported on the diagnostic side channel.
#[derive(Copy, Clone, Eq, PartialEq, Structural, Debug)]
pub enum LoggerError {
    /// The codec failed while sealing a batch; fatal to that batch, never retried.
    EncodingError,
    /// The transport could not reach the sink.
    ConnectionFailure,
    /// An outbound operation exceeded its bounded timeout.
    Timeout,
    /// The configuration was rejected at construction, before any logging.
    ConfigurationError,
}

impl LoggerError {
    /// The error's name, for the diagnostic side channel.
    pub fn describe(self) -> (r: &'static str)
        ensures
            self is EncodingError ==> r@ == "encoding error"@,
            self is ConnectionFailure ==> r@ == "connection failure"@,
            self is Timeout ==> r@ == "timeout"@,
            self is ConfigurationError ==> r@ == "configuration error"@,
    {
        match self {
            LoggerError::EncodingError => "encoding error",
            LoggerError::ConnectionFailure => "connection failure",
            LoggerError::Timeout => "timeout",
            LoggerError::ConfigurationError => "configuration error",
        }
    }
}

/// Assembles a logger. All parameters have defaults; `build` validates them
/// and fails fast — before any logging — on a bad configuration.
pub struct LoggerBuilder<F: LogFormat> {
    level: Level,
    compression: Compression,
    sink_url: String,
    threshold: usize,
    time_threshold_secs: u64,
    format: F,
}

impl<F: LogFormat> LoggerBuilder<F> {
    pub closed spec fn spec_level(self) -> Level {
        self.level
    }

    pub closed spec fn spec_compression(self) -> Compression {
        self.compression
    }

    pub closed spec fn spec_sink_url(self) -> Seq<char> {
        self.sink_url@
    }

    pub closed spec fn spec_threshold(self) -> usize {
        self.threshold
    }

    pub closed spec fn spec_time_threshold(self) -> u64 {
        self.time_threshold_secs
    }

    pub closed spec fn spec_format(self) -> F {
        self.format
    }

    pub fn set_level(self, level: Level) -> (r: Self)
        ensures
            r.spec_level() == level,
            r.spec_compression() == self.spec_compression(),
            r.spec_sink_url() == self.spec_sink_url(),
            r.spec_threshold() == self.spec_threshold(),
            r.spec_time_threshold() == self.spec_time_threshold(),
            r.spec_format() == self.spec_format(),
    {
        LoggerBuilder { level, ..self }
    }

    /// Sets the compression strategy.
    pub fn set_compression_level(self, compression: Compression) -> (r: Self)
        ensures
            r.spec_compression() == compression,
            r.spec_level() == self.spec_level(),
            r.spec_sink_url() == self.spec_sink_url(),
            r.spec_threshold() == self.spec_threshold(),
            r.spec_time_threshold() == self.spec_time_threshold(),
            r.spec_format() == self.spec_format(),
    {
        LoggerBuilder { compression, ..self }
    }

    pub fn set_sink_url(self, url: &str) -> (r: Self)
        ensures
            r.spec_sink_url() == url@,
            r.spec_level() == self.spec_level(),
            r.spec_compression() == self.spec_compression(),
            r.spec_threshold() == self.spec_threshold(),
            r.spec_time_threshold() == self.spec_time_threshold(),
            r.spec_format() == self.spec_format(),
    {
        LoggerBuilder { sink_url: url.to_owned(), ..self }
    }

    /// Sets the size threshold, in uncompressed bytes.
    pub fn set_threshold(self, threshold: usize) -> (r: Self)
        ensures
            r.spec_threshold() == threshold,
            r.spec_level() == self.spec_level(),
            r.spec_compression() == self.spec_compression(),
            r.spec_sink_url() == self.spec_sink_url(),
            r.spec_time_threshold() == self.spec_time_threshold(),
            r.spec_format() == self.spec_format(),
    {
        LoggerBuilder { threshold, ..self }
    }

    /// Sets the time threshold: a batch older than this is shipped on the
    /// next append even if the size threshold is not reached.
    pub fn set_time_threshold(self, secs: u64) -> (r: Self)
        ensures
            r.spec_time_threshold() == secs,
            r.spec_level() == self.spec_level(),
            r.spec_compression() == self.spec_compression(),
            r.spec_sink_url() == self.spec_sink_url(),
            r.spec_threshold() == self.spec_threshold(),
            r.spec_format() == self.spec_format(),
    {
        LoggerBuilder { time_threshold_secs: secs, ..self }
    }

    pub fn set_format<G: LogFormat>(self, format: G) -> (r: LoggerBuilder<G>)
        ensures
            r.spec_format() == format,
            r.spec_level() == self.spec_level(),
            r.spec_compression() == self.spec_compression(),
            r.spec_sink_url() == self.spec_sink_url(),
            r.spec_threshold() == self.spec_threshold(),
            r.spec_time_threshold() == self.spec_time_threshold(),
    {
        let LoggerBuilder { level, compression, sink_url, threshold, time_threshold_secs, format: _ } =
            self;
        LoggerBuilder { level, compression, sink_url, threshold, time_threshold_secs, format }
    }

    /// Validates the configuration and builds the logger, whose buffer
    /// starts empty with its rotation stamp at `start_time`. An empty sink
    /// URL or an out-of-range compression level is a `ConfigurationError`.
    pub fn build(self, start_time: u64) -> (r: Result<Logger<F>, LoggerError>)
        ensures
            (self.spec_compression().wf() && self.spec_sink_url().len() > 0) <==> r is Ok,
            r matches Err(e) ==> e is ConfigurationError,
            r matches Ok(logger) ==> {
                &&& logger.wf()
                &&& logger.spec_level() == self.spec_level()
                &&& logger.strategy() == self.spec_compression()
                &&& logger.spec_threshold() == self.spec_threshold() as nat
                &&& logger.spec_time_threshold() == self.spec_time_threshold()
                &&& logger.spec_sink_url() == self.spec_sink_url()
                &&& logger.spec_format() == self.spec_format()
                &&& logger.pending() == Seq::<Seq<char>>::empty()
                &&& logger.pending_size() == 0
                &&& logger.spec_last_rotation() == start_time
            },
    {
        Logger::with_level(
            self.level,
            self.compression,
            self.threshold,
            self.time_threshold_secs,
            self.sink_url,
            self.format,
            start_time,
        )
    }
}

impl Default for LoggerBuilder<DefaultFormat> {
    /// The default configuration: log everything, the compression library's
    /// suggested level, a localhost sink, a threshold of about 32MB of
    /// uncompressed data, and a ten-minute time threshold.
    fn default() -> (r: Self)
        ensures
            r.spec_level() == Level::Trace,
            r.spec_compression() == Compression::Suggested,
            r.spec_sink_url() == "http://127.0.0.1:9999/compressed_sink"@,
            r.spec_threshold() == 32_000_000usize,
            r.spec_time_threshold() == 600u64,
            r.spec_format() == DefaultFormat,
    {
        LoggerBuilder {
            level: Level::Trace,
            compression: Compression::Suggested,
            sink_url: "http://127.0.0.1:9999/compressed_sink".to_owned(),
            threshold: 32_000_000,
            time_threshold_secs: 600,
            format: DefaultFormat,
        }
    }
}

} // verus!
