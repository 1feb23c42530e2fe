use compressed_log::builder::LoggerBuilder;
use compressed_log::compression::{Compression, FinishValue};
use compressed_log::formatter::LogFormat;
use compressed_log::record::{Level, Record};

fn plain_lines(batch: FinishValue) -> Vec<String> {
    match batch {
        FinishValue::Uncompressed(p) => p.logs,
        FinishValue::Compressed(_) => panic!("expected a plaintext batch"),
    }
}

/// Threshold 1024, three 500-byte appends: the third crosses (1500 >= 1024),
/// exactly one rotation fires, the batch holds exactly the three lines in
/// order, and the buffer is empty afterwards.
#[test]
fn test_size_threshold_rotation() {
    let logger = LoggerBuilder::default()
        .set_threshold(1024)
        .set_compression_level(Compression::Off)
        .build(0);
    let mut logger = logger.unwrap();
    let a = "a".repeat(500);
    let b = "b".repeat(500);
    let c = "c".repeat(500);
    assert!(logger.append(a.clone(), 1).unwrap().is_none());
    assert_eq!(logger.pending_bytes(), 500);
    assert!(logger.append(b.clone(), 2).unwrap().is_none());
    assert_eq!(logger.pending_bytes(), 1000);
    let batch = logger.append(c.clone(), 3).unwrap().expect("third append must rotate");
    let lines = plain_lines(batch);
    assert_eq!(lines, vec![a, b, c]);
    assert_eq!(logger.pending_len(), 0);
    assert_eq!(logger.pending_bytes(), 0);
}

/// A 2048-byte line against a 1024-byte threshold: the stored line is the
/// truncated placeholder naming the original length, never the raw line, and
/// rotation fires immediately.
#[test]
fn test_oversized_line_replaced() {
    let logger = LoggerBuilder::default()
        .set_threshold(1024)
        .set_compression_level(Compression::Off)
        .build(0);
    let mut logger = logger.unwrap();
    let big = "x".repeat(2048);
    let batch = logger
        .append(big.clone(), 1)
        .unwrap()
        .expect("the placeholder itself crosses the threshold");
    let lines = plain_lines(batch);
    assert_eq!(lines.len(), 1);
    assert_ne!(lines[0], big);
    assert!(lines[0].starts_with("oversized log line of 2048 bytes, starts with: "));
    assert!(lines[0].contains(&"x".repeat(1000)));
    assert!(!lines[0].contains(&"x".repeat(1001)));
    assert_eq!(logger.pending_len(), 0);
}

/// An append never fails on an oversized line; under a roomy threshold the
/// placeholder is simply buffered.
#[test]
fn test_oversized_line_buffered_under_large_threshold() {
    let logger = LoggerBuilder::default()
        .set_threshold(100_000)
        .set_compression_level(Compression::Off)
        .build(0);
    let mut logger = logger.unwrap();
    let big = "y".repeat(200_000);
    assert!(logger.append(big, 1).unwrap().is_none());
    let batch = logger.flush(2).unwrap();
    let lines = plain_lines(batch);
    assert_eq!(lines.len(), 1);
    assert!(lines[0].starts_with("oversized log line of 200000 bytes, starts with: "));
}

/// Flushing an empty buffer twice yields two empty batches and no error.
#[test]
fn test_flush_empty_twice() {
    let logger = LoggerBuilder::default()
        .set_compression_level(Compression::Off)
        .build(0);
    let mut logger = logger.unwrap();
    let first = plain_lines(logger.flush(1).unwrap());
    let second = plain_lines(logger.flush(2).unwrap());
    assert!(first.is_empty());
    assert!(second.is_empty());
    assert_eq!(logger.pending_len(), 0);
}

/// The time threshold ships an aging batch on the next append even when the
/// size threshold is far away.
#[test]
fn test_time_threshold_rotation() {
    let logger = LoggerBuilder::default()
        .set_compression_level(Compression::Off)
        .set_time_threshold(600)
        .build(1000);
    let mut logger = logger.unwrap();
    assert!(logger.append("early".to_string(), 1100).unwrap().is_none());
    let batch = logger
        .append("late".to_string(), 1700)
        .unwrap()
        .expect("time threshold elapsed");
    let lines = plain_lines(batch);
    assert_eq!(lines, vec!["early".to_string(), "late".to_string()]);
}

/// Records below the configured level leave the buffer untouched; enabled
/// records are formatted and buffered.
#[test]
fn test_level_filter() {
    let logger = LoggerBuilder::default()
        .set_level(Level::Info)
        .set_compression_level(Compression::Off)
        .build(0);
    let mut logger = logger.unwrap();
    assert!(logger.enabled(Level::Error));
    assert!(logger.enabled(Level::Info));
    assert!(!logger.enabled(Level::Debug));
    let debug = Record::new(Level::Debug, 10, "m".to_string(), "quiet".to_string());
    assert!(logger.log(&debug).unwrap().is_none());
    assert_eq!(logger.pending_len(), 0);
    let error = Record::new(Level::Error, 11, "m".to_string(), "loud".to_string());
    assert!(logger.log(&error).unwrap().is_none());
    assert_eq!(logger.pending_len(), 1);
    let lines = plain_lines(logger.flush(12).unwrap());
    assert!(lines[0].contains("loud"));
}

struct TesterFormat;

impl LogFormat for TesterFormat {
    fn format(&self, record: &Record) -> String {
        format!("compressed-logger-tester! {}\n", record.message)
    }
}

/// A simple test environment for compressed log
#[test]
fn test_logging() {
    let logging_url = "https://stats.altheamesh.com:9999/compressed_sink";
    let level = Level::Info;

    let logger = LoggerBuilder::default()
        .set_level(level)
        .set_compression_level(Compression::Fast)
        .set_sink_url(logging_url)
        .set_format(TesterFormat)
        .build(100_000);
    let mut logger = logger.unwrap();
    println!("Remote compressed logging enabled with target {}", logging_url);
    for _ in 0..100_000u64 {
        let record = Record::new(level, 100_000, "tester".to_string(), "test!".to_string());
        logger.log(&record).unwrap();
    }
    assert_eq!(logger.pending_len(), 100_000);
}
