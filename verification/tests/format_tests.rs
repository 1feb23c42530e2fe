use compressed_log::builder::LoggerBuilder;
use compressed_log::compression::Compression;
use compressed_log::formatter::{DefaultFormat, LogFormat};
use compressed_log::record::{Level, Record};
use compressed_log::text::{build_oversize_placeholder, diagnostic_line};

#[test]
fn binary() {
    let record = Record::new(
        Level::Error,
        1_700_000_000,
        "server".to_string(),
        "Error!".to_string(),
    );
    let formatted = DefaultFormat.format(&record);
    assert!(formatted.ends_with(" ERROR [server] Error!\n"));
}

#[test]
fn test_date_time_formatting() {
    let d = time::OffsetDateTime::from_unix_timestamp(1_700_000_000).unwrap();
    println!("{:?}", d);

    let format = time::format_description::parse(
        "[year]-[month]-[day] [hour]:[minute]:[second] UTC ",
    )
    .unwrap();
    let stamp = d.format(&format).unwrap();
    println!("{:?}", stamp);

    let record = Record::new(Level::Info, 1_700_000_000, "test".to_string(), "test".to_string());
    let line = DefaultFormat.format(&record);
    println!("{}", line);
    // The library's line carries exactly the stamp the time library renders.
    assert!(line.starts_with(&stamp));
    assert_eq!(line, format!("{}INFO  [test] test\n", stamp));
}

#[test]
fn test_debug_print() {
    let line = diagnostic_line("Hello, world!");
    println!("{}", line);
    assert_eq!(line, "compressed-log: Hello, world!\n");
}

#[test]
fn timestamp_past_range_uses_fallback() {
    // Past year 9999 the time library cannot render the stamp; the line
    // falls back to a fixed marker instead of failing.
    let record = Record::new(Level::Warn, u64::MAX, "m".to_string(), "late".to_string());
    let line = DefaultFormat.format(&record);
    assert_eq!(line, "????-??-?? ??:??:?? UTC WARN  [m] late\n");
}

#[test]
fn level_text_is_padded() {
    assert_eq!(Level::Error.text(), "ERROR");
    assert_eq!(Level::Warn.text(), "WARN ");
    assert_eq!(Level::Info.text(), "INFO ");
    assert_eq!(Level::Debug.text(), "DEBUG");
    assert_eq!(Level::Trace.text(), "TRACE");
}

#[test]
fn compression_levels() {
    assert_eq!(Compression::Off.to_level(), 0);
    assert_eq!(Compression::Fast.to_level(), 1);
    assert_eq!(Compression::Slow.to_level(), 9);
    assert_eq!(Compression::Level(4).to_level(), 4);
    assert_eq!(Compression::Suggested.to_level(), flate2::Compression::default().level());
    assert_eq!(Compression::Suggested.to_level(), 6);
}

#[test]
fn build_rejects_bad_configuration() {
    let result = LoggerBuilder::default().set_sink_url("").build(0);
    assert!(result.is_err());
    let result = LoggerBuilder::default()
        .set_compression_level(Compression::Level(12))
        .build(0);
    assert!(result.is_err());
    let result = LoggerBuilder::default().set_compression_level(Compression::Level(9)).build(0);
    assert!(result.is_ok());
}

#[test]
fn placeholder_names_length_and_prefix() {
    let placeholder = build_oversize_placeholder("hello");
    assert_eq!(placeholder, "oversized log line of 5 bytes, starts with: hello\n");
    // A multi-byte character counts its UTF-8 bytes.
    let placeholder = build_oversize_placeholder("é");
    assert_eq!(placeholder, "oversized log line of 2 bytes, starts with: é\n");
    // The kept prefix is bounded at a thousand characters.
    let long = "z".repeat(5000);
    let placeholder = build_oversize_placeholder(&long);
    assert_eq!(
        placeholder,
        format!("oversized log line of 5000 bytes, starts with: {}\n", "z".repeat(1000))
    );
}
