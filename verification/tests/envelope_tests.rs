use compressed_log::builder::LoggerBuilder;
use compressed_log::compression::{Compression, Encoder, FinishValue};
use compressed_log::envelope::encode_envelope;
use std::io::Write;

fn inflate(data: &[u8]) -> Vec<u8> {
    let mut decoder = flate2::write::ZlibDecoder::new(Vec::new());
    decoder.write_all(data).expect("a batch must hold a valid zlib stream");
    decoder.finish().expect("a batch must hold a complete zlib stream")
}

fn parsed_lines(envelope: &[u8]) -> Vec<String> {
    let value: serde_json::Value =
        serde_json::from_slice(envelope).expect("the envelope must be valid JSON");
    let logs = value.get("logs").expect("the envelope must hold a logs field");
    logs.as_array()
        .expect("logs must be an array")
        .iter()
        .map(|entry| entry.as_str().expect("each line must be a string").to_string())
        .collect()
}

#[test]
fn envelope_exact_bytes() {
    let lines = vec!["a".to_string(), "b\"\\\n".to_string()];
    let bytes = encode_envelope(&lines);
    assert_eq!(
        String::from_utf8(bytes).unwrap(),
        "{\"logs\":[\"a\",\"b\\\"\\\\\\u000a\"]}"
    );
}

#[test]
fn envelope_empty() {
    let bytes = encode_envelope(&Vec::new());
    assert_eq!(String::from_utf8(bytes).unwrap(), "{\"logs\":[]}");
}

#[test]
fn envelope_parses_as_json() {
    let lines = vec![
        "plain".to_string(),
        "with \"quotes\" and \\slashes\\".to_string(),
        "control\tchars\r\n".to_string(),
        "unicode héllo λόγος\n".to_string(),
        String::new(),
    ];
    let bytes = encode_envelope(&lines);
    assert_eq!(parsed_lines(&bytes), lines);
}

/// Round-trip, compressed mode: sealing then decompress-and-parse yields
/// back the same ordered lines.
#[test]
fn round_trip_compressed() {
    let lines = vec![
        "first line\n".to_string(),
        "second \"line\"\n".to_string(),
        "dritte Zeile — ünïcode\n".to_string(),
    ];
    let mut encoder = Encoder::new(Compression::Fast);
    for line in &lines {
        encoder.add_line(line.clone());
    }
    match encoder.finish().unwrap() {
        FinishValue::Compressed(c) => {
            let envelope = inflate(&c.compressed_plaintext_logs);
            assert_eq!(parsed_lines(&envelope), lines);
        }
        FinishValue::Uncompressed(_) => panic!("Fast must compress"),
    }
}

/// Round-trip, plaintext mode: sealing yields back the same ordered lines.
#[test]
fn round_trip_plaintext() {
    let lines = vec!["one\n".to_string(), "two\n".to_string()];
    let mut encoder = Encoder::new(Compression::Off);
    for line in &lines {
        encoder.add_line(line.clone());
    }
    match encoder.finish().unwrap() {
        FinishValue::Uncompressed(p) => assert_eq!(p.logs, lines),
        FinishValue::Compressed(_) => panic!("Off must not compress"),
    }
}

/// End to end through the logger: a size-triggered rotation under a
/// compressing strategy seals a batch that decompresses and parses back to
/// the appended lines.
#[test]
fn round_trip_through_logger() {
    let logger = LoggerBuilder::default()
        .set_threshold(64)
        .set_compression_level(Compression::Slow)
        .build(0);
    let mut logger = logger.unwrap();
    let lines = vec![
        "a".repeat(30) + "\n",
        "b\"quoted\"".to_string() + "\n",
        "c".repeat(30) + "\n",
    ];
    assert!(logger.append(lines[0].clone(), 1).unwrap().is_none());
    assert!(logger.append(lines[1].clone(), 2).unwrap().is_none());
    let batch = logger.append(lines[2].clone(), 3).unwrap().expect("72 bytes crosses 64");
    match batch {
        FinishValue::Compressed(c) => {
            let envelope = inflate(&c.compressed_plaintext_logs);
            assert_eq!(parsed_lines(&envelope), lines);
        }
        FinishValue::Uncompressed(_) => panic!("Slow must compress"),
    }
}

/// The codec counts uncompressed bytes, not lines or compressed size.
#[test]
fn encoder_counts_uncompressed_bytes() {
    let mut encoder = Encoder::new(Compression::Slow);
    assert!(encoder.is_empty());
    assert_eq!(encoder.uncompressed_bytes(), 0);
    encoder.add_line("abcd".to_string());
    encoder.add_line("é".to_string());
    assert_eq!(encoder.len(), 2);
    assert!(!encoder.is_empty());
    assert_eq!(encoder.uncompressed_bytes(), 6);
}
