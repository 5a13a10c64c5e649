use std::io::ErrorKind;

use kafka_backup_core::error::{show_io_failure, KafkaError};
use kafka_backup_core::text::{ascii_lower_chars, contains, decimal_text};
use kafka_backup_core::Error;

#[test]
fn lower_case_is_ascii_only() {
    let lowered: String = ascii_lower_chars("AZaz@[09 ÄÉ\u{212A}").into_iter().collect();
    assert_eq!(lowered, "azaz@[09 ÄÉ\u{212A}");
    assert_eq!(ascii_lower_chars(""), Vec::<char>::new());
}

#[test]
fn substring_search_finds_every_position() {
    let haystack: Vec<char> = "aabaaab".chars().collect();
    assert!(contains(&haystack, ""));
    assert!(contains(&haystack, "aab"));
    assert!(contains(&haystack, "aaab"));
    assert!(contains(&haystack, "aabaaab"));
    assert!(!contains(&haystack, "abb"));
    assert!(!contains(&haystack, "aabaaabb"));
    assert!(contains(&Vec::new(), ""));
    assert!(!contains(&Vec::new(), "a"));
}

#[test]
fn decimal_matches_the_standard_rendering() {
    for n in [0, 7, 9, 10, 99, 100, 10052, 10061, i32::MAX, -1, -10, i32::MIN] {
        assert_eq!(decimal_text(n), format!("{n}"));
    }
    assert_eq!(decimal_text(10060), "10060");
    assert_eq!(decimal_text(-2147483648), "-2147483648");
}

#[test]
fn io_failures_show_operation_kind_and_message() {
    let error = KafkaError::connection_io("send request", ErrorKind::BrokenPipe, Some(32), "gone".to_string());
    assert_eq!(error.to_string(), "Connection error during send request (BrokenPipe): gone");
    assert_eq!(show_io_failure("read", "X", "y"), "Connection error during read (X): y");
}

#[test]
fn other_errors_show_their_parts() {
    let broker = Error::Kafka(KafkaError::BrokerError { code: 1, message: "Fetch error for t:0: code 1".to_string() });
    assert_eq!(broker.to_string(), "Broker returned error code 1: Fetch error for t:0: code 1");
    let unknown = KafkaError::BrokerError { code: -1, message: "unknown".to_string() };
    assert_eq!(unknown.to_string(), "Broker returned error code -1: unknown");
    let failed = KafkaError::ConnectionFailed { broker: "b:9092".to_string(), message: "refused".to_string() };
    assert_eq!(failed.to_string(), "Failed to connect to broker b:9092: refused");
    let protocol = Error::Kafka(KafkaError::Protocol("early eof".to_string()));
    assert_eq!(protocol.to_string(), "Protocol error: early eof");
    assert_eq!(Error::Compression("zstd".to_string()).to_string(), "Compression error: zstd");
}
