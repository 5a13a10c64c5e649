use std::io;
use std::io::ErrorKind;

use kafka_backup_core::error::KafkaError;
use kafka_backup_core::kafka::{
    connection_io_error, is_connection_error, is_connection_error_on, is_connection_io_kind,
    is_connection_io_kind_on, is_legacy_connection_message, request_timeout_error,
};
use kafka_backup_core::platform::Platform;
use kafka_backup_core::Error;

fn conn_io(kind: ErrorKind, raw: Option<i32>) -> Error {
    Error::Kafka(KafkaError::ConnectionIo {
        operation: "send request".into(),
        kind,
        raw_os_error: raw,
        message: "irrelevant — classification must not read this".into(),
    })
}

fn protocol(msg: &str) -> Error {
    Error::Kafka(KafkaError::Protocol(msg.to_string()))
}

#[test]
fn structured_kinds_that_mean_connection_lost() {
    for kind in [
        ErrorKind::ConnectionAborted,
        ErrorKind::ConnectionReset,
        ErrorKind::ConnectionRefused,
        ErrorKind::BrokenPipe,
        ErrorKind::NotConnected,
        ErrorKind::TimedOut,
        ErrorKind::UnexpectedEof,
        ErrorKind::NetworkDown,
        ErrorKind::NetworkUnreachable,
        ErrorKind::HostUnreachable,
    ] {
        assert!(is_connection_error(&conn_io(kind, None)), "{kind:?}");
    }
}

#[test]
fn structured_kinds_that_are_not_connection_errors() {
    for kind in [
        ErrorKind::InvalidData,
        ErrorKind::InvalidInput,
        ErrorKind::PermissionDenied,
        ErrorKind::NotFound,
        ErrorKind::Other,
        ErrorKind::Interrupted,
        ErrorKind::WouldBlock,
    ] {
        assert!(!is_connection_error(&conn_io(kind, None)), "{kind:?}");
    }
}

#[test]
fn winsock_codes_classify_even_when_kind_is_uncategorized() {
    for code in [10052, 10053, 10054, 10057, 10058, 10060, 10061] {
        assert!(
            is_connection_error(&conn_io(ErrorKind::Other, Some(code))),
            "winsock {code}"
        );
    }
    // WSAEACCES and WSAEADDRINUSE stay unclassified.
    assert!(!is_connection_error(&conn_io(ErrorKind::Other, Some(10013))));
    assert!(!is_connection_error(&conn_io(ErrorKind::Other, Some(10048))));
}

#[test]
fn win32_small_codes_classify_on_windows_only() {
    let on_windows = |code: i32| {
        is_connection_error_on(Platform::Windows, &conn_io(ErrorKind::Other, Some(code)))
    };
    assert!(on_windows(64));
    assert!(on_windows(121));
    if std::path::MAIN_SEPARATOR == '\\' {
        assert!(is_connection_error(&conn_io(ErrorKind::Other, Some(64))));
        assert!(is_connection_error(&conn_io(ErrorKind::Other, Some(121))));
    }
}

#[test]
fn win32_small_codes_are_ignored_off_windows() {
    // 64 is ENONET on Linux and EHOSTDOWN on macOS.
    let off_windows = |code: i32| {
        is_connection_error_on(Platform::Other, &conn_io(ErrorKind::Other, Some(code)))
    };
    assert!(!off_windows(64));
    assert!(!off_windows(121));
    if std::path::MAIN_SEPARATOR == '/' {
        assert!(!is_connection_error(&conn_io(ErrorKind::Other, Some(64))));
        assert!(!is_connection_error(&conn_io(ErrorKind::Other, Some(121))));
    }
}

#[test]
fn real_io_errors_round_trip_through_constructor() {
    let e = io::Error::new(ErrorKind::ConnectionAborted, "boom");
    let err = Error::Kafka(connection_io_error("send request", &e));
    assert!(is_connection_error(&err));
    let text = err.to_string();
    assert!(text.contains("send request"), "{text}");
    assert!(text.contains("ConnectionAborted"), "{text}");
    assert!(text.contains("boom"), "{text}");

    // A raw OS error keeps its code. ECONNRESET differs per platform, so
    // just check the plumbing.
    let e = io::Error::from_raw_os_error(10054);
    let KafkaError::ConnectionIo { raw_os_error, .. } = connection_io_error("read", &e) else {
        panic!("expected ConnectionIo");
    };
    assert_eq!(raw_os_error, Some(10054));
}

#[test]
fn request_timeouts_are_connection_errors() {
    let err = Error::Kafka(request_timeout_error(
        "read response length",
        "Request timed out after 60s waiting for broker response".into(),
    ));
    assert!(is_connection_error(&err));
}

#[test]
fn legacy_protocol_messages_still_classify() {
    let positives = [
        // Windows (English UI)
        "Failed to send request: An established connection was aborted by the software in your host machine. (os error 10053)",
        "Failed to read response length: An existing connection was forcibly closed by the remote host. (os error 10054)",
        "Failed to read response body: A connection attempt failed because the connected party did not properly respond after a period of time, or established connection failed because connected host has failed to respond. (os error 10060)",
        "Failed to send request: A request to send or receive data was disallowed because the socket is not connected and (when sending on a datagram socket using a sendto call) no address was supplied. (os error 10057)",
        "Failed to send request: A request to send or receive data was disallowed because the socket had already been shut down in that direction with a previous shutdown call. (os error 10058)",
        // Windows (German UI) — only the numeric suffix is stable
        "Failed to send request: Eine bestehende Verbindung wurde softwaregesteuert durch den Hostcomputer abgebrochen. (os error 10053)",
        // macOS
        "Failed to read response length: Connection reset by peer (os error 54)",
        "Failed to send request: Software caused connection abort (os error 53)",
        "Failed to send request: Broken pipe (os error 32)",
        "Failed to send request: Socket is not connected (os error 57)",
        "Failed to read response length: Operation timed out (os error 60)",
        // Linux
        "Failed to read response length: Connection reset by peer (os error 104)",
        "Failed to read response length: Connection timed out (os error 110)",
        "Failed to send request: Transport endpoint is not connected (os error 107)",
        // tokio / client-internal
        "Failed to read response length: early eof",
        "Request timed out after 60s waiting for broker response",
        "Response body read timed out after 60s",
        "Not connected",
    ];
    for msg in positives {
        assert!(
            is_connection_error(&protocol(msg)),
            "should classify: {msg}"
        );
    }

    let negatives = [
        "Failed to decode response: DecodeError",
        "Failed to encode request: EncodeError",
        // Contains "aborted" but is not a connection error — a bare
        // "aborted" substring match would get this wrong.
        "Failed to decode response: aborted transaction marker missing",
        "Unsupported API version",
    ];
    for msg in negatives {
        assert!(
            !is_connection_error(&protocol(msg)),
            "must not classify: {msg}"
        );
    }
}

#[test]
fn other_error_variants_are_never_connection_errors() {
    assert!(!is_connection_error(&Error::Kafka(
        KafkaError::BrokerError {
            code: 6,
            message: "not leader".into(),
        }
    )));
    assert!(!is_connection_error(&Error::Kafka(
        KafkaError::ConnectionFailed {
            broker: "b:9092".into(),
            message: "refused".into(),
        }
    )));
    assert!(!is_connection_error(&Error::Compression("zstd".into())));
}

#[test]
fn telling_texts_outside_io_and_protocol_errors_do_not_classify() {
    assert!(!is_connection_error(&Error::Compression("timed out".into())));
    assert!(!is_connection_error(&Error::Kafka(
        KafkaError::ConnectionFailed {
            broker: "b:9092".into(),
            message: "connection reset".into(),
        }
    )));
    assert!(!is_connection_error(&Error::Kafka(
        KafkaError::BrokerError {
            code: 7,
            message: "Request timed out".into(),
        }
    )));
}

#[test]
fn io_messages_are_never_read() {
    let with_text = |operation: &str, message: &str, raw: Option<i32>| {
        Error::Kafka(KafkaError::ConnectionIo {
            operation: operation.to_string(),
            kind: ErrorKind::InvalidData,
            raw_os_error: raw,
            message: message.to_string(),
        })
    };
    assert!(!is_connection_error(&with_text("read", "connection reset (os error 10054)", None)));
    assert!(!is_connection_error(&with_text("timed out", "", None)));
    assert!(is_connection_error(&with_text("read", "all is well", Some(10054))));
    assert!(is_connection_error(&with_text("", "", Some(10054))));
}

#[test]
fn lost_kinds_classify_with_any_code_on_any_platform() {
    for platform in [Platform::Windows, Platform::Other] {
        for raw in [None, Some(0), Some(-1), Some(64), Some(10013), Some(10054)] {
            assert!(is_connection_io_kind_on(platform, ErrorKind::TimedOut, raw));
            assert!(is_connection_io_kind_on(platform, ErrorKind::UnexpectedEof, raw));
        }
    }
}

#[test]
fn winsock_codes_classify_on_any_platform() {
    for platform in [Platform::Windows, Platform::Other] {
        for code in 10000..10100 {
            let listed = [10052, 10053, 10054, 10057, 10058, 10060, 10061].contains(&code);
            assert_eq!(
                is_connection_io_kind_on(platform, ErrorKind::Other, Some(code)),
                listed,
                "{code}"
            );
        }
    }
}

#[test]
fn platforms_differ_on_win32_codes_alone() {
    for code in -200..200 {
        let windows = is_connection_io_kind_on(Platform::Windows, ErrorKind::Other, Some(code));
        let other = is_connection_io_kind_on(Platform::Other, ErrorKind::Other, Some(code));
        let host = is_connection_io_kind(ErrorKind::Other, Some(code));
        assert_eq!(windows, code == 64 || code == 121, "{code}");
        assert!(!other, "{code}");
        assert!(host == windows || host == other, "{code}");
    }
    let msg = protocol("broken pipe");
    assert!(is_connection_error_on(Platform::Windows, &msg));
    assert!(is_connection_error_on(Platform::Other, &msg));
}

#[test]
fn path_separators_tell_the_platform() {
    assert_eq!(Platform::from_separators('\\', true), Platform::Windows);
    assert_eq!(Platform::from_separators('\\', false), Platform::Other);
    assert_eq!(Platform::from_separators('/', true), Platform::Other);
    assert_eq!(Platform::from_separators('/', false), Platform::Other);
}

#[test]
fn protocol_text_ignores_ascii_case_only() {
    assert!(is_legacy_connection_message("BROKEN PIPE"));
    assert!(is_legacy_connection_message("bRoKeN pIpE"));
    assert!(is_legacy_connection_message("(OS ERROR 10061)"));
    // The Kelvin sign is no ASCII letter.
    assert!(!is_legacy_connection_message("bro\u{212A}en pipe"));
}

#[test]
fn each_phrase_classifies_with_text_around_it() {
    for phrase in [
        "broken pipe",
        "early eof",
        "connection reset",
        "not connected",
        "connection abort",
        "connection was aborted",
        "forcibly closed",
        "timed out",
    ] {
        assert!(is_legacy_connection_message(phrase), "{phrase}");
        let around = format!("Übertragung: {phrase}, später …");
        assert!(is_legacy_connection_message(&around), "{around}");
        let cut: String = phrase.chars().skip(1).collect();
        assert!(!is_legacy_connection_message(&cut), "{cut}");
    }
}

#[test]
fn winsock_suffix_classifies_in_any_language() {
    for code in [10052, 10053, 10054, 10057, 10058, 10060, 10061] {
        let msg = format!("Соединение прервано. (os error {code})");
        assert!(is_legacy_connection_message(&msg), "{msg}");
    }
    for msg in [
        "(os error 10013)",
        "(os error 64)",
        "(os error 100530)",
        "(os error 1005)",
        "os error 10053",
        "(os error  10053)",
        "10053",
    ] {
        assert!(!is_legacy_connection_message(msg), "{msg}");
    }
}

#[test]
fn no_phrase_no_loss() {
    assert!(!is_legacy_connection_message(""));
    assert!(!is_legacy_connection_message("aborted"));
    assert!(!is_legacy_connection_message("timed  out"));
    assert!(!is_legacy_connection_message("connection was not aborted"));
}

#[test]
fn io_errors_keep_kind_code_and_text() {
    let e = io::Error::new(ErrorKind::InvalidData, "bad length");
    let KafkaError::ConnectionIo { operation, kind, raw_os_error, message } =
        connection_io_error("read response", &e)
    else {
        panic!("expected ConnectionIo");
    };
    assert_eq!(operation, "read response");
    assert_eq!(kind, ErrorKind::InvalidData);
    assert_eq!(raw_os_error, None);
    assert_eq!(message, "bad length");

    let e = io::Error::from_raw_os_error(10052);
    assert!(is_connection_error(&Error::Kafka(connection_io_error("read", &e))));
    let e = io::Error::from_raw_os_error(10048);
    let built = connection_io_error("read", &e);
    assert_eq!(
        is_connection_error(&Error::Kafka(built)),
        is_connection_io_kind(e.kind(), Some(10048))
    );
}

#[test]
fn request_timeouts_keep_operation_and_message() {
    let KafkaError::ConnectionIo { operation, kind, raw_os_error, message } =
        request_timeout_error("send request", "no answer".to_string())
    else {
        panic!("expected ConnectionIo");
    };
    assert_eq!(operation, "send request");
    assert_eq!(kind, ErrorKind::TimedOut);
    assert_eq!(raw_os_error, None);
    assert_eq!(message, "no answer");
}

#[test]
fn request_timeouts_equal_io_timeouts() {
    let message = "Request timed out after 60s waiting for broker response";
    let e = io::Error::new(ErrorKind::TimedOut, message);
    let KafkaError::ConnectionIo { operation, kind, raw_os_error, message: text } =
        connection_io_error("read response length", &e)
    else {
        panic!("expected ConnectionIo");
    };
    let KafkaError::ConnectionIo {
        operation: own_operation,
        kind: own_kind,
        raw_os_error: own_code,
        message: own_text,
    } = request_timeout_error("read response length", message.to_string())
    else {
        panic!("expected ConnectionIo");
    };
    assert_eq!(own_operation, operation);
    assert_eq!(own_kind, kind);
    assert_eq!(own_code, raw_os_error);
    assert_eq!(own_text, text);
    assert_eq!(own_text, message);
}
