//! Which errors mean that the connection to a broker is lost or unusable, so
//! that reconnecting and retrying is worth while.
//!
//! A `KafkaError::ConnectionIo` is classified by its kind and its operating
//! system code alone. Its message is never read: operating systems translate
//! such texts and word them differently. A `KafkaError::Protocol` carries nothing
//! but text, and is classified by the phrases that the text holds.

use vstd::prelude::*;
use vstd::string::StringExecFns;

use std::io;

use crate::error::{Error, KafkaError};
use crate::io_error;
use crate::platform::Platform;
use crate::text;

verus! {

/// Winsock codes that mean a lost connection. Winsock codes start at 10000 and
/// are no `errno` of any system, so they are looked up on every platform.
///
/// In order: `WSAENETRESET`, `WSAECONNABORTED`, `WSAECONNRESET`, `WSAENOTCONN`,
/// `WSAESHUTDOWN`, `WSAETIMEDOUT`, `WSAECONNREFUSED`.
const WINSOCK_CONNECTION_LOST: [i32; 7] = [10052, 10053, 10054, 10057, 10058, 10060, 10061];

/// Win32 codes that mean a lost connection. Their numbers are also `errno` values
/// of other systems, so they are looked up on Windows only.
///
/// In order: `ERROR_NETNAME_DELETED`, `ERROR_SEM_TIMEOUT`.
const WIN32_CONNECTION_LOST: [i32; 2] = [64, 121];

/// The Winsock codes that mean a lost connection.
pub open spec fn winsock_code_means_lost(code: i32) -> bool {
    ||| code == 10052
    ||| code == 10053
    ||| code == 10054
    ||| code == 10057
    ||| code == 10058
    ||| code == 10060
    ||| code == 10061
}

/// The Win32 codes that mean a lost connection.
pub open spec fn win32_code_means_lost(code: i32) -> bool {
    ||| code == 64
    ||| code == 121
}

/// The kinds that mean a lost connection, whatever the code.
pub open spec fn kind_means_lost(kind: io::ErrorKind) -> bool {
    match kind {
        io::ErrorKind::ConnectionAborted
        | io::ErrorKind::ConnectionReset
        | io::ErrorKind::ConnectionRefused
        | io::ErrorKind::BrokenPipe
        | io::ErrorKind::NotConnected
        | io::ErrorKind::TimedOut
        | io::ErrorKind::UnexpectedEof
        | io::ErrorKind::NetworkDown
        | io::ErrorKind::NetworkUnreachable
        | io::ErrorKind::HostUnreachable => true,
        _ => false,
    }
}

/// The codes that mean a lost connection on `platform`, whatever the kind.
pub open spec fn code_means_lost(platform: Platform, code: i32) -> bool {
    ||| winsock_code_means_lost(code)
    ||| platform is Windows && win32_code_means_lost(code)
}

/// An I/O failure with this kind and code means a lost connection on `platform`.
pub open spec fn connection_lost(
    platform: Platform,
    kind: io::ErrorKind,
    raw_os_error: Option<i32>,
) -> bool {
    ||| kind_means_lost(kind)
    ||| raw_os_error matches Some(code) && code_means_lost(platform, code)
}

/// What Rust appends to the text of an operating system error with this code, in
/// every language: `(os error N)`.
pub open spec fn os_error_suffix(code: i32) -> Seq<char> {
    "(os error "@ + text::decimal(code as int) + ")"@
}

/// The lower case text `m` holds a phrase that tells of a lost connection.
///
/// The word "aborted" alone is no such phrase: it occurs in texts on aborted
/// transactions too.
pub open spec fn has_lost_phrase(m: Seq<char>) -> bool {
    ||| text::occurs_in("broken pipe"@, m)
    ||| text::occurs_in("early eof"@, m)
    ||| text::occurs_in("connection reset"@, m)
    ||| text::occurs_in("not connected"@, m)
    ||| text::occurs_in("connection abort"@, m)
    ||| text::occurs_in("connection was aborted"@, m)
    ||| text::occurs_in("forcibly closed"@, m)
    ||| text::occurs_in("timed out"@, m)
}

/// The lower case text `m` holds the suffix of a Winsock code that means a lost
/// connection.
pub open spec fn has_winsock_suffix(m: Seq<char>) -> bool {
    exists|code: i32|
        winsock_code_means_lost(code) && text::occurs_in(#[trigger] os_error_suffix(code), m)
}

/// A protocol error with the text `msg` tells of a lost connection, in capitals or
/// not.
pub open spec fn legacy_connection_message(msg: Seq<char>) -> bool {
    ||| has_lost_phrase(text::ascii_lower(msg))
    ||| has_winsock_suffix(text::ascii_lower(msg))
}

/// `error` means a lost connection on `platform`.
pub open spec fn connection_error(platform: Platform, error: Error) -> bool {
    match error {
        Error::Kafka(KafkaError::ConnectionIo { kind, raw_os_error, .. }) => connection_lost(
            platform,
            kind,
            raw_os_error,
        ),
        Error::Kafka(KafkaError::Protocol(msg)) => legacy_connection_message(msg@),
        _ => false,
    }
}

/// The two tables hold the codes that mean a lost connection.
proof fn lemma_tables_hold_the_codes(code: i32)
    ensures
        WINSOCK_CONNECTION_LOST@.contains(code) == winsock_code_means_lost(code),
        WIN32_CONNECTION_LOST@.contains(code) == win32_code_means_lost(code),
{
    let winsock = WINSOCK_CONNECTION_LOST@;
    assert(winsock[0] == 10052 && winsock[1] == 10053 && winsock[2] == 10054);
    assert(winsock[3] == 10057 && winsock[4] == 10058 && winsock[5] == 10060);
    assert(winsock[6] == 10061);
    let win32 = WIN32_CONNECTION_LOST@;
    assert(win32[0] == 64 && win32[1] == 121);
}

/// Is `code` one of `codes`?
fn has_code(codes: &[i32], code: i32) -> (found: bool)
    ensures
        found == codes@.contains(code),
{
    for i in 0..codes.len()
        invariant
            forall|j: int| 0 <= j < i ==> codes@[j] != code,
    {
        if codes[i] == code {
            return true;
        }
    }
    false
}

/// Does an I/O failure with this kind and operating system code mean that the
/// connection is lost or unusable, where codes are those of `platform`?
pub fn is_connection_io_kind_on(
    platform: Platform,
    kind: io::ErrorKind,
    raw_os_error: Option<i32>,
) -> (lost: bool)
    ensures
        lost == connection_lost(platform, kind, raw_os_error),
{
    match kind {
        io::ErrorKind::ConnectionAborted
        | io::ErrorKind::ConnectionReset
        | io::ErrorKind::ConnectionRefused
        | io::ErrorKind::BrokenPipe
        | io::ErrorKind::NotConnected
        | io::ErrorKind::TimedOut
        | io::ErrorKind::UnexpectedEof
        | io::ErrorKind::NetworkDown
        | io::ErrorKind::NetworkUnreachable
        | io::ErrorKind::HostUnreachable => true,
        _ => match raw_os_error {
            Some(code) => {
                proof {
                    lemma_tables_hold_the_codes(code);
                }
                if platform == Platform::Windows && has_code(
                    WIN32_CONNECTION_LOST.as_slice(),
                    code,
                ) {
                    return true;
                }
                has_code(WINSOCK_CONNECTION_LOST.as_slice(), code)
            },
            None => false,
        },
    }
}

/// Does an I/O failure with this kind and operating system code mean that the
/// connection is lost or unusable, so that the caller should reconnect and retry
/// rather than fail?
///
/// Codes are those of the platform of the build, as its path separators tell it.
/// Only Win32 codes depend on it: elsewhere the answer is the same for every
/// platform.
pub fn is_connection_io_kind(kind: io::ErrorKind, raw_os_error: Option<i32>) -> (lost: bool)
    ensures
        connection_lost(Platform::Other, kind, raw_os_error) ==> lost,
        lost ==> connection_lost(Platform::Windows, kind, raw_os_error),
        exists|platform: Platform| #[trigger]
            Platform::may_be_host(platform) && lost == connection_lost(
                platform,
                kind,
                raw_os_error,
            ),
{
    is_connection_io_kind_on(Platform::host(), kind, raw_os_error)
}

/// The suffix `(os error N)` for `code`.
fn os_error_suffix_text(code: i32) -> (suffix: String)
    ensures
        suffix@ == os_error_suffix(code),
{
    let mut suffix = "(os error ".to_owned();
    suffix.append(text::decimal_text(code).as_str());
    suffix.append(")");
    suffix
}

/// Does the lower case text `m` hold the suffix of one of the Winsock codes?
fn mentions_winsock_code(m: &Vec<char>) -> (found: bool)
    ensures
        found == has_winsock_suffix(m@),
{
    let codes = WINSOCK_CONNECTION_LOST;
    for i in 0..codes.len()
        invariant
            codes@ == WINSOCK_CONNECTION_LOST@,
            forall|j: int|
                0 <= j < i ==> !text::occurs_in(os_error_suffix(#[trigger] codes@[j]), m@),
    {
        let suffix = os_error_suffix_text(codes[i]);
        if text::contains(m, suffix.as_str()) {
            proof {
                lemma_tables_hold_the_codes(codes@[i as int]);
            }
            return true;
        }
    }
    assert forall|code: i32| winsock_code_means_lost(code) implies !text::occurs_in(
        #[trigger] os_error_suffix(code),
        m@,
    ) by {
        lemma_tables_hold_the_codes(code);
    }
    false
}

/// Does the text of a protocol error tell of a lost connection?
///
/// It does where it holds, in capitals or not, the client's own wording for a
/// timeout or a closed connection, an English operating system text, or the
/// `(os error N)` suffix of a Winsock code, which no language changes.
pub fn is_legacy_connection_message(msg: &str) -> (lost: bool)
    ensures
        lost == legacy_connection_message(msg@),
{
    let m = text::ascii_lower_chars(msg);
    text::contains(&m, "broken pipe")
        || text::contains(&m, "early eof")
        || text::contains(&m, "connection reset")
        || text::contains(&m, "not connected")
        || text::contains(&m, "connection abort")
        || text::contains(&m, "connection was aborted")
        || text::contains(&m, "forcibly closed")
        || text::contains(&m, "timed out")
        || mentions_winsock_code(&m)
}

/// Is `error` a failure of the connection itself, where codes are those of
/// `platform`?
pub fn is_connection_error_on(platform: Platform, error: &Error) -> (lost: bool)
    ensures
        lost == connection_error(platform, *error),
{
    match error {
        Error::Kafka(KafkaError::ConnectionIo { kind, raw_os_error, .. }) => {
            is_connection_io_kind_on(platform, *kind, *raw_os_error)
        },
        Error::Kafka(KafkaError::Protocol(msg)) => is_legacy_connection_message(msg.as_str()),
        _ => false,
    }
}

/// Is `error` a failure of the connection itself, so that reconnecting and retrying
/// the request is worth while?
///
/// Codes are those of the platform of the build, as its path separators tell it.
/// Only Win32 codes depend on it: elsewhere the answer is the same for every
/// platform.
pub fn is_connection_error(error: &Error) -> (lost: bool)
    ensures
        connection_error(Platform::Other, *error) ==> lost,
        lost ==> connection_error(Platform::Windows, *error),
        exists|platform: Platform| #[trigger]
            Platform::may_be_host(platform) && lost == connection_error(platform, *error),
{
    is_connection_error_on(Platform::host(), error)
}

/// The error for the I/O failure `e` during `operation` on the connection to a
/// broker. It keeps the kind, the operating system code and the text of `e`.
pub fn connection_io_error(operation: &str, e: &io::Error) -> (error: KafkaError)
    ensures
        error matches KafkaError::ConnectionIo { operation: op, kind, raw_os_error, message }
            && op@ == operation@ && kind == io_error::io_error_kind(*e) && raw_os_error
            == io_error::io_error_code(*e)
            && vstd::string::to_string_from_display_ensures(e, message),
        forall|platform: Platform| #[trigger]
            connection_error(platform, Error::Kafka(error)) == connection_lost(
                platform,
                io_error::io_error_kind(*e),
                io_error::io_error_code(*e),
            ),
{
    KafkaError::connection_io(operation, e.kind(), e.raw_os_error(), e.to_string())
}

/// The error for a request of the client's own that timed out during `operation`.
pub fn request_timeout_error(operation: &str, message: String) -> (error: KafkaError)
    ensures
        error matches KafkaError::ConnectionIo { operation: op, kind, raw_os_error, message: text }
            && op@ == operation@ && kind == io::ErrorKind::TimedOut && raw_os_error is None && text
            == message,
        forall|platform: Platform| #[trigger] connection_error(platform, Error::Kafka(error)),
{
    KafkaError::connection_io(operation, io::ErrorKind::TimedOut, None, message)
}

} // verus!
