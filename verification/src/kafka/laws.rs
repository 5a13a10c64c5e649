//! What holds of the classification as a whole.

use vstd::prelude::*;

use std::io;

use crate::error::{Error, KafkaError};
use crate::io_error;
use crate::kafka::connection_error;
use crate::platform::Platform;
use crate::text;

verus! {

/// Neither the operation nor the message of a failed I/O operation has any say:
/// errors of one kind and one code are classified alike.
pub proof fn law_io_text_is_never_read(
    platform: Platform,
    kind: io::ErrorKind,
    raw_os_error: Option<i32>,
    operation1: String,
    message1: String,
    operation2: String,
    message2: String,
)
    ensures
        connection_error::connection_error(
            platform,
            Error::Kafka(
                KafkaError::ConnectionIo {
                    operation: operation1,
                    kind,
                    raw_os_error,
                    message: message1,
                },
            ),
        ) == connection_error::connection_error(
            platform,
            Error::Kafka(
                KafkaError::ConnectionIo {
                    operation: operation2,
                    kind,
                    raw_os_error,
                    message: message2,
                },
            ),
        ),
{
}

/// A kind that means a lost connection does so on every platform and with every
/// code; without a code, no other kind does.
pub proof fn law_kind_decides(
    platform: Platform,
    kind: io::ErrorKind,
    raw_os_error: Option<i32>,
)
    ensures
        connection_error::kind_means_lost(kind) ==> connection_error::connection_lost(
            platform,
            kind,
            raw_os_error,
        ),
        connection_error::connection_lost(platform, kind, None)
            == connection_error::kind_means_lost(kind),
{
}

/// A Winsock code that means a lost connection does so on every platform and with
/// every kind.
pub proof fn law_winsock_code_decides(platform: Platform, kind: io::ErrorKind, code: i32)
    requires
        connection_error::winsock_code_means_lost(code),
    ensures
        connection_error::connection_lost(platform, kind, Some(code)),
{
}

/// The Winsock codes start at 10000 and the Win32 codes stay below, so that none
/// is both.
pub proof fn law_winsock_codes_stand_apart(code: i32)
    ensures
        connection_error::winsock_code_means_lost(code) ==> code >= 10000,
        connection_error::win32_code_means_lost(code) ==> 0 < code < 10000,
{
}

/// Windows and the other platforms disagree on an error if and only if it is a
/// failed I/O operation with a Win32 code that means a lost connection and a kind
/// that does not. Then it is Windows that takes the connection for lost.
pub proof fn law_only_win32_codes_depend_on_the_platform(error: Error)
    ensures
        connection_error::connection_error(Platform::Windows, error)
            != connection_error::connection_error(Platform::Other, error) <==> {
            &&& error matches Error::Kafka(
                KafkaError::ConnectionIo { kind, raw_os_error: Some(code), .. },
            )
            &&& !connection_error::kind_means_lost(kind)
            &&& connection_error::win32_code_means_lost(code)
        },
        connection_error::connection_error(Platform::Other, error)
            ==> connection_error::connection_error(Platform::Windows, error),
{
}

/// A timeout of the client's own is told like one that the system reports: the error
/// for it has, part by part, what the error for an I/O failure `e` has that is of
/// kind `TimedOut`, carries no code and shows `message`.
pub proof fn law_request_timeout_is_an_io_timeout(
    operation: &str,
    message: String,
    e: &io::Error,
    timeout: KafkaError,
    failure: KafkaError,
)
    requires
        call_ensures(connection_error::request_timeout_error, (operation, message), timeout),
        call_ensures(connection_error::connection_io_error, (operation, e), failure),
        io_error::io_error_kind(*e) == io::ErrorKind::TimedOut,
        io_error::io_error_code(*e) is None,
        forall|shown: String| #[trigger]
            vstd::string::to_string_from_display_ensures(e, shown) ==> shown@ == message@,
    ensures
        timeout is ConnectionIo,
        failure is ConnectionIo,
        timeout->operation@ == failure->operation@,
        timeout->kind == failure->kind,
        timeout->raw_os_error == failure->raw_os_error,
        timeout->ConnectionIo_message@ == failure->ConnectionIo_message@,
{
}

/// Only failed I/O operations and protocol errors are ever taken for a lost
/// connection: no broker error, no failure to connect, nothing outside Kafka.
pub proof fn law_other_errors_never_classify(platform: Platform, error: Error)
    requires
        !(error matches Error::Kafka(KafkaError::ConnectionIo { .. })),
        !(error matches Error::Kafka(KafkaError::Protocol(_))),
    ensures
        !connection_error::connection_error(platform, error),
{
}

/// Capitals make no difference to the text of a protocol error.
pub proof fn law_protocol_text_ignores_case(msg1: Seq<char>, msg2: Seq<char>)
    requires
        msg1.len() == msg2.len(),
        forall|i: int|
            0 <= i < msg1.len() ==> text::ascii_lower_char(#[trigger] msg1[i])
                == text::ascii_lower_char(msg2[i]),
    ensures
        connection_error::legacy_connection_message(msg1)
            == connection_error::legacy_connection_message(msg2),
{
    assert(text::ascii_lower(msg1) =~= text::ascii_lower(msg2));
}

/// Text around a message that tells of a lost connection does not hide it.
pub proof fn law_protocol_text_survives_context(
    before: Seq<char>,
    msg: Seq<char>,
    after: Seq<char>,
)
    requires
        connection_error::legacy_connection_message(msg),
    ensures
        connection_error::legacy_connection_message(before + msg + after),
{
    let b = text::ascii_lower(before);
    let m = text::ascii_lower(msg);
    let a = text::ascii_lower(after);
    text::lemma_ascii_lower_concat(before + msg, after);
    text::lemma_ascii_lower_concat(before, msg);
    assert forall|needle: Seq<char>| #[trigger]
        text::occurs_in(needle, m) implies text::occurs_in(needle, b + m + a) by {
        text::lemma_occurs_in_larger(needle, b, m, a);
    }
    if connection_error::has_winsock_suffix(m) {
        let code = choose|code: i32|
            connection_error::winsock_code_means_lost(code) && text::occurs_in(
                #[trigger] connection_error::os_error_suffix(code),
                m,
            );
        assert(text::occurs_in(connection_error::os_error_suffix(code), b + m + a));
    }
}

/// The suffix of a Winsock code that means a lost connection is enough, whatever
/// the language of the text before it.
pub proof fn law_winsock_suffix_needs_no_language(before: Seq<char>, code: i32, after: Seq<char>)
    requires
        connection_error::winsock_code_means_lost(code),
    ensures
        connection_error::legacy_connection_message(
            before + connection_error::os_error_suffix(code) + after,
        ),
{
    let suffix = connection_error::os_error_suffix(code);
    reveal_strlit("(os error ");
    reveal_strlit(")");
    law_winsock_codes_stand_apart(code);
    text::lemma_ascii_lower_digits(code as nat);
    text::lemma_ascii_lower_concat("(os error "@ + text::decimal(code as int), ")"@);
    text::lemma_ascii_lower_concat("(os error "@, text::decimal(code as int));
    assert(text::ascii_lower("(os error "@) =~= "(os error "@);
    assert(text::ascii_lower(")"@) =~= ")"@);
    text::lemma_occurs_in_itself(suffix);
    assert(text::occurs_in(connection_error::os_error_suffix(code), text::ascii_lower(suffix)));
    law_protocol_text_survives_context(before, suffix, after);
}

/// The text of a failed I/O operation shows the operation, the name of the kind and
/// the message.
pub proof fn law_io_text_shows_what_failed(
    operation: String,
    kind: io::ErrorKind,
    raw_os_error: Option<i32>,
    message: String,
)
    ensures
        ({
            let shown = Error::Kafka(
                KafkaError::ConnectionIo { operation, kind, raw_os_error, message },
            ).text();
            &&& text::occurs_in(operation@, shown)
            &&& text::occurs_in(io_error::kind_name(kind), shown)
            &&& text::occurs_in(message@, shown)
        }),
{
    let shown = Error::Kafka(
        KafkaError::ConnectionIo { operation, kind, raw_os_error, message },
    ).text();
    let name = io_error::kind_name(kind);
    let opening = "Connection error during "@;
    text::lemma_occurs_in_itself(operation@);
    text::lemma_occurs_in_itself(name);
    text::lemma_occurs_in_itself(message@);
    text::lemma_occurs_in_larger(
        operation@,
        opening,
        operation@,
        " ("@ + name + "): "@ + message@,
    );
    assert(shown =~= opening + operation@ + (" ("@ + name + "): "@ + message@));
    text::lemma_occurs_in_larger(name, opening + operation@ + " ("@, name, "): "@ + message@);
    assert(shown =~= opening + operation@ + " ("@ + name + ("): "@ + message@));
    let ahead = opening + operation@ + " ("@ + name + "): "@;
    text::lemma_occurs_in_larger(message@, ahead, message@, Seq::empty());
    assert(shown =~= ahead + message@ + Seq::<char>::empty());
}

} // verus!
