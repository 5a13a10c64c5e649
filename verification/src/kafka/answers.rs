//! What the answers of the classification satisfy, told by concrete kinds, codes,
//! characters and texts, and how the answers to two questions relate.

use vstd::prelude::*;

use std::io;

use crate::error::{Error, KafkaError};
use crate::io_error;
use crate::kafka::connection_error;
use crate::kafka::connection_error::{
    connection_io_error, is_connection_error, is_connection_error_on, is_connection_io_kind,
    is_connection_io_kind_on, is_legacy_connection_message, request_timeout_error,
};
use crate::platform::Platform;
use crate::text;

verus! {

/// Without a code, or with one that is not listed here, a failure means a lost
/// connection if and only if it is of one of these ten kinds. No other kind does.
pub proof fn law_ten_kinds_mean_lost(
    platform: Platform,
    kind: io::ErrorKind,
    raw_os_error: Option<i32>,
    lost: bool,
)
    requires
        call_ensures(is_connection_io_kind_on, (platform, kind, raw_os_error), lost),
        raw_os_error matches Some(code) ==> {
            &&& code != 64 && code != 121
            &&& code != 10052 && code != 10053 && code != 10054 && code != 10057
            &&& code != 10058 && code != 10060 && code != 10061
        },
    ensures
        lost <==> {
            ||| kind == io::ErrorKind::ConnectionAborted
            ||| kind == io::ErrorKind::ConnectionReset
            ||| kind == io::ErrorKind::ConnectionRefused
            ||| kind == io::ErrorKind::BrokenPipe
            ||| kind == io::ErrorKind::NotConnected
            ||| kind == io::ErrorKind::TimedOut
            ||| kind == io::ErrorKind::UnexpectedEof
            ||| kind == io::ErrorKind::NetworkDown
            ||| kind == io::ErrorKind::NetworkUnreachable
            ||| kind == io::ErrorKind::HostUnreachable
        },
{
}

/// A failure that does not mean a lost connection without its code means one with it
/// if and only if the code is one of seven from Winsock, or one of two from Win32 on
/// Windows.
pub proof fn law_nine_codes_mean_lost(
    platform: Platform,
    kind: io::ErrorKind,
    code: i32,
    lost: bool,
    lost_without_code: bool,
)
    requires
        call_ensures(is_connection_io_kind_on, (platform, kind, Some(code)), lost),
        call_ensures(is_connection_io_kind_on, (platform, kind, None::<i32>), lost_without_code),
    ensures
        lost_without_code ==> lost,
        !lost_without_code ==> (lost <==> {
            ||| code == 10052 || code == 10053 || code == 10054 || code == 10057
            ||| code == 10058 || code == 10060 || code == 10061
            ||| platform == Platform::Windows && (code == 64 || code == 121)
        }),
{
}

/// A code that is not listed for the platform leaves the answer what it is without a
/// code.
pub proof fn law_unlisted_codes_change_nothing(
    platform: Platform,
    kind: io::ErrorKind,
    code: i32,
    lost: bool,
    lost_without_code: bool,
)
    requires
        call_ensures(is_connection_io_kind_on, (platform, kind, Some(code)), lost),
        call_ensures(is_connection_io_kind_on, (platform, kind, None::<i32>), lost_without_code),
        code < 10052 || code > 10061 || 10055 <= code <= 10056 || code == 10059,
        code != 64 && code != 121 || platform == Platform::Other,
    ensures
        lost == lost_without_code,
{
}

/// Where both platforms agree on a kind and a code, theirs is the answer for the
/// platform of the build; it is always that of a platform which that may be.
pub proof fn law_build_answers_for_its_platform(
    kind: io::ErrorKind,
    raw_os_error: Option<i32>,
    lost: bool,
    on_windows: bool,
    elsewhere: bool,
)
    requires
        call_ensures(is_connection_io_kind, (kind, raw_os_error), lost),
        call_ensures(
            is_connection_io_kind_on,
            (Platform::Windows, kind, raw_os_error),
            on_windows,
        ),
        call_ensures(is_connection_io_kind_on, (Platform::Other, kind, raw_os_error), elsewhere),
    ensures
        on_windows == elsewhere ==> lost == on_windows,
        exists|platform: Platform| #[trigger]
            Platform::may_be_host(platform) && lost == (if platform == Platform::Windows {
                on_windows
            } else {
                elsewhere
            }),
{
}

/// Where both platforms agree on an error, theirs is the answer for the platform of
/// the build; it is always that of a platform which that may be.
pub proof fn law_build_answers_for_its_platform_on_errors(
    error: Error,
    lost: bool,
    on_windows: bool,
    elsewhere: bool,
)
    requires
        call_ensures(is_connection_error, (&error,), lost),
        call_ensures(is_connection_error_on, (Platform::Windows, &error), on_windows),
        call_ensures(is_connection_error_on, (Platform::Other, &error), elsewhere),
    ensures
        on_windows == elsewhere ==> lost == on_windows,
        exists|platform: Platform| #[trigger]
            Platform::may_be_host(platform) && lost == (if platform == Platform::Windows {
                on_windows
            } else {
                elsewhere
            }),
{
}

/// A failed I/O operation is answered as its kind and its code are, whatever the
/// operation and the message.
pub proof fn law_io_failures_answer_as_kind_and_code(
    platform: Platform,
    error: Error,
    operation: String,
    kind: io::ErrorKind,
    raw_os_error: Option<i32>,
    message: String,
    lost: bool,
    lost_by_kind_and_code: bool,
)
    requires
        error == Error::Kafka(
            KafkaError::ConnectionIo { operation, kind, raw_os_error, message },
        ),
        call_ensures(is_connection_error_on, (platform, &error), lost),
        call_ensures(
            is_connection_io_kind_on,
            (platform, kind, raw_os_error),
            lost_by_kind_and_code,
        ),
    ensures
        lost == lost_by_kind_and_code,
{
}

/// What is neither a failed I/O operation nor a protocol error is never answered as a
/// lost connection.
pub proof fn law_nothing_else_is_answered_as_lost(platform: Platform, error: Error, lost: bool)
    requires
        call_ensures(is_connection_error_on, (platform, &error), lost) || call_ensures(
            is_connection_error,
            (&error,),
            lost,
        ),
        error matches Error::Kafka(inner) ==> inner is BrokerError || inner is ConnectionFailed,
    ensures
        !lost,
{
}

/// The texts of which a protocol error has to hold one: eight phrases, and the
/// suffixes of seven Winsock codes.
pub open spec fn is_telling(phrase: Seq<char>) -> bool {
    ||| phrase == "broken pipe"@
    ||| phrase == "early eof"@
    ||| phrase == "connection reset"@
    ||| phrase == "not connected"@
    ||| phrase == "connection abort"@
    ||| phrase == "connection was aborted"@
    ||| phrase == "forcibly closed"@
    ||| phrase == "timed out"@
    ||| phrase == "(os error 10052)"@
    ||| phrase == "(os error 10053)"@
    ||| phrase == "(os error 10054)"@
    ||| phrase == "(os error 10057)"@
    ||| phrase == "(os error 10058)"@
    ||| phrase == "(os error 10060)"@
    ||| phrase == "(os error 10061)"@
}

/// `msg` reads `phrase` from position `at` on, any of its letters being the capital,
/// 32 code points below.
pub open spec fn reads_at(phrase: Seq<char>, msg: Seq<char>, at: int) -> bool {
    &&& 0 <= at
    &&& at + phrase.len() <= msg.len()
    &&& forall|i: int|
        0 <= i < phrase.len() ==> {
            let read = msg[at + i] as int;
            let meant = (#[trigger] phrase[i]) as int;
            read == meant || 65 <= read <= 90 && read + 32 == meant
        }
}

/// No character of `phrase` is an ASCII capital.
spec fn has_no_capital(phrase: Seq<char>) -> bool {
    forall|i: int| 0 <= i < phrase.len() ==> !(65 <= (#[trigger] phrase[i]) as int <= 90)
}

proof fn lemma_telling_texts_have_no_capital(phrase: Seq<char>)
    requires
        is_telling(phrase),
    ensures
        has_no_capital(phrase),
{
    reveal_strlit("broken pipe");
    reveal_strlit("early eof");
    reveal_strlit("connection reset");
    reveal_strlit("not connected");
    reveal_strlit("connection abort");
    reveal_strlit("connection was aborted");
    reveal_strlit("forcibly closed");
    reveal_strlit("timed out");
    reveal_strlit("(os error 10052)");
    reveal_strlit("(os error 10053)");
    reveal_strlit("(os error 10054)");
    reveal_strlit("(os error 10057)");
    reveal_strlit("(os error 10058)");
    reveal_strlit("(os error 10060)");
    reveal_strlit("(os error 10061)");
}

proof fn lemma_reading_is_finding_in_lower_case(phrase: Seq<char>, msg: Seq<char>, at: int)
    requires
        has_no_capital(phrase),
    ensures
        reads_at(phrase, msg, at) == text::occurs_at(phrase, text::ascii_lower(msg), at),
{
    let lowered = text::ascii_lower(msg);
    if reads_at(phrase, msg, at) {
        assert(lowered.subrange(at, at + phrase.len()) =~= phrase);
    }
    if text::occurs_at(phrase, lowered, at) {
        assert forall|i: int| 0 <= i < phrase.len() implies {
            let read = msg[at + i] as int;
            let meant = (#[trigger] phrase[i]) as int;
            read == meant || 65 <= read <= 90 && read + 32 == meant
        } by {
            assert(lowered.subrange(at, at + phrase.len())[i] == lowered[at + i]);
        }
    }
}

proof fn lemma_suffixes_spelled_out()
    ensures
        connection_error::os_error_suffix(10052) == "(os error 10052)"@,
        connection_error::os_error_suffix(10053) == "(os error 10053)"@,
        connection_error::os_error_suffix(10054) == "(os error 10054)"@,
        connection_error::os_error_suffix(10057) == "(os error 10057)"@,
        connection_error::os_error_suffix(10058) == "(os error 10058)"@,
        connection_error::os_error_suffix(10060) == "(os error 10060)"@,
        connection_error::os_error_suffix(10061) == "(os error 10061)"@,
{
    reveal_with_fuel(text::digits, 6);
    reveal_strlit("(os error ");
    reveal_strlit(")");
    reveal_strlit("(os error 10052)");
    reveal_strlit("(os error 10053)");
    reveal_strlit("(os error 10054)");
    reveal_strlit("(os error 10057)");
    reveal_strlit("(os error 10058)");
    reveal_strlit("(os error 10060)");
    reveal_strlit("(os error 10061)");
    assert(connection_error::os_error_suffix(10052) =~= "(os error 10052)"@);
    assert(connection_error::os_error_suffix(10053) =~= "(os error 10053)"@);
    assert(connection_error::os_error_suffix(10054) =~= "(os error 10054)"@);
    assert(connection_error::os_error_suffix(10057) =~= "(os error 10057)"@);
    assert(connection_error::os_error_suffix(10058) =~= "(os error 10058)"@);
    assert(connection_error::os_error_suffix(10060) =~= "(os error 10060)"@);
    assert(connection_error::os_error_suffix(10061) =~= "(os error 10061)"@);
}

proof fn lemma_found_telling_text(msg: Seq<char>, phrase: Seq<char>)
    requires
        is_telling(phrase),
        text::occurs_in(phrase, text::ascii_lower(msg)),
    ensures
        exists|at: int| reads_at(phrase, msg, at),
{
    let at = choose|at: int| text::occurs_at(phrase, text::ascii_lower(msg), at);
    lemma_telling_texts_have_no_capital(phrase);
    lemma_reading_is_finding_in_lower_case(phrase, msg, at);
}

/// A text tells of a lost connection if and only if it reads one of the telling texts
/// somewhere, in capitals or not. Neither its length nor anything else in it counts.
proof fn lemma_message_tells_by_what_it_reads(msg: Seq<char>)
    ensures
        connection_error::legacy_connection_message(msg) <==> exists|phrase: Seq<char>, at: int|
            is_telling(phrase) && #[trigger] reads_at(phrase, msg, at),
{
    let m = text::ascii_lower(msg);
    lemma_suffixes_spelled_out();
    assert forall|phrase: Seq<char>|
        is_telling(phrase) && #[trigger] text::occurs_in(phrase, m) implies exists|at: int|
        reads_at(phrase, msg, at) by {
        lemma_found_telling_text(msg, phrase);
    }
    if connection_error::has_winsock_suffix(m) {
        let code = choose|code: i32|
            connection_error::winsock_code_means_lost(code) && text::occurs_in(
                #[trigger] connection_error::os_error_suffix(code),
                m,
            );
        assert(is_telling(connection_error::os_error_suffix(code)));
    }
    assert forall|phrase: Seq<char>, at: int|
        is_telling(phrase) && #[trigger] reads_at(phrase, msg, at) implies
        connection_error::legacy_connection_message(msg) by {
        lemma_telling_texts_have_no_capital(phrase);
        lemma_reading_is_finding_in_lower_case(phrase, msg, at);
        assert(text::occurs_in(phrase, m));
    }
}

/// On every platform, a protocol error means a lost connection if and only if its
/// text somewhere reads one of the telling texts, in capitals or not. Neither its
/// length nor anything else in it counts.
pub proof fn law_protocol_errors_answer_by_what_they_read(
    platform: Platform,
    error: Error,
    msg: String,
    lost: bool,
)
    requires
        error == Error::Kafka(KafkaError::Protocol(msg)),
        call_ensures(is_connection_error_on, (platform, &error), lost) || call_ensures(
            is_connection_error,
            (&error,),
            lost,
        ),
    ensures
        lost <==> exists|phrase: Seq<char>, at: int|
            is_telling(phrase) && #[trigger] reads_at(phrase, msg@, at),
{
    lemma_message_tells_by_what_it_reads(msg@);
}

/// A text alone tells of a lost connection if and only if it somewhere reads one of the
/// telling texts, in capitals or not.
pub proof fn law_messages_answer_by_what_they_read(msg: &str, lost: bool)
    requires
        call_ensures(is_legacy_connection_message, (msg,), lost),
    ensures
        lost <==> exists|phrase: Seq<char>, at: int|
            is_telling(phrase) && #[trigger] reads_at(phrase, msg@, at),
{
    lemma_message_tells_by_what_it_reads(msg@);
}

/// Text before and after the text of a protocol error that means a lost connection
/// leaves the error meaning one.
pub proof fn law_protocol_errors_survive_context(
    platform: Platform,
    error: Error,
    larger: Error,
    msg: String,
    larger_msg: String,
    before: Seq<char>,
    after: Seq<char>,
    lost: bool,
    larger_lost: bool,
)
    requires
        error == Error::Kafka(KafkaError::Protocol(msg)),
        larger == Error::Kafka(KafkaError::Protocol(larger_msg)),
        larger_msg@ == before + msg@ + after,
        call_ensures(is_connection_error_on, (platform, &error), lost),
        call_ensures(is_connection_error_on, (platform, &larger), larger_lost),
    ensures
        lost ==> larger_lost,
{
    law_protocol_errors_answer_by_what_they_read(platform, error, msg, lost);
    law_protocol_errors_answer_by_what_they_read(platform, larger, larger_msg, larger_lost);
    if lost {
        let (phrase, at) = choose|phrase: Seq<char>, at: int|
            is_telling(phrase) && #[trigger] reads_at(phrase, msg@, at);
        let shifted = before.len() + at;
        assert forall|i: int| 0 <= i < phrase.len() implies {
            let read = larger_msg@[shifted + i] as int;
            let meant = (#[trigger] phrase[i]) as int;
            read == meant || 65 <= read <= 90 && read + 32 == meant
        } by {
            assert(larger_msg@[shifted + i] == msg@[at + i]);
        }
        assert(reads_at(phrase, larger_msg@, shifted));
    }
}

/// Protocol errors whose texts differ in the case of ASCII letters alone, that is by
/// 32 code points at capitals 65 to 90, are answered alike.
pub proof fn law_protocol_errors_ignore_case(
    platform: Platform,
    capital: Error,
    small: Error,
    capital_msg: String,
    small_msg: String,
    capital_lost: bool,
    small_lost: bool,
)
    requires
        capital == Error::Kafka(KafkaError::Protocol(capital_msg)),
        small == Error::Kafka(KafkaError::Protocol(small_msg)),
        capital_msg@.len() == small_msg@.len(),
        forall|i: int|
            0 <= i < small_msg@.len() ==> {
                let c = capital_msg@[i] as int;
                let s = (#[trigger] small_msg@[i]) as int;
                c == s || 65 <= c <= 90 && s == c + 32
            },
        call_ensures(is_connection_error_on, (platform, &capital), capital_lost),
        call_ensures(is_connection_error_on, (platform, &small), small_lost),
    ensures
        capital_lost == small_lost,
{
    assert forall|i: int| 0 <= i < small_msg@.len() implies text::ascii_lower(capital_msg@)[i]
        == text::ascii_lower(small_msg@)[i] by {
        let s = small_msg@[i];
    }
    assert(text::ascii_lower(capital_msg@) =~= text::ascii_lower(small_msg@));
}

/// The error for an I/O failure holds the operation, the kind, the code and the text,
/// and is answered on every platform as that kind and that code are.
pub proof fn law_io_errors_keep_what_decides(
    platform: Platform,
    operation: &str,
    e: &io::Error,
    failure: KafkaError,
    error: Error,
    lost: bool,
    lost_by_kind_and_code: bool,
)
    requires
        call_ensures(connection_io_error, (operation, e), failure),
        error == Error::Kafka(failure),
        call_ensures(is_connection_error_on, (platform, &error), lost),
        call_ensures(
            is_connection_io_kind_on,
            (platform, io_error::io_error_kind(*e), io_error::io_error_code(*e)),
            lost_by_kind_and_code,
        ),
    ensures
        failure is ConnectionIo,
        failure->operation@ == operation@,
        failure->kind == io_error::io_error_kind(*e),
        failure->raw_os_error == io_error::io_error_code(*e),
        vstd::string::to_string_from_display_ensures(e, failure->ConnectionIo_message),
        lost == lost_by_kind_and_code,
{
}

/// The error for a request that timed out holds the operation and the message, and is
/// answered as a lost connection on every platform.
pub proof fn law_request_timeouts_are_answered_as_lost(
    platform: Platform,
    operation: &str,
    message: String,
    timeout: KafkaError,
    error: Error,
    lost: bool,
)
    requires
        call_ensures(request_timeout_error, (operation, message), timeout),
        error == Error::Kafka(timeout),
        call_ensures(is_connection_error_on, (platform, &error), lost) || call_ensures(
            is_connection_error,
            (&error,),
            lost,
        ),
    ensures
        timeout is ConnectionIo,
        timeout->operation@ == operation@,
        timeout->kind == io::ErrorKind::TimedOut,
        timeout->raw_os_error is None,
        timeout->ConnectionIo_message == message,
        lost,
{
}

} // verus!
