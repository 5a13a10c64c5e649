//! The errors of the library and their texts.

use vstd::prelude::*;
use vstd::string::StringExecFns;

use crate::io_error;
use crate::text;

verus! {

/// A failure in talking to a Kafka broker.
#[derive(Debug)]
pub enum KafkaError {
    /// No connection to the broker could be opened.
    ConnectionFailed { broker: String, message: String },
    /// I/O on an open connection failed. Kind and operating system code are kept,
    /// so that the failure can be classified without reading `message`.
    ConnectionIo {
        operation: String,
        kind: std::io::ErrorKind,
        raw_os_error: Option<i32>,
        message: String,
    },
    /// The broker answered with an error code.
    BrokerError { code: i16, message: String },
    /// A request or a response broke the protocol.
    Protocol(String),
}

/// Any failure of the library.
#[derive(Debug)]
pub enum Error {
    Kafka(KafkaError),
    Compression(String),
}

/// The text shown for a failed I/O operation whose kind has the name `kind_name`.
pub open spec fn io_failure_text(
    operation: Seq<char>,
    kind_name: Seq<char>,
    message: Seq<char>,
) -> Seq<char> {
    "Connection error during "@ + operation + " ("@ + kind_name + "): "@ + message
}

/// The text shown for a failed I/O operation whose kind has the name `kind_name`.
pub fn show_io_failure(operation: &str, kind_name: &str, message: &str) -> (shown: String)
    ensures
        shown@ == io_failure_text(operation@, kind_name@, message@),
{
    let mut shown = "Connection error during ".to_owned();
    shown.append(operation);
    shown.append(" (");
    shown.append(kind_name);
    shown.append("): ");
    shown.append(message);
    shown
}

impl KafkaError {
    /// The error for a failed I/O operation with these four parts.
    pub fn connection_io(
        operation: &str,
        kind: std::io::ErrorKind,
        raw_os_error: Option<i32>,
        message: String,
    ) -> (error: KafkaError)
        ensures
            error matches KafkaError::ConnectionIo {
                operation: op,
                kind: k,
                raw_os_error: code,
                message: text,
            } && op@ == operation@ && k == kind && code == raw_os_error && text == message,
    {
        KafkaError::ConnectionIo { operation: operation.to_owned(), kind, raw_os_error, message }
    }

    /// The text shown to users.
    pub open spec fn text(self) -> Seq<char> {
        match self {
            KafkaError::ConnectionFailed { broker, message } => {
                "Failed to connect to broker "@ + broker@ + ": "@ + message@
            },
            KafkaError::ConnectionIo { operation, kind, message, .. } => {
                io_failure_text(operation@, io_error::kind_name(kind), message@)
            },
            KafkaError::BrokerError { code, message } => {
                "Broker returned error code "@ + text::decimal(code as int) + ": "@ + message@
            },
            KafkaError::Protocol(message) => "Protocol error: "@ + message@,
        }
    }

    /// The text shown to users.
    pub fn to_string(&self) -> (shown: String)
        ensures
            shown@ == self.text(),
    {
        match self {
            KafkaError::ConnectionFailed { broker, message } => {
                let mut shown = "Failed to connect to broker ".to_owned();
                shown.append(broker.as_str());
                shown.append(": ");
                shown.append(message.as_str());
                shown
            },
            KafkaError::ConnectionIo { operation, kind, message, .. } => {
                let name = io_error::kind_text(*kind);
                show_io_failure(operation.as_str(), name.as_str(), message.as_str())
            },
            KafkaError::BrokerError { code, message } => {
                let mut shown = "Broker returned error code ".to_owned();
                shown.append(text::decimal_text(*code as i32).as_str());
                shown.append(": ");
                shown.append(message.as_str());
                shown
            },
            KafkaError::Protocol(message) => {
                let mut shown = "Protocol error: ".to_owned();
                shown.append(message.as_str());
                shown
            },
        }
    }
}

impl Error {
    /// The text shown to users.
    pub open spec fn text(self) -> Seq<char> {
        match self {
            Error::Kafka(error) => error.text(),
            Error::Compression(message) => "Compression error: "@ + message@,
        }
    }

    /// The text shown to users.
    pub fn to_string(&self) -> (shown: String)
        ensures
            shown@ == self.text(),
    {
        match self {
            Error::Kafka(error) => error.to_string(),
            Error::Compression(message) => {
                let mut shown = "Compression error: ".to_owned();
                shown.append(message.as_str());
                shown
            },
        }
    }
}

/// Every failure in talking to a broker shows all that it tells, in full and in this
/// order. The code of a broker stands there in decimal.
pub proof fn law_kafka_errors_show_their_parts(error: KafkaError, shown: String)
    requires
        call_ensures(KafkaError::to_string, (&error,), shown),
    ensures
        error matches KafkaError::ConnectionFailed { broker, message } ==> shown@
            == "Failed to connect to broker "@ + broker@ + ": "@ + message@,
        error matches KafkaError::ConnectionIo { operation, kind, message, .. } ==> shown@
            == "Connection error during "@ + operation@ + " ("@ + io_error::kind_name(kind) + "): "@
            + message@,
        error matches KafkaError::BrokerError { code, message } ==> forall|written: String|
            #[trigger] call_ensures(text::decimal_text, (code as i32,), written) ==> shown@
                == "Broker returned error code "@ + written@ + ": "@ + message@,
        error matches KafkaError::Protocol(message) ==> shown@ == "Protocol error: "@ + message@,
{
}

/// A Kafka failure shows as the failure it holds, and a compression failure shows its
/// message in full.
pub proof fn law_errors_show_their_parts(error: Error, shown: String)
    requires
        call_ensures(Error::to_string, (&error,), shown),
    ensures
        error matches Error::Kafka(inner) ==> forall|inner_shown: String| #[trigger]
            call_ensures(KafkaError::to_string, (&inner,), inner_shown) ==> shown@ == inner_shown@,
        error matches Error::Compression(message) ==> shown@ == "Compression error: "@ + message@,
{
}

/// The text for a failed I/O operation takes its three parts as they are.
pub proof fn law_io_failures_show_their_parts(
    operation: &str,
    kind_name: &str,
    message: &str,
    shown: String,
)
    requires
        call_ensures(show_io_failure, (operation, kind_name, message), shown),
    ensures
        shown@ == "Connection error during "@ + operation@ + " ("@ + kind_name@ + "): "@ + message@,
{
}

/// The error for a failed I/O operation holds the four parts it was made of.
pub proof fn law_connection_io_holds_its_parts(
    operation: &str,
    kind: std::io::ErrorKind,
    raw_os_error: Option<i32>,
    message: String,
    error: KafkaError,
)
    requires
        call_ensures(KafkaError::connection_io, (operation, kind, raw_os_error, message), error),
    ensures
        error is ConnectionIo,
        error->operation@ == operation@,
        error->kind == kind,
        error->raw_os_error == raw_os_error,
        error->ConnectionIo_message == message,
{
}

} // verus!
