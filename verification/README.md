# kafka_backup_core

Verified classification of connection failures for a Kafka backup client.

A client that talks to a broker has to know whether a failed request means that
the connection is gone, so that it should reconnect and retry, or that something
else is wrong. `kafka::is_connection_error` answers that. It reads the kind and
the operating system code of an I/O failure and never its message, which operating
systems translate; a protocol error, which is nothing but text, is searched for
telling phrases.

- `src/error.rs`: the errors and the texts they show
- `src/io_error.rs`: what is taken on trust of `std::io`
- `src/platform.rs`: whose error codes small numbers are
- `src/text.rs`: ASCII lower case, substring search, decimal numbers
- `src/kafka/connection_error.rs`: the classification
- `src/kafka/laws.rs`: what holds of the classification as a whole
- `tests/`: tests on concrete errors

`is_connection_error` uses the codes of the platform of the build. Two Win32 codes
mean a lost connection on Windows and something else elsewhere; to fix the
platform, use `is_connection_error_on`.
