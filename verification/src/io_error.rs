//! What the library reads of `std::io::Error`: its kind, its operating system
//! code and its text. None of the three is computed here.

use vstd::prelude::*;

verus! {

/// Declares `std::io::ErrorKind` with its variants, which carry no fields, so that
/// a kind can be matched on.
#[verifier::external_type_specification]
pub struct ExErrorKind(std::io::ErrorKind);

/// Declares `std::io::Error`, of which nothing inside is known.
#[verifier::external_type_specification]
#[verifier::external_body]
pub struct ExIoError(std::io::Error);

/// The kind that `e` reports. It belongs to the value: an error never changes
/// its kind. How `std` finds the kind of an operating system code is left open,
/// for that differs between platforms.
pub uninterp spec fn io_error_kind(e: std::io::Error) -> std::io::ErrorKind;

/// The operating system code that `e` carries, if it carries one.
pub uninterp spec fn io_error_code(e: std::io::Error) -> Option<i32>;

/// The text that `{:?}` gives for `kind`. Its spelling is left open.
pub uninterp spec fn kind_name(kind: std::io::ErrorKind) -> Seq<char>;

/// `std::io::Error::kind` returns the kind of the error it is called on.
pub assume_specification[ std::io::Error::kind ](e: &std::io::Error) -> (kind: std::io::ErrorKind)
    ensures
        kind == io_error_kind(*e),
;

/// `std::io::Error::raw_os_error` returns the operating system code of the error
/// it is called on, or `None` where the error was not made from such a code.
pub assume_specification[ std::io::Error::raw_os_error ](e: &std::io::Error) -> (code: Option<i32>)
    ensures
        code == io_error_code(*e),
;

/// The `Debug` text of `std::io::ErrorKind`, which depends on the kind alone.
#[verifier::external_body]
pub(crate) fn kind_text(kind: std::io::ErrorKind) -> (text: String)
    ensures
        text@ == kind_name(kind),
{
    format!("{:?}", kind)
}

} // verus!
