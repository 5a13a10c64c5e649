//! The platform that the library runs on, as far as the meaning of small
//! operating system codes depends on it.

use vstd::prelude::*;

verus! {

/// Whose error codes the codes below the Winsock range are.
#[derive(Clone, Copy, Debug, PartialEq, Eq, Structural)]
pub enum Platform {
    /// Windows: they are Win32 codes.
    Windows,
    /// Any other system: they are values of `errno`.
    Other,
}

/// `std::path::MAIN_SEPARATOR`, the primary separator of path components on the
/// platform of the build. Nothing is claimed of its value.
#[verifier::external_body]
fn main_separator() -> char {
    std::path::MAIN_SEPARATOR
}

/// `std::path::is_separator` says whether the platform of the build permits a
/// character as a path separator. Nothing is claimed of the answer.
pub assume_specification[ std::path::is_separator ](c: char) -> bool;

impl Platform {
    /// The platform with these path separators. On Windows the backslash is the
    /// primary separator and the slash is permitted beside it; no other target
    /// has both.
    pub open spec fn of_separators(primary: char, slash_permitted: bool) -> Platform {
        if primary == '\\' && slash_permitted {
            Platform::Windows
        } else {
            Platform::Other
        }
    }

    /// The platform whose primary path separator is `primary` and which permits
    /// the slash or not.
    pub fn from_separators(primary: char, slash_permitted: bool) -> (platform: Platform)
        ensures
            platform == Platform::of_separators(primary, slash_permitted),
    {
        if primary == '\\' && slash_permitted {
            Platform::Windows
        } else {
            Platform::Other
        }
    }

    /// `platform` is told by separators that `std` can report for the build.
    pub closed spec fn may_be_host(platform: Platform) -> bool {
        exists|primary: char, slash_permitted: bool|
            {
                &&& #[trigger] call_ensures(main_separator, (), primary)
                &&& #[trigger] call_ensures(std::path::is_separator, ('/',), slash_permitted)
                &&& platform == Platform::of_separators(primary, slash_permitted)
            }
    }

    /// The platform of the build, told by the separators that `std` reports. Which
    /// platform that is, is left open.
    pub(crate) fn host() -> (platform: Platform)
        ensures
            Platform::may_be_host(platform),
    {
        let primary = main_separator();
        let slash_permitted = std::path::is_separator('/');
        Platform::from_separators(primary, slash_permitted)
    }
}

/// Windows is told by a primary backslash beside a permitted slash, and by nothing
/// else.
pub proof fn law_windows_is_told_by_both_separators(
    primary: char,
    slash_permitted: bool,
    platform: Platform,
)
    requires
        call_ensures(Platform::from_separators, (primary, slash_permitted), platform),
    ensures
        platform is Windows <==> primary as int == 92 && slash_permitted,
        platform is Other <==> primary as int != 92 || !slash_permitted,
{
}

/// The platform of the build is what its own separators tell.
proof fn law_host_is_told_by_its_separators(platform: Platform)
    requires
        call_ensures(Platform::host, (), platform) || Platform::may_be_host(platform),
    ensures
        exists|primary: char, slash_permitted: bool|
            {
                &&& #[trigger] call_ensures(main_separator, (), primary)
                &&& #[trigger] call_ensures(std::path::is_separator, ('/',), slash_permitted)
                &&& platform is Windows <==> primary as int == 92 && slash_permitted
            },
{
}

} // verus!
