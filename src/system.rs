//! Decisions that depend on the host operating system, taken from its name
//! (as `std::env::consts::OS` gives it).

use vstd::prelude::*;

verus! {

/// The operating systems that the tools tell apart.
#[derive(Clone, Copy, Debug, PartialEq, Eq, Structural)]
pub enum OsFamily {
    Windows,
    Linux,
    MacOs,
    Other,
}

/// Name of Windows.
pub const WINDOWS: &'static str = "windows";

/// Name of Linux.
pub const LINUX: &'static str = "linux";

/// Name of macOS.
pub const MACOS: &'static str = "macos";

/// The family of the operating system called `os`.
pub open spec fn family_of(os: Seq<char>) -> OsFamily {
    if os == WINDOWS@ {
        OsFamily::Windows
    } else if os == LINUX@ {
        OsFamily::Linux
    } else if os == MACOS@ {
        OsFamily::MacOs
    } else {
        OsFamily::Other
    }
}

/// The command that finds the full path of a program on each family.
pub open spec fn finder_of(family: OsFamily) -> Seq<char> {
    match family {
        OsFamily::Windows => "where.exe"@,
        OsFamily::Linux | OsFamily::MacOs => "which"@,
        OsFamily::Other => "unknown-finder"@,
    }
}

fn same_text(a: &str, b: &str) -> (r: bool)
    ensures
        r == (a@ == b@),
{
    let x = a.to_owned();
    let y = b.to_owned();
    x == y
}

/// The family of the operating system called `os`.
pub fn os_family(os: &str) -> (r: OsFamily)
    ensures
        r == family_of(os@),
{
    if same_text(os, WINDOWS) {
        OsFamily::Windows
    } else if same_text(os, LINUX) {
        OsFamily::Linux
    } else if same_text(os, MACOS) {
        OsFamily::MacOs
    } else {
        OsFamily::Other
    }
}

/// The command that finds the full path of a program: `where.exe` on
/// Windows, `which` on Linux and macOS, and a placeholder elsewhere.
pub fn finder_command(family: OsFamily) -> (r: &'static str)
    ensures
        r@ == finder_of(family),
{
    match family {
        OsFamily::Windows => "where.exe",
        OsFamily::Linux | OsFamily::MacOs => "which",
        OsFamily::Other => "unknown-finder",
    }
}

} // verus!
