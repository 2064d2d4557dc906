//! Core logic of a local WebDriver lifecycle manager.
//!
//! The library decides everything the manager does: which driver file is
//! expected where, whether a version-matched fetch is needed, how the free
//! port is searched and claimed, what a session's capabilities and timeouts
//! are, and how the supervised process is torn down. All decisions are made
//! over plain values; the surrounding process, network and filesystem work
//! feeds those values in and carries the answers out.

use vstd::prelude::*;

pub mod error;
pub mod fetch;
pub mod session;
pub mod supervisor;
pub mod text;
pub mod version;

verus! {

use vstd::string::StringExecFns;

/// The two supported platforms; each pairs the platform-native browser with
/// its WebDriver binary (Chrome with chromedriver, Edge with msedgedriver).
#[derive(Clone, Copy, PartialEq, Eq, Structural, Debug)]
pub enum Platform {
    MacOs,
    Windows,
}

/// The file name of the driver executable for the platform.
pub open spec fn spec_driver_filename(p: Platform) -> Seq<char> {
    match p {
        Platform::MacOs => "chromedriver"@,
        Platform::Windows => "msedgedriver.exe"@,
    }
}

/// The path separator the platform uses.
pub open spec fn spec_path_sep(p: Platform) -> Seq<char> {
    match p {
        Platform::MacOs => "/"@,
        Platform::Windows => "\\"@,
    }
}

/// Where the driver executable lives under the managed data directory.
pub open spec fn spec_driver_path(p: Platform, data_dir: Seq<char>) -> Seq<char> {
    data_dir + spec_path_sep(p) + spec_driver_filename(p)
}

pub fn driver_filename(p: Platform) -> (r: &'static str)
    ensures
        r@ == spec_driver_filename(p),
{
    match p {
        Platform::MacOs => "chromedriver",
        Platform::Windows => "msedgedriver.exe",
    }
}

pub fn path_sep(p: Platform) -> (r: &'static str)
    ensures
        r@ == spec_path_sep(p),
{
    match p {
        Platform::MacOs => "/",
        Platform::Windows => "\\",
    }
}

/// The expected location of the driver executable: the managed data
/// directory joined with the platform's driver file name.
pub fn expected_driver_path(p: Platform, data_dir: &str) -> (r: String)
    ensures
        r@ == spec_driver_path(p, data_dir@),
{
    let mut r = data_dir.to_owned();
    r.append(path_sep(p));
    r.append(driver_filename(p));
    r
}

} // verus!
