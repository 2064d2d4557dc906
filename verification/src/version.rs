//! Version resolution: what the installed browser and the downloaded
//! driver report as their versions, and whether a fetch is needed.
//!
//! The filesystem and subprocess work (checking that an executable exists,
//! running the platform's version query) happens outside; its observations
//! arrive here as an [`ExecutableProbe`] and every decision on them is
//! verified. Version strings are compared as exact strings, not as
//! semantic versions: any mismatch, down to one character, triggers a
//! re-fetch, because driver and browser are pinned to exact builds.

use vstd::prelude::*;

use crate::Platform;
use crate::error::Error;
use crate::expected_driver_path;
use crate::spec_driver_path;
use crate::text::trim_spaces;
use crate::text::trimmed;
use crate::text::lossy_utf8;
use crate::text::string_from_utf8;
use crate::text::string_from_utf8_lossy;

verus! {

use vstd::string::StringExecFns;
use vstd::utf8::valid_utf8;
use vstd::utf8::decode_utf8;

/// What a finished version-query subprocess left behind.
#[derive(Debug, Clone)]
pub struct CmdOutput {
    /// Whether the query exited successfully.
    pub success: bool,
    /// Its standard output, raw.
    pub stdout: Vec<u8>,
    /// Its standard error, raw.
    pub stderr: Vec<u8>,
}

/// What probing an executable on disk observed: either no file at its
/// path, or the output of the version query that was run against it.
#[derive(Debug, Clone)]
pub enum ExecutableProbe {
    Missing,
    Queried(CmdOutput),
}

/// Whether the probe found the executable and queried it successfully.
pub open spec fn probe_ok(probe: ExecutableProbe) -> bool {
    probe matches ExecutableProbe::Queried(out) && out.success
}

/// The version string a successful probe reports: its standard output,
/// decoded and trimmed.
pub open spec fn probe_version(probe: ExecutableProbe) -> Seq<char>
    recommends
        probe_ok(probe),
{
    trimmed(lossy_utf8(probe->Queried_0.stdout@))
}

/// Exactly what [`check_version`] returns for a path and a probe: the
/// trimmed version on success, and the error the original observation
/// dictates otherwise.
pub open spec fn check_version_post(
    path: Seq<char>,
    probe: ExecutableProbe,
    r: Result<String, Error>,
) -> bool {
    match probe {
        ExecutableProbe::Missing => r matches Err(Error::ExecutableNotFound(p)) && p@ == path,
        ExecutableProbe::Queried(out) => if out.success {
            r matches Ok(v) && v@ == trimmed(lossy_utf8(out.stdout@))
        } else if valid_utf8(out.stderr@) {
            r matches Err(Error::VersionNotFound(m)) && m@ == decode_utf8(out.stderr@)
        } else {
            r matches Err(Error::InvalidUtf8)
        },
    }
}

/// Turn a probe of the executable at `path` into its version string:
/// the query's trimmed standard output. A missing file is
/// `ExecutableNotFound`; a failed query is `VersionNotFound` carrying the
/// query's error output, or `InvalidUtf8` when that output is not UTF-8.
pub fn check_version(path: &str, probe: ExecutableProbe) -> (r: Result<String, Error>)
    ensures
        check_version_post(path@, probe, r),
{
    match probe {
        ExecutableProbe::Missing => Err(Error::ExecutableNotFound(path.to_owned())),
        ExecutableProbe::Queried(out) => {
            if out.success {
                let decoded = string_from_utf8_lossy(&out.stdout);
                Ok(trim_spaces(decoded.as_str()))
            } else {
                match string_from_utf8(out.stderr) {
                    Some(m) => Err(Error::VersionNotFound(m)),
                    None => Err(Error::InvalidUtf8),
                }
            }
        },
    }
}

/// The fixed install path of the Edge browser executable.
pub open spec fn spec_edge_executable_path() -> Seq<char> {
    "C:\\Program Files (x86)\\Microsoft\\Edge\\Application\\msedge.exe"@
}

pub fn edge_executable_path() -> (r: &'static str)
    ensures
        r@ == spec_edge_executable_path(),
{
    "C:\\Program Files (x86)\\Microsoft\\Edge\\Application\\msedge.exe"
}

/// The installed Edge browser's version, from a probe of its fixed path.
pub fn msedge_version(probe: ExecutableProbe) -> (r: Result<String, Error>)
    ensures
        check_version_post(spec_edge_executable_path(), probe, r),
{
    check_version(edge_executable_path(), probe)
}

/// The downloaded Edge driver's version, from a probe of its path.
pub fn msedgedriver_version(driver_path: &str, probe: ExecutableProbe) -> (r: Result<
    String,
    Error,
>)
    ensures
        check_version_post(driver_path@, probe, r),
{
    check_version(driver_path, probe)
}

/// The fetch decision: fetch when no driver file exists, or when the
/// driver's version string is not exactly the browser's.
pub fn needs_fetch(driver_exists: bool, driver_version: &String, browser_version: &String) -> (b:
    bool)
    ensures
        b == (!driver_exists || driver_version@ != browser_version@),
{
    if !driver_exists {
        true
    } else if driver_version.eq(browser_version) {
        false
    } else {
        true
    }
}

/// Exactly what [`resolve`] returns. On success the expected driver path
/// comes with the fetch decision: always fetch when the driver file is
/// missing; on Windows, when present, fetch exactly on a version mismatch;
/// on macOS the version comparison is deferred to the platform helper,
/// which skips the work when the installed driver already matches, so the
/// flag stays raised. Errors arise only from a failed Windows version
/// probe — the driver's first, then the browser's.
pub open spec fn resolve_post(
    platform: Platform,
    data_dir: Seq<char>,
    driver_exists: bool,
    driver_probe: ExecutableProbe,
    browser_probe: ExecutableProbe,
    r: Result<(bool, String), Error>,
) -> bool {
    match r {
        Ok(pair) => {
            &&& pair.1@ == spec_driver_path(platform, data_dir)
            &&& match platform {
                Platform::MacOs => pair.0 == true,
                Platform::Windows => {
                    &&& (!driver_exists ==> pair.0 == true)
                    &&& (driver_exists ==> probe_ok(driver_probe) && probe_ok(browser_probe)
                        && pair.0 == (probe_version(driver_probe) != probe_version(browser_probe)))
                },
            }
        },
        Err(e) => {
            &&& platform is Windows
            &&& driver_exists
            &&& {
                ||| check_version_post(spec_driver_path(platform, data_dir), driver_probe, Err(e))
                ||| (probe_ok(driver_probe) && check_version_post(
                    spec_edge_executable_path(),
                    browser_probe,
                    Err(e),
                ))
            }
        },
    }
}

/// Decide whether the driver must be fetched, and where it is expected to
/// live. See [`resolve_post`] for the exact promise.
pub fn resolve(
    platform: Platform,
    data_dir: &str,
    driver_exists: bool,
    driver_probe: ExecutableProbe,
    browser_probe: ExecutableProbe,
) -> (r: Result<(bool, String), Error>)
    ensures
        resolve_post(platform, data_dir@, driver_exists, driver_probe, browser_probe, r),
{
    let path = expected_driver_path(platform, data_dir);
    match platform {
        Platform::MacOs => Ok((true, path)),
        Platform::Windows => {
            if !driver_exists {
                Ok((true, path))
            } else {
                let dv = match msedgedriver_version(path.as_str(), driver_probe) {
                    Ok(v) => v,
                    Err(e) => {
                        return Err(e);
                    },
                };
                let bv = match msedge_version(browser_probe) {
                    Ok(v) => v,
                    Err(e) => {
                        return Err(e);
                    },
                };
                Ok((needs_fetch(true, &dv, &bv), path))
            }
        },
    }
}

} // verus!
