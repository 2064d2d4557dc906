//! Session configuration: everything a WebDriver session open needs,
//! pinned down as plain values — the local URL of the supervised driver,
//! the platform's capability key and privacy flag, the isolated profile
//! directory, the user-agent override and the timeouts.
//!
//! The connection itself (the WebDriver handshake) happens outside; it
//! reads this configuration and must change nothing about it. The
//! user-agent override and the timeouts are advisory: applying them is
//! best-effort and their failure is swallowed.

use vstd::prelude::*;

use crate::Platform;
use crate::spec_path_sep;
use crate::path_sep;
use crate::text::dec_rep;
use crate::text::u16_to_dec;

verus! {

use vstd::string::StringExecFns;

/// The page-load timeout a fresh session is configured with, in seconds.
pub const PAGE_LOAD_TIMEOUT_SECS: u64 = 60;

/// The script timeout a fresh session is configured with, in seconds.
pub const SCRIPT_TIMEOUT_SECS: u64 = 60;

/// The implicit-wait timeout a fresh session is configured with, in seconds.
pub const IMPLICIT_TIMEOUT_SECS: u64 = 15;

/// Everything one session-open call needs, as plain values.
#[derive(Debug, Clone)]
pub struct SessionConfig {
    /// Where the supervised driver listens.
    pub webdriver_url: String,
    /// The vendor-specific capability key the options go under.
    pub capability_key: String,
    /// The platform's private-browsing flag.
    pub privacy_arg: String,
    /// The flag that scopes the browser profile under the managed data
    /// directory, isolated from the user's real profile.
    pub user_data_arg: String,
    /// The user-agent override applied after connecting, best-effort.
    pub user_agent: String,
    /// Page-load timeout, seconds.
    pub page_load_timeout_secs: u64,
    /// Script timeout, seconds.
    pub script_timeout_secs: u64,
    /// Implicit-wait timeout, seconds.
    pub implicit_timeout_secs: u64,
}

/// The URL of the driver supervised on a local port.
pub open spec fn spec_session_url(port: u16) -> Seq<char> {
    "http://localhost:"@ + dec_rep(port as nat)
}

/// The vendor-specific capability key of the platform's browser.
pub open spec fn spec_capability_key(p: Platform) -> Seq<char> {
    match p {
        Platform::MacOs => "goog:chromeOptions"@,
        Platform::Windows => "ms:edgeOptions"@,
    }
}

/// The platform's private-browsing argument.
pub open spec fn spec_privacy_arg(p: Platform) -> Seq<char> {
    match p {
        Platform::MacOs => "--incognito"@,
        Platform::Windows => "-inprivate"@,
    }
}

/// The argument that puts the profile in `driver-user-data` under the
/// managed data directory.
pub open spec fn spec_user_data_arg(p: Platform, data_dir: Seq<char>) -> Seq<char> {
    "--user-data-dir="@ + data_dir + spec_path_sep(p) + "driver-user-data"@
}

/// The user agent every session is overridden to report.
pub open spec fn spec_session_user_agent() -> Seq<char> {
    "Mozilla/5.0 (Windows NT 10.0; Win64; x64)"@
}

/// Build the URL of the driver supervised on `port`.
pub fn session_url(port: u16) -> (r: String)
    ensures
        r@ == spec_session_url(port),
{
    let mut r = "http://localhost:".to_owned();
    let digits = u16_to_dec(port);
    r.append(digits.as_str());
    r
}

/// Assemble the full configuration of one session against the driver
/// supervised on `port`, with the profile isolated under `data_dir`.
pub fn session_config(p: Platform, port: u16, data_dir: &str) -> (r: SessionConfig)
    ensures
        r.webdriver_url@ == spec_session_url(port),
        r.capability_key@ == spec_capability_key(p),
        r.privacy_arg@ == spec_privacy_arg(p),
        r.user_data_arg@ == spec_user_data_arg(p, data_dir@),
        r.user_agent@ == spec_session_user_agent(),
        r.page_load_timeout_secs == PAGE_LOAD_TIMEOUT_SECS,
        r.script_timeout_secs == SCRIPT_TIMEOUT_SECS,
        r.implicit_timeout_secs == IMPLICIT_TIMEOUT_SECS,
{
    let capability_key = match p {
        Platform::MacOs => "goog:chromeOptions",
        Platform::Windows => "ms:edgeOptions",
    };
    let privacy_arg = match p {
        Platform::MacOs => "--incognito",
        Platform::Windows => "-inprivate",
    };
    let mut user_data_arg = "--user-data-dir=".to_owned();
    user_data_arg.append(data_dir);
    user_data_arg.append(path_sep(p));
    user_data_arg.append("driver-user-data");
    SessionConfig {
        webdriver_url: session_url(port),
        capability_key: capability_key.to_owned(),
        privacy_arg: privacy_arg.to_owned(),
        user_data_arg,
        user_agent: "Mozilla/5.0 (Windows NT 10.0; Win64; x64)".to_owned(),
        page_load_timeout_secs: PAGE_LOAD_TIMEOUT_SECS,
        script_timeout_secs: SCRIPT_TIMEOUT_SECS,
        implicit_timeout_secs: IMPLICIT_TIMEOUT_SECS,
    }
}

} // verus!
