//! The error surface of the lifecycle manager.
//!
//! Every failure is a plain value that renders to a human-readable string,
//! so the hosting application can report it across its bridge.

use vstd::prelude::*;

verus! {

use vstd::string::StringExecFns;

/// Everything that can go wrong while provisioning or supervising the
/// driver. Variants that wrap a foreign failure carry its rendered text.
#[derive(Debug, Clone)]
pub enum Error {
    /// A file or process operation failed; holds the OS error's text.
    Io(String),
    /// Opening the WebDriver session failed; holds the transport error's text.
    Session(String),
    /// Downloading or installing the driver failed; holds the cause's text.
    Download(String),
    /// The browser is not installed at the given path.
    BrowserNotFound(String),
    /// The version query ran but reported failure; holds its error output.
    VersionNotFound(String),
    /// No executable exists at the given path.
    ExecutableNotFound(String),
    /// The driver archive could not be read; holds the archive error's text.
    Archive(String),
    /// The driver archive holds no entry with the expected name.
    EntryNotFound(String),
    /// The version query's error output was not valid UTF-8.
    InvalidUtf8,
    /// Every port in the search range was tried without claiming one.
    PortsExhausted,
}

impl Error {
    /// The human-readable rendering of the error.
    pub open spec fn spec_message(self) -> Seq<char> {
        match self {
            Error::Io(s) => s@,
            Error::Session(s) => s@,
            Error::Download(s) => s@,
            Error::BrowserNotFound(p) => "Browser is not installed in `"@ + p@ + "`"@,
            Error::VersionNotFound(s) => "Error fetching version info: "@ + s@,
            Error::ExecutableNotFound(p) => "Executable not found at "@ + p@,
            Error::Archive(s) => s@,
            Error::EntryNotFound(n) => "Entry `"@ + n@ + "` not found in the driver archive"@,
            Error::InvalidUtf8 => "Version query output was not valid UTF-8"@,
            Error::PortsExhausted => "No free port could be claimed for the driver"@,
        }
    }

    /// Render the error as a string for cross-boundary reporting.
    pub fn message(&self) -> (r: String)
        ensures
            r@ == self.spec_message(),
    {
        match self {
            Error::Io(s) => s.clone(),
            Error::Session(s) => s.clone(),
            Error::Download(s) => s.clone(),
            Error::BrowserNotFound(p) => {
                let mut r = "Browser is not installed in `".to_owned();
                r.append(p.as_str());
                r.append("`");
                r
            },
            Error::VersionNotFound(s) => {
                let mut r = "Error fetching version info: ".to_owned();
                r.append(s.as_str());
                r
            },
            Error::ExecutableNotFound(p) => {
                let mut r = "Executable not found at ".to_owned();
                r.append(p.as_str());
                r
            },
            Error::Archive(s) => s.clone(),
            Error::EntryNotFound(n) => {
                let mut r = "Entry `".to_owned();
                r.append(n.as_str());
                r.append("` not found in the driver archive");
                r
            },
            Error::InvalidUtf8 => "Version query output was not valid UTF-8".to_owned(),
            Error::PortsExhausted => "No free port could be claimed for the driver".to_owned(),
        }
    }
}

} // verus!
