//! Driver fetching: the versioned download URL, and the extraction of the
//! single driver executable out of the downloaded release archive.
//!
//! The HTTP download itself happens outside and hands its bytes in; the
//! archive walk — find the one entry named like the driver, take exactly
//! its bytes, discard everything else — is verified here against trusted
//! contracts over the zip reader.

use vstd::prelude::*;

use crate::error::Error;
use crate::text::bytes_eq;
use crate::text::dec_rep;
use crate::text::u16_to_dec;

verus! {

use vstd::string::StrSliceExecFns;
use vstd::string::StringExecFns;
use vstd::string::StringSliceAdditionalSpecFns;

/// The versioned distribution URL of the Edge driver archive.
pub open spec fn spec_driver_archive_url(version: Seq<char>) -> Seq<char> {
    "https://msedgedriver.azureedge.net/"@ + version + "/edgedriver_win64.zip"@
}

/// Build the download URL for an exact driver version.
pub fn msedgedriver_url(version: &str) -> (r: String)
    ensures
        r@ == spec_driver_archive_url(version@),
{
    let mut r = "https://msedgedriver.azureedge.net/".to_owned();
    r.append(version);
    r.append("/edgedriver_win64.zip");
    r
}

/// The browser-like user agent the download request carries so the
/// distribution endpoint does not block it.
pub open spec fn spec_download_user_agent() -> Seq<char> {
    "Mozilla/5.0 (Windows NT 10.0; Win64; x64) AppleWebKit/537.36 (KHTML, like Gecko)"@
}

pub fn download_user_agent() -> (r: &'static str)
    ensures
        r@ == spec_download_user_agent(),
{
    "Mozilla/5.0 (Windows NT 10.0; Win64; x64) AppleWebKit/537.36 (KHTML, like Gecko)"
}

#[verifier::external_type_specification]
#[verifier::external_body]
#[verifier::reject_recursive_types(T)]
pub struct ExCursor<T>(std::io::Cursor<T>);

#[verifier::external_type_specification]
#[verifier::external_body]
#[verifier::reject_recursive_types(R)]
pub struct ExZipArchive<R>(zip::ZipArchive<R>);

#[verifier::external_type_specification]
#[verifier::external_body]
pub struct ExZipError(zip::result::ZipError);

/// The entries an open archive holds, in central-directory order: each is
/// the entry's name (the bytes of `ZipFile::name`) and its decompressed
/// contents.
pub uninterp spec fn zip_entries(a: zip::ZipArchive<std::io::Cursor<Vec<u8>>>) -> Seq<
    (Seq<u8>, Seq<u8>),
>;

/// The bytes an open archive was read from.
pub uninterp spec fn zip_source(a: zip::ZipArchive<std::io::Cursor<Vec<u8>>>) -> Seq<u8>;

/// The entries a well-formed archive byte string describes; a function of
/// the bytes alone.
pub uninterp spec fn archive_entries_of(bytes: Seq<u8>) -> Seq<(Seq<u8>, Seq<u8>)>;

/// Whether `zip::ZipArchive::new` accepts the bytes as a zip archive; the
/// parse is a function of the bytes alone.
pub uninterp spec fn zip_parses(bytes: Seq<u8>) -> bool;

/// Whether entry `i` of the archive the bytes describe can be opened and
/// its contents fully read: not encrypted, its compression method
/// supported, its data sound. A function of the bytes and the index alone.
pub uninterp spec fn zip_entry_readable(bytes: Seq<u8>, i: int) -> bool;

/// Every entry the bytes describe can be fully read.
pub open spec fn all_entries_readable(bytes: Seq<u8>) -> bool {
    forall|j: int|
        0 <= j < archive_entries_of(bytes).len() ==> #[trigger] zip_entry_readable(bytes, j)
}

/// Relies on `zip::ZipArchive::new` over an in-memory cursor: the parse is
/// deterministic in the bytes and succeeds exactly when they form a zip
/// archive; on success the archive holds exactly the entries the bytes'
/// central directory describes.
#[verifier::external_body]
fn zip_open(bytes: Vec<u8>) -> (r: Result<
    zip::ZipArchive<std::io::Cursor<Vec<u8>>>,
    zip::result::ZipError,
>)
    ensures
        r is Ok <==> zip_parses(bytes@),
        r matches Ok(a) ==> zip_entries(a) == archive_entries_of(bytes@) && zip_source(a)
            == bytes@,
{
    zip::ZipArchive::new(std::io::Cursor::new(bytes))
}

/// Relies on `zip::ZipArchive::len`: the number of entries.
#[verifier::external_body]
fn zip_len(a: &zip::ZipArchive<std::io::Cursor<Vec<u8>>>) -> (n: usize)
    ensures
        n == zip_entries(*a).len(),
{
    a.len()
}

/// Relies on `zip::ZipArchive::by_index` and `ZipFile::name`: the name of
/// entry `i`, as bytes; it never fails for a fully readable entry, and
/// reading changes neither the entries the archive holds nor its source
/// bytes.
#[verifier::external_body]
fn zip_name_at(a: &mut zip::ZipArchive<std::io::Cursor<Vec<u8>>>, i: usize) -> (r: Result<
    Vec<u8>,
    zip::result::ZipError,
>)
    requires
        i < zip_entries(*old(a)).len(),
    ensures
        zip_entries(*final(a)) == zip_entries(*old(a)),
        zip_source(*final(a)) == zip_source(*old(a)),
        zip_entry_readable(zip_source(*old(a)), i as int) ==> r is Ok,
        r matches Ok(name) ==> name@ == zip_entries(*old(a))[i as int].0,
{
    let file = a.by_index(i)?;
    Ok(file.name().as_bytes().to_vec())
}

/// Relies on `zip::ZipArchive::by_index` and `Read::read_to_end` over the
/// in-memory cursor: the decompressed bytes of entry `i`. The read is
/// deterministic in the archive's bytes and succeeds exactly when the
/// entry is readable; it changes neither the entries the archive holds
/// nor its source bytes.
#[verifier::external_body]
fn zip_read_at(a: &mut zip::ZipArchive<std::io::Cursor<Vec<u8>>>, i: usize) -> (r: Result<
    Vec<u8>,
    zip::result::ZipError,
>)
    requires
        i < zip_entries(*old(a)).len(),
    ensures
        zip_entries(*final(a)) == zip_entries(*old(a)),
        zip_source(*final(a)) == zip_source(*old(a)),
        r is Ok <==> zip_entry_readable(zip_source(*old(a)), i as int),
        r matches Ok(data) ==> data@ == zip_entries(*old(a))[i as int].1,
{
    let mut file = a.by_index(i)?;
    let mut buf = Vec::new();
    if let Err(e) = std::io::Read::read_to_end(&mut file, &mut buf) {
        return Err(zip::result::ZipError::Io(e));
    }
    Ok(buf)
}

/// Relies on `ZipError`'s display rendering for error reporting.
#[verifier::external_body]
fn zip_error_text(e: &zip::result::ZipError) -> String {
    e.to_string()
}

/// Entry `i` is the first entry named `name`, and holds `data`.
pub open spec fn entry_found(
    entries: Seq<(Seq<u8>, Seq<u8>)>,
    name: Seq<u8>,
    i: int,
    data: Seq<u8>,
) -> bool {
    &&& 0 <= i < entries.len()
    &&& entries[i].0 == name
    &&& data == entries[i].1
    &&& forall|j: int| 0 <= j < i ==> (#[trigger] entries[j]).0 != name
}

/// Some entry is the first named `name` and holds `data`.
pub open spec fn found_in(entries: Seq<(Seq<u8>, Seq<u8>)>, name: Seq<u8>, data: Seq<u8>) -> bool {
    exists|i: int| entry_found(entries, name, i, data)
}

/// No entry is named `name`.
pub open spec fn no_entry_named(entries: Seq<(Seq<u8>, Seq<u8>)>, name: Seq<u8>) -> bool {
    forall|i: int| 0 <= i < entries.len() ==> (#[trigger] entries[i]).0 != name
}

/// Scan the archive for the first entry whose name is `name` and return
/// exactly its bytes; every other entry is discarded. When every entry is
/// readable, the scan is owed an answer: the first matching entry's bytes
/// when one bears the name, `EntryNotFound` when none does.
#[verifier::loop_isolation(false)]
pub fn find_entry(a: &mut zip::ZipArchive<std::io::Cursor<Vec<u8>>>, name: &str) -> (r: Result<
    Vec<u8>,
    Error,
>)
    ensures
        zip_entries(*final(a)) == zip_entries(*old(a)),
        zip_source(*final(a)) == zip_source(*old(a)),
        (r matches Ok(data) ==> found_in(zip_entries(*old(a)), name.spec_bytes(), data@)),
        (r matches Err(Error::EntryNotFound(n)) ==> n@ == name@ && no_entry_named(
            zip_entries(*old(a)),
            name.spec_bytes(),
        )),
        (r matches Err(e) ==> e is EntryNotFound || e is Archive),
        (forall|j: int|
            0 <= j < zip_entries(*old(a)).len() ==> #[trigger] zip_entry_readable(
                zip_source(*old(a)),
                j,
            )) ==> {
            &&& (!no_entry_named(zip_entries(*old(a)), name.spec_bytes()) ==> r is Ok)
            &&& (no_entry_named(zip_entries(*old(a)), name.spec_bytes()) ==> r matches Err(
                Error::EntryNotFound(_),
            ))
        },
{
    let ghost entries = zip_entries(*a);
    let target = name.as_bytes_vec();
    let n: usize = zip_len(a);
    let mut i: usize = 0;
    while i < n
        invariant
            zip_entries(*a) == entries,
            zip_entries(*old(a)) == entries,
            zip_source(*a) == zip_source(*old(a)),
            n == entries.len(),
            0 <= i <= n,
            target@ == name.spec_bytes(),
            forall|j: int| 0 <= j < i ==> (#[trigger] entries[j]).0 != target@,
        decreases n - i,
    {
        let ename = match zip_name_at(a, i) {
            Ok(v) => v,
            Err(e) => {
                return Err(Error::Archive(zip_error_text(&e)));
            },
        };
        if bytes_eq(&ename, &target) {
            let data = match zip_read_at(a, i) {
                Ok(v) => v,
                Err(e) => {
                    return Err(Error::Archive(zip_error_text(&e)));
                },
            };
            proof {
                assert(entry_found(entries, name.spec_bytes(), i as int, data@));
                assert(found_in(entries, name.spec_bytes(), data@));
            }
            return Ok(data);
        }
        i = i + 1;
    }
    Err(Error::EntryNotFound(name.to_owned()))
}

/// Extract the driver executable's bytes out of a downloaded release
/// archive: open the bytes as a zip archive and take exactly the first
/// entry named `name`, discarding all other contents. A broken archive or
/// a failed entry read is an `Archive` error; an archive without the
/// entry is `EntryNotFound`. For bytes that parse with every entry
/// readable, success is owed: the first matching entry's bytes when one
/// bears the name, `EntryNotFound` when none does.
pub fn extract_driver(archive_bytes: Vec<u8>, name: &str) -> (r: Result<Vec<u8>, Error>)
    ensures
        (r matches Ok(data) ==> found_in(
            archive_entries_of(archive_bytes@),
            name.spec_bytes(),
            data@,
        )),
        (r matches Err(Error::EntryNotFound(n)) ==> n@ == name@ && no_entry_named(
            archive_entries_of(archive_bytes@),
            name.spec_bytes(),
        )),
        (r matches Err(e) ==> e is EntryNotFound || e is Archive),
        (zip_parses(archive_bytes@) && all_entries_readable(archive_bytes@)) ==> {
            &&& (!no_entry_named(archive_entries_of(archive_bytes@), name.spec_bytes()) ==> r is Ok)
            &&& (no_entry_named(archive_entries_of(archive_bytes@), name.spec_bytes())
                ==> r matches Err(Error::EntryNotFound(_)))
        },
{
    let mut archive = match zip_open(archive_bytes) {
        Ok(a) => a,
        Err(e) => {
            return Err(Error::Archive(zip_error_text(&e)));
        },
    };
    find_entry(&mut archive, name)
}

/// What a rejected download reports: the URL and the HTTP status code.
pub open spec fn spec_download_failure_message(url: Seq<char>, status: u16) -> Seq<char> {
    "download of `"@ + url + "` failed with status "@ + dec_rep(status as nat)
}

/// The download response decision: a success status is accepted, anything
/// else is a `Download` error naming the URL and the status code.
pub fn check_download_status(success: bool, url: &str, status: u16) -> (r: Result<(), Error>)
    ensures
        match r {
            Ok(_) => success,
            Err(e) => !success && (e matches Error::Download(m) && m@
                == spec_download_failure_message(url@, status)),
        },
{
    if success {
        Ok(())
    } else {
        let mut m = "download of `".to_owned();
        m.append(url);
        m.append("` failed with status ");
        let digits = u16_to_dec(status);
        m.append(digits.as_str());
        Err(Error::Download(m))
    }
}

/// The decision of the platform-helper fetch path: fail when the browser
/// is not installed at its path, skip the work when the driver is already
/// installed at the target, download and install otherwise.
pub fn plan_helper_fetch(browser_path: &str, browser_exists: bool, already_installed: bool) -> (r:
    Result<bool, Error>)
    ensures
        match r {
            Ok(download) => browser_exists && download == !already_installed,
            Err(e) => !browser_exists && (e matches Error::BrowserNotFound(p) && p@
                == browser_path@),
        },
{
    if !browser_exists {
        Err(Error::BrowserNotFound(browser_path.to_owned()))
    } else {
        Ok(!already_installed)
    }
}

} // verus!
