use std::io::Cursor;
use std::io::Write;

use fanto::error::Error;
use fanto::fetch::check_download_status;
use fanto::fetch::download_user_agent;
use fanto::fetch::extract_driver;
use fanto::fetch::msedgedriver_url;
use fanto::fetch::plan_helper_fetch;

use zip::write::SimpleFileOptions;
use zip::ZipWriter;

/// A zip archive holding the given named entries, in order.
fn build_archive(entries: &[(&str, &[u8])]) -> Vec<u8> {
    let mut writer = ZipWriter::new(Cursor::new(Vec::new()));
    for (name, data) in entries {
        writer
            .start_file(name.to_string(), SimpleFileOptions::default())
            .expect("start entry");
        writer.write_all(data).expect("write entry");
    }
    writer.finish().expect("finish archive").into_inner()
}

#[test]
fn extracts_exactly_the_driver_entry_among_unrelated_ones() {
    let driver_bytes: Vec<u8> = (0u16..600).map(|i| (i % 251) as u8).collect();
    let bytes = build_archive(&[
        ("LICENSE", b"license text"),
        ("Driver_Notes/notes.txt", b"notes"),
        ("msedgedriver.exe", &driver_bytes),
        ("libEGL.dll", b"not the driver"),
        ("readme.md", b"readme"),
        ("msedgedriver.exe.sha256", b"digest"),
    ]);
    let out = extract_driver(bytes, "msedgedriver.exe").expect("extraction succeeds");
    assert_eq!(out, driver_bytes);
}

#[test]
fn near_miss_names_are_not_the_driver_entry() {
    let bytes = build_archive(&[
        ("msedgedriver.exe.sha256", b"digest"),
        ("dir/msedgedriver.exe", b"nested"),
        ("msedgedriver.exe", b"the driver"),
    ]);
    let out = extract_driver(bytes, "msedgedriver.exe").expect("extraction succeeds");
    assert_eq!(out, b"the driver");
}

#[test]
fn missing_entry_is_reported_by_name() {
    let bytes = build_archive(&[("readme.md", b"readme"), ("LICENSE", b"license")]);
    match extract_driver(bytes, "msedgedriver.exe") {
        Err(Error::EntryNotFound(name)) => assert_eq!(name, "msedgedriver.exe"),
        _ => panic!("expected EntryNotFound"),
    }
}

#[test]
fn garbage_bytes_are_an_archive_error() {
    let bytes = b"this is not a zip archive at all".to_vec();
    match extract_driver(bytes, "msedgedriver.exe") {
        Err(Error::Archive(_)) => {}
        _ => panic!("expected an Archive error"),
    }
}

#[test]
fn empty_archive_has_no_driver_entry() {
    let bytes = build_archive(&[]);
    match extract_driver(bytes, "msedgedriver.exe") {
        Err(Error::EntryNotFound(_)) => {}
        _ => panic!("expected EntryNotFound"),
    }
}

#[test]
fn download_url_is_templated_with_the_exact_version() {
    assert_eq!(
        msedgedriver_url("114.0.1823.43"),
        "https://msedgedriver.azureedge.net/114.0.1823.43/edgedriver_win64.zip"
    );
}

#[test]
fn download_user_agent_looks_like_a_browser() {
    assert_eq!(
        download_user_agent(),
        "Mozilla/5.0 (Windows NT 10.0; Win64; x64) AppleWebKit/537.36 (KHTML, like Gecko)"
    );
}

#[test]
fn successful_download_status_is_accepted() {
    assert!(check_download_status(true, "https://example.invalid/a.zip", 200).is_ok());
}

#[test]
fn rejected_download_status_names_url_and_code() {
    match check_download_status(false, "https://example.invalid/a.zip", 404) {
        Err(Error::Download(m)) => {
            assert_eq!(m, "download of `https://example.invalid/a.zip` failed with status 404")
        }
        _ => panic!("expected a Download error"),
    }
}

#[test]
fn helper_fetch_requires_the_browser() {
    match plan_helper_fetch("/Applications/Chrome.app", false, false) {
        Err(Error::BrowserNotFound(p)) => assert_eq!(p, "/Applications/Chrome.app"),
        _ => panic!("expected BrowserNotFound"),
    }
}

#[test]
fn helper_fetch_skips_an_installed_driver() {
    assert_eq!(plan_helper_fetch("/Applications/Chrome.app", true, true).unwrap(), false);
    assert_eq!(plan_helper_fetch("/Applications/Chrome.app", true, false).unwrap(), true);
}
