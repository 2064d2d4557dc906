//! End-to-end startup scenarios over the verified decision logic: resolve,
//! fetch, claim a port, configure the session.

use std::io::Cursor;
use std::io::Write;

use fanto::Platform;
use fanto::error::Error;
use fanto::fetch::extract_driver;
use fanto::session::session_config;
use fanto::supervisor::DriverHandle;
use fanto::supervisor::PortProbe;
use fanto::supervisor::PortSearch;
use fanto::supervisor::SearchStep;
use fanto::version::resolve;
use fanto::version::CmdOutput;
use fanto::version::ExecutableProbe;

use zip::write::SimpleFileOptions;
use zip::ZipWriter;

fn queried(stdout: &str) -> ExecutableProbe {
    ExecutableProbe::Queried(CmdOutput {
        success: true,
        stdout: stdout.as_bytes().to_vec(),
        stderr: Vec::new(),
    })
}

#[test]
fn startup_with_missing_driver_and_free_first_port() {
    // The data directory exists but holds no driver: a fetch is decided.
    let resolved = resolve(
        Platform::Windows,
        "C:\\data",
        false,
        ExecutableProbe::Missing,
        queried("114.0.1823.43"),
    )
    .expect("resolution succeeds");
    assert!(resolved.0, "the missing driver must be downloaded");
    assert_eq!(resolved.1, "C:\\data\\msedgedriver.exe");

    // The downloaded archive yields exactly the driver's bytes.
    let mut writer = ZipWriter::new(Cursor::new(Vec::new()));
    writer
        .start_file("msedgedriver.exe".to_string(), SimpleFileOptions::default())
        .expect("start entry");
    writer.write_all(b"driver machine code").expect("write entry");
    let archive = writer.finish().expect("finish archive").into_inner();
    let driver = extract_driver(archive, "msedgedriver.exe").expect("extraction succeeds");
    assert_eq!(driver, b"driver machine code");

    // Port 4444 is free and the driver stays up: it is claimed at once.
    let step = PortSearch::new().step(PortProbe::DriverRunning);
    let port = match step {
        SearchStep::Claimed { port, bind_attempts } => {
            assert_eq!(bind_attempts, 1);
            port
        }
        _ => panic!("expected the first port to be claimed"),
    };
    assert_eq!(port, 4444);

    // A later session-open call is bound to that port.
    let handle = DriverHandle::new(
        String::from("C:\\data"),
        resolved.1,
        port,
    );
    let cfg = session_config(Platform::Windows, handle.port, handle.data_dir.as_str());
    assert_eq!(cfg.webdriver_url, "http://localhost:4444");
}

#[test]
fn startup_with_two_occupied_ports_selects_the_third() {
    let mut state = PortSearch::new();
    for _ in 0..2 {
        match state.step(PortProbe::Busy) {
            SearchStep::Retry(next) => state = next,
            _ => panic!("a busy port must be retried"),
        }
    }
    match state.step(PortProbe::DriverRunning) {
        SearchStep::Claimed { port, bind_attempts } => {
            assert_eq!(port, 4446);
            assert_eq!(bind_attempts, 3);
        }
        _ => panic!("expected port 4446 to be claimed"),
    }
}

#[test]
fn startup_with_matching_versions_skips_the_fetch() {
    let resolved = resolve(
        Platform::Windows,
        "C:\\data",
        true,
        queried("114.0.1823.43\r\n"),
        queried("114.0.1823.43\r\n"),
    )
    .expect("resolution succeeds");
    assert!(!resolved.0, "matching versions need no fetch");
}

#[test]
fn spawn_error_surfaces_as_io_failure() {
    // A driver path that does not exist fails the spawn itself; the
    // search ends at once with the I/O error instead of retrying.
    let step = PortSearch::new().step(PortProbe::SpawnFailed(String::from(
        "No such file or directory (os error 2)",
    )));
    match step {
        SearchStep::Failed(Error::Io(msg)) => {
            assert_eq!(msg, "No such file or directory (os error 2)")
        }
        _ => panic!("expected a final I/O failure"),
    }
}
