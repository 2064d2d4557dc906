use fanto::supervisor::DriverHandle;
use fanto::supervisor::PortProbe;
use fanto::supervisor::PortSearch;
use fanto::supervisor::SearchStep;
use fanto::supervisor::port_arg;
use fanto::supervisor::FIRST_PORT;
use fanto::supervisor::MAX_PORT_ATTEMPTS;
use fanto::error::Error;

/// Drive the search with a scripted sequence of probe outcomes.
fn run_search(probes: Vec<PortProbe>) -> SearchStep {
    let mut state = PortSearch::new();
    let mut last = SearchStep::Retry(state);
    for probe in probes {
        last = state.step(probe);
        match last {
            SearchStep::Retry(next) => state = next,
            _ => break,
        }
    }
    last
}

#[test]
fn first_port_free_is_claimed() {
    let out = run_search(vec![PortProbe::DriverRunning]);
    match out {
        SearchStep::Claimed { port, bind_attempts } => {
            assert_eq!(port, 4444);
            assert_eq!(bind_attempts, 1);
        }
        _ => panic!("expected the first port to be claimed"),
    }
}

#[test]
fn two_busy_ports_then_free_claims_the_third() {
    let out = run_search(vec![
        PortProbe::Busy,
        PortProbe::Busy,
        PortProbe::DriverRunning,
    ]);
    match out {
        SearchStep::Claimed { port, bind_attempts } => {
            assert_eq!(port, 4446);
            assert_eq!(bind_attempts, 3);
        }
        _ => panic!("expected port 4446 to be claimed"),
    }
}

#[test]
fn busy_count_matches_claimed_port_offset() {
    for busy in 0..20u16 {
        let mut probes = Vec::new();
        for _ in 0..busy {
            probes.push(PortProbe::Busy);
        }
        probes.push(PortProbe::DriverRunning);
        match run_search(probes) {
            SearchStep::Claimed { port, bind_attempts } => {
                assert_eq!(port, FIRST_PORT + busy);
                assert_eq!(bind_attempts, busy + 1);
            }
            _ => panic!("expected a claimed port"),
        }
    }
}

#[test]
fn driver_that_exits_at_once_consumes_the_port() {
    let out = run_search(vec![
        PortProbe::DriverExited,
        PortProbe::Busy,
        PortProbe::DriverRunning,
    ]);
    match out {
        SearchStep::Claimed { port, .. } => assert_eq!(port, 4446),
        _ => panic!("expected port 4446 to be claimed"),
    }
}

#[test]
fn spawn_failure_is_final_and_not_retried() {
    let out = run_search(vec![
        PortProbe::Busy,
        PortProbe::SpawnFailed(String::from("no such file")),
        PortProbe::DriverRunning,
    ]);
    match out {
        SearchStep::Failed(Error::Io(msg)) => assert_eq!(msg, "no such file"),
        _ => panic!("expected a final I/O failure"),
    }
}

#[test]
fn exhausted_port_range_fails_cleanly() {
    let mut probes = Vec::new();
    for _ in 0..MAX_PORT_ATTEMPTS {
        probes.push(PortProbe::Busy);
    }
    match run_search(probes) {
        SearchStep::Failed(Error::PortsExhausted) => {}
        _ => panic!("expected the search to give up"),
    }
}

#[test]
fn port_argument_is_templated_with_the_port() {
    assert_eq!(port_arg(4444), "--port=4444");
    assert_eq!(port_arg(4446), "--port=4446");
    assert_eq!(port_arg(80), "--port=80");
}

#[test]
fn destroy_is_idempotent() {
    let mut handle = DriverHandle::new(
        String::from("/tmp/data"),
        String::from("/tmp/data/chromedriver"),
        4444,
    );
    assert!(!handle.killed);
    let first = handle.destroy();
    assert!(first, "the first destroy must issue the kill");
    assert!(handle.killed);
    let second = handle.destroy();
    assert!(!second, "the second destroy must not issue another kill");
    assert!(handle.killed);
    assert_eq!(handle.port, 4444);
}
