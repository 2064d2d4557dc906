//! Process supervision: the port-search-and-spawn state machine and the
//! handle that owns the claimed port and the driver process's lifetime.
//!
//! The machine starts at port 4444 and walks upward. For each port the
//! runner binds a probe listener, releases it, spawns the driver bound to
//! the port and polls its exit status once; the observed outcome is fed
//! back as a [`PortProbe`] and [`PortSearch::step`] decides what happens
//! next. Only port contention (and a driver that exited at once) is
//! retried; a spawn failure is final.

use vstd::prelude::*;

use crate::error::Error;
use crate::text::dec_rep;
use crate::text::u16_to_dec;

verus! {

use vstd::string::StringExecFns;

/// The first port the supervisor tries.
pub const FIRST_PORT: u16 = 4444;

/// The defensive cap on bind attempts, so that a systematically exhausted
/// port range fails cleanly instead of looping forever.
pub const MAX_PORT_ATTEMPTS: u16 = 1000;

/// What one bind-and-spawn attempt at the current port observed.
#[derive(Debug, Clone)]
pub enum PortProbe {
    /// The probe bind failed: another process owns the port.
    Busy,
    /// The bind succeeded but the spawned driver exited at once.
    DriverExited,
    /// The bind succeeded and the spawned driver stayed up.
    DriverRunning,
    /// Spawning the driver process itself failed; holds the I/O error's
    /// text. This is never retried.
    SpawnFailed(String),
}

/// The state of the port search: the port to try next and how many bind
/// attempts were already made.
#[derive(Debug, Clone, Copy)]
pub struct PortSearch {
    pub next_port: u16,
    pub attempts: u16,
}

/// What the search does after an attempt.
#[derive(Debug, Clone)]
pub enum SearchStep {
    /// Try again at the next port.
    Retry(PortSearch),
    /// The driver is up and owns the port; `bind_attempts` counts every
    /// bind that was made, the successful one included.
    Claimed { port: u16, bind_attempts: u16 },
    /// Give up with the error to report.
    Failed(Error),
}

impl PortSearch {
    /// The search state never drifts: the next port is always the first
    /// port advanced by the number of attempts already made.
    pub open spec fn wf(self) -> bool {
        &&& self.next_port == FIRST_PORT + self.attempts
        &&& self.attempts <= MAX_PORT_ATTEMPTS
    }

    /// A fresh search, poised at the first port.
    pub fn new() -> (r: PortSearch)
        ensures
            r == (PortSearch { next_port: FIRST_PORT, attempts: 0 }),
            r.wf(),
    {
        PortSearch { next_port: FIRST_PORT, attempts: 0 }
    }

    /// The transition relation of the search, one attempt at a time.
    ///
    /// A busy port and a driver that exited at once consume the port and
    /// move on; a running driver claims the port; a spawn failure is final
    /// and becomes the I/O error, untried ports notwithstanding.
    pub open spec fn spec_step(self, probe: PortProbe) -> SearchStep {
        match probe {
            PortProbe::SpawnFailed(msg) => SearchStep::Failed(Error::Io(msg)),
            PortProbe::DriverRunning => SearchStep::Claimed {
                port: self.next_port,
                bind_attempts: (self.attempts + 1) as u16,
            },
            PortProbe::Busy => self.spec_advance(),
            PortProbe::DriverExited => self.spec_advance(),
        }
    }

    /// Move to the next port, or give up when the cap is reached.
    pub open spec fn spec_advance(self) -> SearchStep {
        if self.attempts + 1 < MAX_PORT_ATTEMPTS {
            SearchStep::Retry(
                PortSearch {
                    next_port: (self.next_port + 1) as u16,
                    attempts: (self.attempts + 1) as u16,
                },
            )
        } else {
            SearchStep::Failed(Error::PortsExhausted)
        }
    }

    /// Feed the outcome of one bind-and-spawn attempt into the search.
    pub fn step(self, probe: PortProbe) -> (r: SearchStep)
        requires
            self.wf(),
        ensures
            r == self.spec_step(probe),
            (r matches SearchStep::Retry(s) ==> s.wf()),
    {
        match probe {
            PortProbe::SpawnFailed(msg) => SearchStep::Failed(Error::Io(msg)),
            PortProbe::DriverRunning => SearchStep::Claimed {
                port: self.next_port,
                bind_attempts: self.attempts + 1,
            },
            PortProbe::Busy => self.advance(),
            PortProbe::DriverExited => self.advance(),
        }
    }

    fn advance(self) -> (r: SearchStep)
        requires
            self.wf(),
        ensures
            r == self.spec_advance(),
            (r matches SearchStep::Retry(s) ==> s.wf()),
    {
        if self.attempts + 1 < MAX_PORT_ATTEMPTS {
            SearchStep::Retry(
                PortSearch { next_port: self.next_port + 1, attempts: self.attempts + 1 },
            )
        } else {
            SearchStep::Failed(Error::PortsExhausted)
        }
    }
}

/// The whole search as a fold of [`PortSearch::spec_step`] over a sequence
/// of observed attempt outcomes. An exhausted sequence that never ended the
/// search is left as a pending `Retry`.
pub open spec fn spec_run(s: PortSearch, probes: Seq<PortProbe>) -> SearchStep
    decreases probes.len(),
{
    if probes.len() == 0 {
        SearchStep::Retry(s)
    } else {
        match s.spec_step(probes[0]) {
            SearchStep::Retry(next) => spec_run(next, probes.drop_first()),
            done => done,
        }
    }
}

/// The state a fresh search starts from.
pub open spec fn spec_initial_search() -> PortSearch {
    PortSearch { next_port: FIRST_PORT, attempts: 0 }
}

/// Law: for any run of `n` consecutive ports already in use starting at the
/// first port, followed by a successful spawn, the search claims exactly the
/// first free port, and the bind attempts made count every busy port plus
/// the successful one.
pub proof fn lemma_first_free_port_claimed(probes: Seq<PortProbe>, n: int)
    requires
        0 <= n,
        n + 1 <= MAX_PORT_ATTEMPTS,
        probes.len() == n + 1,
        forall|i: int| 0 <= i < n ==> probes[i] is Busy,
        probes[n] is DriverRunning,
    ensures
        spec_run(spec_initial_search(), probes) == (SearchStep::Claimed {
            port: (FIRST_PORT + n) as u16,
            bind_attempts: (n + 1) as u16,
        }),
{
    lemma_busy_prefix_claims(spec_initial_search(), probes, n);
}

/// The inductive heart of the law above, generalized over the start state.
proof fn lemma_busy_prefix_claims(s: PortSearch, probes: Seq<PortProbe>, n: int)
    requires
        s.wf(),
        0 <= n,
        s.attempts + n + 1 <= MAX_PORT_ATTEMPTS,
        probes.len() == n + 1,
        forall|i: int| 0 <= i < n ==> probes[i] is Busy,
        probes[n] is DriverRunning,
    ensures
        spec_run(s, probes) == (SearchStep::Claimed {
            port: (s.next_port + n) as u16,
            bind_attempts: (s.attempts + n + 1) as u16,
        }),
    decreases n,
{
    if n == 0 {
        assert(spec_run(s, probes) == s.spec_step(probes[0]));
    } else {
        let next = PortSearch {
            next_port: (s.next_port + 1) as u16,
            attempts: (s.attempts + 1) as u16,
        };
        assert(s.spec_step(probes[0]) == SearchStep::Retry(next));
        let rest = probes.drop_first();
        assert(forall|i: int| 0 <= i < n - 1 ==> rest[i] is Busy);
        assert(rest[n - 1] is DriverRunning);
        lemma_busy_prefix_claims(next, rest, n - 1);
    }
}

/// Law: a spawn failure ends the search at once with an I/O error; no
/// retrying happens, whatever outcomes would have followed.
pub proof fn lemma_spawn_failure_is_final(s: PortSearch, probes: Seq<PortProbe>, msg: String)
    requires
        probes.len() >= 1,
        probes[0] == PortProbe::SpawnFailed(msg),
    ensures
        spec_run(s, probes) == SearchStep::Failed(Error::Io(msg)),
{
}

/// The long-lived handle to the supervised driver: where its files live,
/// which port it owns, and whether its process was already killed.
///
/// While the handle exists the process is either running or was explicitly
/// killed through [`DriverHandle::destroy`]; there is no silent respawn.
#[derive(Debug, Clone)]
pub struct DriverHandle {
    /// The managed data directory the driver and its profile live under.
    pub data_dir: String,
    /// The path of the driver executable that was spawned.
    pub driver_path: String,
    /// The port the driver process is bound to.
    pub port: u16,
    /// Whether the owned process was already killed.
    pub killed: bool,
}

impl DriverHandle {
    /// A handle to a freshly spawned, still-running driver.
    pub fn new(data_dir: String, driver_path: String, port: u16) -> (r: DriverHandle)
        ensures
            r.data_dir == data_dir,
            r.driver_path == driver_path,
            r.port == port,
            !r.killed,
    {
        DriverHandle { data_dir, driver_path, port, killed: false }
    }

    /// The handle after a destroy: the same handle, marked killed.
    pub open spec fn spec_destroyed(self) -> DriverHandle {
        DriverHandle { killed: true, ..self }
    }

    /// Tear the driver down. Returns whether a kill must actually be issued:
    /// true the first time, false ever after, so at most one kill is ever
    /// sent to the process. Never fails; kill errors are the runner's to
    /// swallow.
    pub fn destroy(&mut self) -> (issue_kill: bool)
        ensures
            *final(self) == old(self).spec_destroyed(),
            issue_kill == !old(self).killed,
    {
        let was_killed = self.killed;
        self.killed = true;
        !was_killed
    }
}

/// The one command-line argument the driver process is spawned with.
pub open spec fn spec_port_arg(port: u16) -> Seq<char> {
    "--port="@ + dec_rep(port as nat)
}

/// Build the driver's command-line argument for the claimed port.
pub fn port_arg(port: u16) -> (r: String)
    ensures
        r@ == spec_port_arg(port),
{
    let mut r = "--port=".to_owned();
    let digits = u16_to_dec(port);
    r.append(digits.as_str());
    r
}

/// Law: destroy is idempotent — destroying an already destroyed handle
/// changes nothing.
pub proof fn lemma_destroy_idempotent(h: DriverHandle)
    ensures
        h.spec_destroyed().spec_destroyed() == h.spec_destroyed(),
{
}

} // verus!
