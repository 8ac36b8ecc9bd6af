//! Decisions taken while the program starts: which running process is the
//! server, what each attempt to connect to it leads to, and when a Ctrl+C
//! forces the program to exit.
use vstd::prelude::*;
use vstd::string::{StrSliceExecFns, StringExecFns};

use crate::search::occurs_in;

verus! {

/// A running process, as the process table shows it.
#[derive(Debug)]
pub struct ProcessInfo {
    pub pid: u32,
    /// The path of its executable, when it can be read.
    pub exe: Option<String>,
}

/// The name the server's executable carries.
pub open spec fn server_name() -> Seq<char> {
    "termusic-server"@
}

/// The process is the server: its executable's path holds the server's name.
pub open spec fn is_server_process(p: ProcessInfo) -> bool {
    match p.exe {
        Some(e) => occurs_in(server_name(), e@),
        None => false,
    }
}

/// Whether `x` occurs in `t`.
pub fn text_occurs_in(x: &str, t: &str) -> (r: bool)
    ensures
        r == occurs_in(x@, t@),
{
    let n = t.unicode_len();
    let m = x.unicode_len();
    if m > n {
        proof {
            assert forall|k: int| 0 <= k && k + x@.len() <= t@.len() implies #[trigger] t@.subrange(
                k,
                k + x@.len(),
            ) != x@ by {}
        }
        return false;
    }
    let mut k: usize = 0;
    while k <= n - m
        invariant
            n == t@.len(),
            m == x@.len(),
            m <= n,
            k <= n - m + 1,
            forall|j: int| 0 <= j < k ==> #[trigger] t@.subrange(j, j + m) != x@,
        decreases n - k,
    {
        let mut i: usize = 0;
        let mut same = true;
        while i < m
            invariant
                n == t@.len(),
                m == x@.len(),
                k + m <= n,
                i <= m,
                same == (forall|j: int| 0 <= j < i ==> t@[k + j] == x@[j]),
            decreases m - i,
        {
            if t.get_char(k + i) != x.get_char(i) {
                same = false;
            }
            i = i + 1;
        }
        if same {
            proof {
                assert(t@.subrange(k as int, k + m) =~= x@);
            }
            return true;
        }
        proof {
            let j = choose|j: int| 0 <= j < m && t@[k + j] != x@[j];
            assert(t@.subrange(k as int, k + m)[j] != x@[j]);
        }
        k = k + 1;
    }
    false
}

/// The process id of the first process that is the server, in the order given.
pub open spec fn first_server(processes: Seq<ProcessInfo>) -> Option<u32>
    decreases processes.len(),
{
    if processes.len() == 0 {
        None
    } else if is_server_process(processes[0]) {
        Some(processes[0].pid)
    } else {
        first_server(processes.drop_first())
    }
}

/// The process id of the first process, in the order given, whose executable
/// is the server's.
pub fn find_active_server_process(processes: &Vec<ProcessInfo>) -> (r: Option<u32>)
    ensures
        r == first_server(processes@),
{
    let mut i: usize = 0;
    proof {
        assert(processes@.skip(0) =~= processes@);
    }
    while i < processes.len()
        invariant
            i <= processes@.len(),
            first_server(processes@) == first_server(processes@.skip(i as int)),
        decreases processes@.len() - i,
    {
        proof {
            assert(processes@.skip(i as int)[0] == processes@[i as int]);
            assert(processes@.skip(i as int).drop_first() =~= processes@.skip(i + 1));
        }
        match &processes[i].exe {
            Some(e) => {
                if text_occurs_in("termusic-server", e.as_str()) {
                    return Some(processes[i].pid);
                }
            },
            None => {},
        }
        i = i + 1;
    }
    None
}

/// What a Ctrl+C press does.
#[derive(Debug, Clone, Copy, PartialEq, Eq, Structural)]
pub enum CtrlCAction {
    /// Remember the time of this press and carry on.
    Remember,
    /// Exit, after putting the terminal back.
    Exit,
}

/// A second press within two seconds of the remembered one exits; otherwise
/// the press is remembered. `since_last_ms` is the time since the remembered
/// press, if there is one.
pub open spec fn ctrl_c_spec(since_last_ms: Option<u64>) -> CtrlCAction {
    match since_last_ms {
        None => CtrlCAction::Remember,
        Some(ms) => if ms > 2000 {
            CtrlCAction::Remember
        } else {
            CtrlCAction::Exit
        },
    }
}

/// What a Ctrl+C press does; see `ctrl_c_spec`.
pub fn ctrl_c_action(since_last_ms: Option<u64>) -> (r: CtrlCAction)
    ensures
        r == ctrl_c_spec(since_last_ms),
{
    match since_last_ms {
        None => CtrlCAction::Remember,
        Some(ms) => if ms > 2000 {
            CtrlCAction::Remember
        } else {
            CtrlCAction::Exit
        },
    }
}

/// The first press never exits.
pub proof fn lemma_first_press_never_exits()
    ensures
        ctrl_c_spec(None) == CtrlCAction::Remember,
{
}

} // verus!

verus! {

/// How long the program waits for the server, in seconds.
pub const WAIT_TIMEOUT_SECS: u64 = 30;

/// How the program talks to the server.
#[derive(Debug, Clone, Copy, PartialEq, Eq, Structural)]
pub enum Transport {
    /// Over TCP, by an `ip:port` address.
    Http,
    /// Over a unix domain socket, by its path.
    Uds,
}

/// The address the client connects to: the server's address (`ip:port`) or
/// socket path behind the transport's scheme.
pub open spec fn server_address_of(t: Transport, addr: Seq<char>) -> Seq<char> {
    match t {
        Transport::Http => "http://"@ + addr,
        Transport::Uds => "unix://"@ + addr,
    }
}

/// The address the client connects to; see `server_address_of`.
pub fn server_address(t: Transport, addr: &str) -> (r: String)
    ensures
        r@ == server_address_of(t, addr@),
{
    match t {
        Transport::Http => String::from_str("http://").concat(addr),
        Transport::Uds => String::from_str("unix://").concat(addr),
    }
}

/// What the process table says of the server while waiting for it.
#[derive(Debug, Clone, Copy, PartialEq, Eq, Structural)]
pub enum ServerProcess {
    Running,
    Zombie,
    Gone,
}

/// What one attempt to connect gave.
#[derive(Debug, Clone, Copy, PartialEq, Eq, Structural)]
pub enum ConnectOutcome {
    Connected,
    /// The server does not accept connections yet.
    Refused,
    /// The socket file does not exist yet.
    NotFound,
    /// Any other failure.
    Failed,
}

/// Why waiting for the server ended without a connection.
#[derive(Debug, Clone, Copy, PartialEq, Eq, Structural)]
pub enum ConnectError {
    /// No connection within `WAIT_TIMEOUT_SECS`.
    Timeout,
    /// The server process with this id exited, or is a zombie.
    Exited(u32),
    /// Connecting failed for another reason.
    Failed,
}

/// What comes of a round of waiting.
#[derive(Debug, Clone, Copy, PartialEq, Eq, Structural)]
pub enum WaitStep {
    Connected,
    /// Sleep a moment and try again.
    Retry,
    Stop(ConnectError),
}

/// Before an attempt: waiting ends when the time is up, or when the server
/// process `pid` is gone or a zombie.
pub open spec fn connect_precheck_of(timed_out: bool, process: ServerProcess, pid: u32) -> Option<ConnectError> {
    if timed_out {
        Some(ConnectError::Timeout)
    } else if process != ServerProcess::Running {
        Some(ConnectError::Exited(pid))
    } else {
        None
    }
}

/// Before an attempt; see `connect_precheck_of`.
pub fn connect_precheck(timed_out: bool, process: ServerProcess, pid: u32) -> (r: Option<ConnectError>)
    ensures
        r == connect_precheck_of(timed_out, process, pid),
{
    if timed_out {
        Some(ConnectError::Timeout)
    } else if process != ServerProcess::Running {
        Some(ConnectError::Exited(pid))
    } else {
        None
    }
}

/// After an attempt: a refused connection is tried again, and so is a
/// missing socket file over a unix socket; any other failure stops.
pub open spec fn after_attempt_of(t: Transport, outcome: ConnectOutcome) -> WaitStep {
    match outcome {
        ConnectOutcome::Connected => WaitStep::Connected,
        ConnectOutcome::Refused => WaitStep::Retry,
        ConnectOutcome::NotFound => if t == Transport::Uds {
            WaitStep::Retry
        } else {
            WaitStep::Stop(ConnectError::Failed)
        },
        ConnectOutcome::Failed => WaitStep::Stop(ConnectError::Failed),
    }
}

/// After an attempt; see `after_attempt_of`.
pub fn after_attempt(t: Transport, outcome: ConnectOutcome) -> (r: WaitStep)
    ensures
        r == after_attempt_of(t, outcome),
{
    match outcome {
        ConnectOutcome::Connected => WaitStep::Connected,
        ConnectOutcome::Refused => WaitStep::Retry,
        ConnectOutcome::NotFound => if t == Transport::Uds {
            WaitStep::Retry
        } else {
            WaitStep::Stop(ConnectError::Failed)
        },
        ConnectOutcome::Failed => WaitStep::Stop(ConnectError::Failed),
    }
}

} // verus!
