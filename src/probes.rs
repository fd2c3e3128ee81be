//! Probe specifications, results and the guest agent's request/response
//! messages.
use vstd::prelude::*;

verus! {

/// A declarative check of guest state.
#[derive(Debug, Clone, PartialEq, Eq)]
pub enum ProbeSpec {
    FileContent { path: String, contains: Option<String>, regex: Option<String> },
    FileExists { path: String, exists: bool },
    Service { service: String, state: ServiceState },
    Port { port: u16, state: PortState, protocol: Protocol },
    Command { cmd: String, exit_code: i32, stdout_contains: Option<String> },
    Http { url: String, status: u16, body_contains: Option<String> },
    K8sNodesReady { expected_ready: u32, kubeconfig: Option<String>, context: Option<String> },
    K8sEndpointsNonEmpty {
        namespace: String,
        name: String,
        kubeconfig: Option<String>,
        context: Option<String>,
    },
    TcpPing { host: String, port: u16, timeout_ms: u64, state: ReachabilityState },
}

#[derive(Debug, Clone, Copy, PartialEq, Eq, Structural)]
pub enum ServiceState {
    Running,
    Stopped,
    Enabled,
    Disabled,
}

#[derive(Debug, Clone, Copy, PartialEq, Eq, Structural)]
pub enum PortState {
    Listening,
    Closed,
}

#[derive(Debug, Clone, Copy, PartialEq, Eq, Structural)]
pub enum Protocol {
    Tcp,
    Udp,
}

impl Default for Protocol {
    fn default() -> (r: Self)
        ensures
            r == Protocol::Tcp,
    {
        Protocol::Tcp
    }
}

#[derive(Debug, Clone, Copy, PartialEq, Eq, Structural)]
pub enum ReachabilityState {
    Reachable,
    Unreachable,
}

/// The transport a port probe uses when none is given.
pub fn default_protocol() -> (r: Protocol)
    ensures
        r == Protocol::Tcp,
{
    Protocol::Tcp
}

/// The port a TCP ping uses when none is given.
pub fn default_tcp_ping_port() -> (r: u16)
    ensures
        r == 1,
{
    1
}

/// The connect timeout of a TCP ping, in milliseconds, when none is given.
pub fn default_tcp_ping_timeout_ms() -> (r: u64)
    ensures
        r == 2000,
{
    2000
}

/// The state a TCP ping expects when none is given.
pub fn default_tcp_ping_state() -> (r: ReachabilityState)
    ensures
        r == ReachabilityState::Reachable,
{
    ReachabilityState::Reachable
}

/// The verdict of one probe.
#[derive(Debug, Clone, PartialEq, Eq)]
pub struct ProbeResult {
    pub id: String,
    pub passed: bool,
    pub message: String,
}

impl ProbeResult {
    pub fn pass(id: String, message: String) -> (r: Self)
        ensures
            r.id@ == id@,
            r.passed,
            r.message@ == message@,
    {
        ProbeResult { id, passed: true, message }
    }

    pub fn fail(id: String, message: String) -> (r: Self)
        ensures
            r.id@ == id@,
            !r.passed,
            r.message@ == message@,
    {
        ProbeResult { id, passed: false, message }
    }
}

/// A request to the guest agent.
#[derive(Debug, Clone, PartialEq, Eq)]
pub enum Request {
    CheckProbe { id: String, spec: ProbeSpec },
    CheckAll { probes: Vec<(String, ProbeSpec)> },
    Ping,
}

/// A response of the guest agent.
#[derive(Debug, Clone, PartialEq, Eq)]
pub enum Response {
    ProbeResult { id: String, passed: bool, message: String },
    AllResults { results: Vec<ProbeResult> },
    Pong { uptime_secs: u64 },
    Error { message: String },
}

} // verus!
