//! The guest-side verdicts of probes: given what the agent observed, whether
//! the probe passes and the message it reports.
use vstd::prelude::*;
use crate::probes::{PortState, ProbeResult, ReachabilityState, ServiceState};
use crate::text::{push_signed_decimal, push_decimal, push_str, seq_contains, signed_decimal, decimal, str_contains, str_eq};

verus! {

/// Whether `pattern` is a valid regular expression (`None` if not) and, if so,
/// whether it matches somewhere in `text` in multi-line mode.
pub uninterp spec fn regex_match_of(pattern: Seq<char>, text: Seq<char>) -> Option<bool>;

/// Relies on `regex::RegexBuilder` with `multi_line(true)` and
/// `Regex::is_match`: compiling fails for an invalid pattern (the error's text
/// is returned); otherwise whether the pattern, with `^` and `$` matching at
/// line boundaries, matches anywhere in the text.
#[verifier::external_body]
fn regex_search(pattern: &str, text: &str) -> (r: Result<bool, String>)
    ensures
        match regex_match_of(pattern@, text@) {
            Some(b) => r == Ok::<bool, String>(b),
            None => r is Err,
        },
{
    regex::RegexBuilder::new(pattern).multi_line(true).build().map(|re| re.is_match(text)).map_err(
        |e| e.to_string(),
    )
}

fn quoted_msg(head: &str, what: &str, tail: &str) -> (r: String)
    ensures
        r@ == head@ + what@ + tail@,
{
    let mut s = String::from_str(head);
    push_str(&mut s, what);
    push_str(&mut s, tail);
    s
}

/// The verdict on a file's content: it must hold `contains` when given and
/// match `regex` when given.
pub fn file_content_verdict(path: &str, content: &str, contains: Option<&str>, regex: Option<&str>) -> (r:
    Result<String, String>)
    ensures
        r is Ok <==> ((contains matches Some(n) ==> seq_contains(content@, n@)) && (regex matches Some(p)
            ==> regex_match_of(p@, content@) == Some(true))),
        r matches Ok(m) ==> m@ == "File '"@ + path@ + "' content matches criteria"@,
{
    match contains {
        Some(needle) => {
            if !str_contains(content, needle) {
                let mut m = quoted_msg("File '", path, "' does not contain '");
                push_str(&mut m, needle);
                push_str(&mut m, "'");
                return Err(m);
            }
        },
        None => {},
    }
    match regex {
        Some(pattern) => match regex_search(pattern, content) {
            Ok(true) => {},
            Ok(false) => {
                let mut m = quoted_msg("File '", path, "' does not match regex '");
                push_str(&mut m, pattern);
                push_str(&mut m, "'");
                return Err(m);
            },
            Err(e) => {
                let mut m = quoted_msg("Invalid regex '", pattern, "': ");
                push_str(&mut m, e.as_str());
                return Err(m);
            },
        },
        None => {},
    }
    Ok(quoted_msg("File '", path, "' content matches criteria"))
}

/// The verdict on whether a file exists.
pub fn file_exists_verdict(path: &str, exists: bool, should_exist: bool) -> (r: Result<String, String>)
    ensures
        r is Ok <==> exists == should_exist,
        match r {
            Ok(m) => m@ == "File '"@ + path@ + if exists {
                "' exists"@
            } else {
                "' does not exist"@
            },
            Err(m) => m@ == "File '"@ + path@ + if should_exist {
                "' does not exist"@
            } else {
                "' exists but should not"@
            },
        },
{
    if exists == should_exist {
        if should_exist {
            Ok(quoted_msg("File '", path, "' exists"))
        } else {
            Ok(quoted_msg("File '", path, "' does not exist"))
        }
    } else if should_exist {
        Err(quoted_msg("File '", path, "' does not exist"))
    } else {
        Err(quoted_msg("File '", path, "' exists but should not"))
    }
}

/// Whether `systemctl` must be asked `is-active` (else `is-enabled`) to check
/// for `expected`.
pub fn service_query_is_active(expected: ServiceState) -> (r: bool)
    ensures
        r == (expected == ServiceState::Running || expected == ServiceState::Stopped),
{
    expected == ServiceState::Running || expected == ServiceState::Stopped
}

/// The verdict on a service, given whether the matching `systemctl` query
/// succeeded and what it printed.
pub fn service_verdict(service: &str, expected: ServiceState, success: bool, status: &str) -> (r:
    Result<String, String>)
    ensures
        r is Ok <==> (success == (expected == ServiceState::Running || expected
            == ServiceState::Enabled)),
{
    match expected {
        ServiceState::Running => if success {
            let mut m = quoted_msg("Service '", service, "' is ");
            push_str(&mut m, status);
            Ok(m)
        } else {
            let mut m = quoted_msg("Service '", service, "' is not running (");
            push_str(&mut m, status);
            push_str(&mut m, ")");
            Err(m)
        },
        ServiceState::Stopped => if !success {
            Ok(quoted_msg("Service '", service, "' is stopped"))
        } else {
            Err(quoted_msg("Service '", service, "' is running but should be stopped"))
        },
        ServiceState::Enabled => if success {
            let mut m = quoted_msg("Service '", service, "' is ");
            push_str(&mut m, status);
            Ok(m)
        } else {
            let mut m = quoted_msg("Service '", service, "' is not enabled (");
            push_str(&mut m, status);
            push_str(&mut m, ")");
            Err(m)
        },
        ServiceState::Disabled => if !success {
            Ok(quoted_msg("Service '", service, "' is disabled"))
        } else {
            Err(quoted_msg("Service '", service, "' is enabled but should be disabled"))
        },
    }
}

/// The verdict on a port, given whether it was found listening.
pub fn port_verdict(port: u16, expected: PortState, listening: bool) -> (r: Result<String, String>)
    ensures
        r is Ok <==> (listening == (expected == PortState::Listening)),
{
    let mut m = String::from_str("Port ");
    push_decimal(&mut m, port as u64);
    match (expected, listening) {
        (PortState::Listening, true) => {
            push_str(&mut m, " is listening");
            Ok(m)
        },
        (PortState::Listening, false) => {
            push_str(&mut m, " is not listening");
            Err(m)
        },
        (PortState::Closed, false) => {
            push_str(&mut m, " is closed");
            Ok(m)
        },
        (PortState::Closed, true) => {
            push_str(&mut m, " is listening but should be closed");
            Err(m)
        },
    }
}

/// The verdict on a command run, given its exit code (-1 when killed by a
/// signal) and standard output.
pub fn command_verdict(exit_code: i32, expected: i32, stdout: &str, stdout_contains: Option<&str>) -> (r:
    Result<String, String>)
    ensures
        r is Ok <==> (exit_code == expected && (stdout_contains matches Some(n) ==> seq_contains(
            stdout@,
            n@,
        ))),
        r matches Ok(m) ==> m@ == "Command succeeded with exit code "@ + signed_decimal(
            expected as int,
        ),
{
    if exit_code != expected {
        let mut m = String::from_str("Command exited with code ");
        push_signed_decimal(&mut m, exit_code as i64);
        push_str(&mut m, " (expected ");
        push_signed_decimal(&mut m, expected as i64);
        push_str(&mut m, ")");
        return Err(m);
    }
    match stdout_contains {
        Some(needle) => {
            if !str_contains(stdout, needle) {
                return Err(quoted_msg("Command output does not contain '", needle, "'"));
            }
        },
        None => {},
    }
    let mut m = String::from_str("Command succeeded with exit code ");
    push_signed_decimal(&mut m, expected as i64);
    Ok(m)
}

/// The verdict on an HTTP response.
pub fn http_verdict(url: &str, status: u16, expected: u16, body: &str, body_contains: Option<&str>) -> (r:
    Result<String, String>)
    ensures
        r is Ok <==> (status == expected && (body_contains matches Some(n) ==> seq_contains(
            body@,
            n@,
        ))),
        r matches Ok(m) ==> m@ == "HTTP "@ + url@ + " returned status "@ + decimal(status as nat),
{
    if status != expected {
        let mut m = String::from_str("HTTP status ");
        push_decimal(&mut m, status as u64);
        push_str(&mut m, " (expected ");
        push_decimal(&mut m, expected as u64);
        push_str(&mut m, ")");
        return Err(m);
    }
    match body_contains {
        Some(needle) => {
            if !str_contains(body, needle) {
                return Err(quoted_msg("HTTP body does not contain '", needle, "'"));
            }
        },
        None => {},
    }
    let mut m = quoted_msg("HTTP ", url, " returned status ");
    push_decimal(&mut m, status as u64);
    Ok(m)
}

/// The verdict on a TCP ping, given whether the host answered.
pub fn reachability_verdict(host: &str, expected: ReachabilityState, reachable: bool) -> (r: Result<
    String,
    String,
>)
    ensures
        r is Ok <==> (reachable == (expected == ReachabilityState::Reachable)),
{
    match (expected, reachable) {
        (ReachabilityState::Reachable, true) => Ok(quoted_msg("", host, " is reachable")),
        (ReachabilityState::Reachable, false) => Err(quoted_msg("", host, " is not reachable")),
        (ReachabilityState::Unreachable, false) => Ok(quoted_msg("", host, " is not reachable")),
        (ReachabilityState::Unreachable, true) => Err(
            quoted_msg("", host, " is reachable but should not be"),
        ),
    }
}

/// The kinds of socket errors the probes tell apart.
#[derive(Debug, Clone, Copy, PartialEq, Eq, Structural)]
pub enum SocketErrorKind {
    ConnectionRefused,
    ConnectionReset,
    TimedOut,
    AddrInUse,
    AddrNotAvailable,
    NetworkUnreachable,
    HostUnreachable,
    InvalidInput,
    Unsupported,
    Other,
}

/// What one connect or bind attempt showed.
#[derive(Debug, Clone, Copy, PartialEq, Eq, Structural)]
pub enum Attempt {
    /// Something answered: listening, or reachable.
    Answered,
    /// Nothing answered: closed, or unreachable.
    Silent,
    /// The address family is not usable here.
    Unavailable,
}

/// A failed local port check: refused or timed out means closed, address in
/// use means listening, an unusable address is skipped; other errors are
/// reported.
pub fn classify_port_error(kind: SocketErrorKind) -> (r: Option<Attempt>)
    ensures
        r == match kind {
            SocketErrorKind::ConnectionRefused | SocketErrorKind::TimedOut => Some(Attempt::Silent),
            SocketErrorKind::AddrInUse => Some(Attempt::Answered),
            SocketErrorKind::AddrNotAvailable | SocketErrorKind::NetworkUnreachable
            | SocketErrorKind::InvalidInput => Some(Attempt::Unavailable),
            _ => None::<Attempt>,
        },
{
    match kind {
        SocketErrorKind::ConnectionRefused | SocketErrorKind::TimedOut => Some(Attempt::Silent),
        SocketErrorKind::AddrInUse => Some(Attempt::Answered),
        SocketErrorKind::AddrNotAvailable | SocketErrorKind::NetworkUnreachable
        | SocketErrorKind::InvalidInput => Some(Attempt::Unavailable),
        _ => None,
    }
}

/// A failed connect of a TCP ping: a refusal or reset means something
/// answered; a timeout or unreachable network means nothing did; an unusable
/// address is skipped; other errors are reported.
pub fn classify_reachability_error(kind: SocketErrorKind) -> (r: Option<Attempt>)
    ensures
        r == match kind {
            SocketErrorKind::ConnectionRefused | SocketErrorKind::ConnectionReset => Some(
                Attempt::Answered,
            ),
            SocketErrorKind::TimedOut | SocketErrorKind::HostUnreachable
            | SocketErrorKind::NetworkUnreachable => Some(Attempt::Silent),
            SocketErrorKind::AddrNotAvailable | SocketErrorKind::InvalidInput
            | SocketErrorKind::Unsupported => Some(Attempt::Unavailable),
            _ => None::<Attempt>,
        },
{
    match kind {
        SocketErrorKind::ConnectionRefused | SocketErrorKind::ConnectionReset => Some(
            Attempt::Answered,
        ),
        SocketErrorKind::TimedOut | SocketErrorKind::HostUnreachable
        | SocketErrorKind::NetworkUnreachable => Some(Attempt::Silent),
        SocketErrorKind::AddrNotAvailable | SocketErrorKind::InvalidInput
        | SocketErrorKind::Unsupported => Some(Attempt::Unavailable),
        _ => None,
    }
}

/// Combine the attempts over the addresses tried: any answer wins; else
/// silence if anything was tried; with every address unusable there is no
/// answer at all.
pub fn combine_attempts(attempts: &Vec<Attempt>) -> (r: Option<bool>)
    ensures
        (exists|i: int| 0 <= i < attempts@.len() && attempts@[i] == Attempt::Answered) ==> r
            == Some(true),
        !(exists|i: int| 0 <= i < attempts@.len() && attempts@[i] == Attempt::Answered) ==> (r
            == if exists|i: int| 0 <= i < attempts@.len() && attempts@[i] == Attempt::Silent {
            Some(false)
        } else {
            None::<bool>
        }),
{
    let mut silent = false;
    let mut i: usize = 0;
    while i < attempts.len()
        invariant
            i <= attempts@.len(),
            forall|j: int| 0 <= j < i ==> attempts@[j] != Attempt::Answered,
            silent == exists|j: int| 0 <= j < i && attempts@[j] == Attempt::Silent,
        decreases attempts@.len() - i,
    {
        if attempts[i] == Attempt::Answered {
            return Some(true);
        }
        if attempts[i] == Attempt::Silent {
            silent = true;
        }
        i += 1;
    }
    if silent {
        Some(false)
    } else {
        None
    }
}

/// The result of probe `id` from its verdict.
pub fn evaluate_probe(id: &str, verdict: Result<String, String>) -> (r: ProbeResult)
    ensures
        r.id@ == id@,
        r.passed == verdict is Ok,
        r.message@ == match verdict {
            Ok(m) => m@,
            Err(m) => m@,
        },
{
    match verdict {
        Ok(m) => ProbeResult::pass(String::from_str(id), m),
        Err(m) => ProbeResult::fail(String::from_str(id), m),
    }
}

} // verus!

verus! {

/// Whether a node's status conditions, as (type, status) pairs, hold a
/// `Ready` condition that is `True`.
pub fn node_is_ready(conditions: &Vec<(String, String)>) -> (r: bool)
    ensures
        r == exists|i: int|
            0 <= i < conditions@.len() && (#[trigger] conditions@[i]).0@ == "Ready"@
                && conditions@[i].1@ == "True"@,
{
    let mut i: usize = 0;
    while i < conditions.len()
        invariant
            i <= conditions@.len(),
            forall|j: int|
                0 <= j < i ==> !((#[trigger] conditions@[j]).0@ == "Ready"@ && conditions@[j].1@
                    == "True"@),
        decreases conditions@.len() - i,
    {
        if str_eq(conditions[i].0.as_str(), "Ready") && str_eq(conditions[i].1.as_str(), "True") {
            return true;
        }
        i += 1;
    }
    false
}

/// The verdict on the number of ready nodes.
pub fn nodes_ready_verdict(ready: u32, expected: u32) -> (r: Result<String, String>)
    ensures
        r is Ok <==> ready == expected,
        match r {
            Ok(m) => m@ == decimal(ready as nat) + "/"@ + decimal(expected as nat)
                + " nodes are Ready"@,
            Err(m) => m@ == "Only "@ + decimal(ready as nat) + "/"@ + decimal(expected as nat)
                + " nodes are Ready"@,
        },
{
    let mut m = String::new();
    if ready != expected {
        push_str(&mut m, "Only ");
    }
    push_decimal(&mut m, ready as u64);
    push_str(&mut m, "/");
    push_decimal(&mut m, expected as u64);
    push_str(&mut m, " nodes are Ready");
    if ready == expected {
        assert(m@ =~= decimal(ready as nat) + "/"@ + decimal(expected as nat) + " nodes are Ready"@);
        Ok(m)
    } else {
        assert(m@ =~= "Only "@ + decimal(ready as nat) + "/"@ + decimal(expected as nat)
            + " nodes are Ready"@);
        Err(m)
    }
}

/// Whether any subset of an `Endpoints` object, given as its counts of ready
/// and not-ready addresses, has an address.
pub fn endpoints_have_addresses(subsets: &Vec<(u64, u64)>) -> (r: bool)
    ensures
        r == exists|i: int|
            0 <= i < subsets@.len() && ((#[trigger] subsets@[i]).0 > 0 || subsets@[i].1 > 0),
{
    let mut i: usize = 0;
    while i < subsets.len()
        invariant
            i <= subsets@.len(),
            forall|j: int| 0 <= j < i ==> (#[trigger] subsets@[j]).0 == 0 && subsets@[j].1 == 0,
        decreases subsets@.len() - i,
    {
        if subsets[i].0 > 0 || subsets[i].1 > 0 {
            return true;
        }
        i += 1;
    }
    false
}

/// The verdict on a service's endpoints: it passes when its `Endpoints`
/// object has an address, or else when its EndpointSlices hold any.
pub fn endpoints_verdict(namespace: &str, name: &str, endpoints_found: bool, slice_addresses: u64) -> (r:
    Result<String, String>)
    ensures
        r is Ok <==> (endpoints_found || slice_addresses > 0),
        endpoints_found ==> (r matches Ok(m) && m@ == "Service '"@ + namespace@ + "/"@ + name@
            + "' has endpoints (Endpoints)"@),
        !endpoints_found && slice_addresses > 0 ==> (r matches Ok(m) && m@ == "Service '"@
            + namespace@ + "/"@ + name@ + "' has endpoints (EndpointSlices: "@ + decimal(
            slice_addresses as nat,
        ) + " addresses)"@),
        r matches Err(m) ==> m@ == "Service '"@ + namespace@ + "/"@ + name@ + "' has no endpoints"@,
{
    let mut m = String::from_str("Service '");
    push_str(&mut m, namespace);
    push_str(&mut m, "/");
    push_str(&mut m, name);
    let ghost head = m@;
    if endpoints_found {
        push_str(&mut m, "' has endpoints (Endpoints)");
        assert(m@ =~= "Service '"@ + namespace@ + "/"@ + name@ + "' has endpoints (Endpoints)"@);
        Ok(m)
    } else if slice_addresses > 0 {
        push_str(&mut m, "' has endpoints (EndpointSlices: ");
        push_decimal(&mut m, slice_addresses);
        push_str(&mut m, " addresses)");
        assert(m@ =~= "Service '"@ + namespace@ + "/"@ + name@ + "' has endpoints (EndpointSlices: "@
            + decimal(slice_addresses as nat) + " addresses)"@);
        Ok(m)
    } else {
        push_str(&mut m, "' has no endpoints");
        assert(m@ =~= "Service '"@ + namespace@ + "/"@ + name@ + "' has no endpoints"@);
        Err(m)
    }
}

} // verus!
