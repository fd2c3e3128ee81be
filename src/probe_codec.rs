//! The field-level encoding of probe specifications: a type tag plus named
//! scalar fields, as carried in the `type`-tagged JSON objects of the guest
//! protocol and in the config blocks of probe definitions.
use vstd::prelude::*;
use crate::probes::{PortState, ProbeSpec, Protocol, ReachabilityState, ServiceState};
use crate::text::{push_str, str_eq};

verus! {

/// A scalar field value.
#[derive(Debug, Clone, PartialEq, Eq)]
pub enum FieldValue {
    Null,
    Bool(bool),
    Int(i128),
    Str(String),
}

/// The value of the first field named `key`.
pub open spec fn lookup(fields: Seq<(String, FieldValue)>, key: Seq<char>) -> Option<FieldValue>
    decreases fields.len(),
{
    if fields.len() == 0 {
        None
    } else if fields[0].0@ == key {
        Some(fields[0].1)
    } else {
        lookup(fields.drop_first(), key)
    }
}

pub open spec fn str_field(fields: Seq<(String, FieldValue)>, key: Seq<char>) -> Option<Seq<char>> {
    match lookup(fields, key) {
        Some(FieldValue::Str(s)) => Some(s@),
        _ => None,
    }
}

/// An optional text field: absent or null reads as `None`.
pub open spec fn opt_str_field(fields: Seq<(String, FieldValue)>, key: Seq<char>) -> Option<
    Option<Seq<char>>,
> {
    match lookup(fields, key) {
        None => Some(None),
        Some(FieldValue::Null) => Some(None),
        Some(FieldValue::Str(s)) => Some(Some(s@)),
        _ => None,
    }
}

/// An integer field within `lo..=hi`; when `default` is given, absent or null
/// reads as that value.
pub open spec fn int_field(
    fields: Seq<(String, FieldValue)>,
    key: Seq<char>,
    lo: int,
    hi: int,
    default: Option<int>,
) -> Option<int> {
    match lookup(fields, key) {
        Some(FieldValue::Int(n)) => if lo <= n <= hi {
            Some(n as int)
        } else {
            None
        },
        None => default,
        _ => None,
    }
}

pub open spec fn bool_field(fields: Seq<(String, FieldValue)>, key: Seq<char>) -> Option<bool> {
    match lookup(fields, key) {
        Some(FieldValue::Bool(b)) => Some(b),
        _ => None,
    }
}

pub open spec fn service_state_name(s: ServiceState) -> Seq<char> {
    match s {
        ServiceState::Running => "running"@,
        ServiceState::Stopped => "stopped"@,
        ServiceState::Enabled => "enabled"@,
        ServiceState::Disabled => "disabled"@,
    }
}

pub open spec fn port_state_name(s: PortState) -> Seq<char> {
    match s {
        PortState::Listening => "listening"@,
        PortState::Closed => "closed"@,
    }
}

pub open spec fn protocol_name(p: Protocol) -> Seq<char> {
    match p {
        Protocol::Tcp => "tcp"@,
        Protocol::Udp => "udp"@,
    }
}

pub open spec fn reachability_name(s: ReachabilityState) -> Seq<char> {
    match s {
        ReachabilityState::Reachable => "reachable"@,
        ReachabilityState::Unreachable => "unreachable"@,
    }
}

/// The type tag of each kind of probe.
pub open spec fn probe_tag(s: ProbeSpec) -> Seq<char> {
    match s {
        ProbeSpec::FileContent { .. } => "file_content"@,
        ProbeSpec::FileExists { .. } => "file_exists"@,
        ProbeSpec::Service { .. } => "service"@,
        ProbeSpec::Port { .. } => "port"@,
        ProbeSpec::Command { .. } => "command"@,
        ProbeSpec::Http { .. } => "http"@,
        ProbeSpec::K8sNodesReady { .. } => "k8s_nodes_ready"@,
        ProbeSpec::K8sEndpointsNonEmpty { .. } => "k8s_endpoints_non_empty"@,
        ProbeSpec::TcpPing { .. } => "tcp_ping"@,
    }
}

/// Whether `tag` names the kind of `s`; the endpoints probe is also known as
/// `k8s_endpoints_nonempty`.
pub open spec fn tag_names(tag: Seq<char>, s: ProbeSpec) -> bool {
    tag == probe_tag(s) || (s is K8sEndpointsNonEmpty && tag == "k8s_endpoints_nonempty"@)
}

pub open spec fn opt_view(o: Option<String>) -> Option<Seq<char>> {
    match o {
        Some(s) => Some(s@),
        None => None,
    }
}

/// Whether `tag` and `fields` decode to `s`.
pub open spec fn decodes_to(tag: Seq<char>, fields: Seq<(String, FieldValue)>, s: ProbeSpec) -> bool {
    tag_names(tag, s) && match s {
        ProbeSpec::FileContent { path, contains, regex } => str_field(fields, "path"@) == Some(
            path@,
        ) && opt_str_field(fields, "contains"@) == Some(opt_view(contains)) && opt_str_field(
            fields,
            "regex"@,
        ) == Some(opt_view(regex)),
        ProbeSpec::FileExists { path, exists } => str_field(fields, "path"@) == Some(path@)
            && bool_field(fields, "exists"@) == Some(exists),
        ProbeSpec::Service { service, state } => str_field(fields, "service"@) == Some(service@)
            && str_field(fields, "state"@) == Some(service_state_name(state)),
        ProbeSpec::Port { port, state, protocol } => int_field(fields, "port"@, 0, 65535, None)
            == Some(port as int) && str_field(fields, "state"@) == Some(port_state_name(state)) && (
        match lookup(fields, "protocol"@) {
            None => protocol == Protocol::Tcp,
            Some(FieldValue::Str(p)) => p@ == protocol_name(protocol),
            _ => false,
        }),
        ProbeSpec::Command { cmd, exit_code, stdout_contains } => str_field(fields, "cmd"@)
            == Some(cmd@) && int_field(fields, "exit_code"@, i32::MIN as int, i32::MAX as int, None)
            == Some(exit_code as int) && opt_str_field(fields, "stdout_contains"@) == Some(
            opt_view(stdout_contains),
        ),
        ProbeSpec::Http { url, status, body_contains } => str_field(fields, "url"@) == Some(url@)
            && int_field(fields, "status"@, 0, 65535, None) == Some(status as int) && opt_str_field(
            fields,
            "body_contains"@,
        ) == Some(opt_view(body_contains)),
        ProbeSpec::K8sNodesReady { expected_ready, kubeconfig, context } => int_field(
            fields,
            "expected_ready"@,
            0,
            u32::MAX as int,
            None,
        ) == Some(expected_ready as int) && opt_str_field(fields, "kubeconfig"@) == Some(
            opt_view(kubeconfig),
        ) && opt_str_field(fields, "context"@) == Some(opt_view(context)),
        ProbeSpec::K8sEndpointsNonEmpty { namespace, name, kubeconfig, context } => str_field(
            fields,
            "namespace"@,
        ) == Some(namespace@) && str_field(fields, "name"@) == Some(name@) && opt_str_field(
            fields,
            "kubeconfig"@,
        ) == Some(opt_view(kubeconfig)) && opt_str_field(fields, "context"@) == Some(
            opt_view(context),
        ),
        ProbeSpec::TcpPing { host, port, timeout_ms, state } => str_field(fields, "host"@)
            == Some(host@) && int_field(fields, "port"@, 0, 65535, Some(1)) == Some(port as int)
            && int_field(fields, "timeout_ms"@, 0, u64::MAX as int, Some(2000)) == Some(
            timeout_ms as int,
        ) && (match lookup(fields, "state"@) {
            None => state == ReachabilityState::Reachable,
            Some(FieldValue::Str(p)) => p@ == reachability_name(state),
            _ => false,
        }),
    }
}

/// Whether `s` is one of the names of a service state.
pub open spec fn service_state_ok(s: Option<Seq<char>>) -> bool {
    s == Some("running"@) || s == Some("stopped"@) || s == Some("enabled"@) || s == Some(
        "disabled"@,
    )
}

pub open spec fn port_state_ok(s: Option<Seq<char>>) -> bool {
    s == Some("listening"@) || s == Some("closed"@)
}

pub open spec fn protocol_ok(v: Option<FieldValue>) -> bool {
    match v {
        None => true,
        Some(FieldValue::Str(p)) => p@ == "tcp"@ || p@ == "udp"@,
        _ => false,
    }
}

pub open spec fn reachability_ok(v: Option<FieldValue>) -> bool {
    match v {
        None => true,
        Some(FieldValue::Str(p)) => p@ == "reachable"@ || p@ == "unreachable"@,
        _ => false,
    }
}

/// Whether `tag` and `fields` describe a probe: the tag is known, every
/// required field is present with the right type and range, and every optional
/// one is absent, null or of the right type. Unknown fields are ignored.
pub open spec fn decode_ok(tag: Seq<char>, f: Seq<(String, FieldValue)>) -> bool {
    if tag == "file_content"@ {
        str_field(f, "path"@) is Some && opt_str_field(f, "contains"@) is Some && opt_str_field(
            f,
            "regex"@,
        ) is Some
    } else if tag == "file_exists"@ {
        str_field(f, "path"@) is Some && bool_field(f, "exists"@) is Some
    } else if tag == "service"@ {
        str_field(f, "service"@) is Some && service_state_ok(str_field(f, "state"@))
    } else if tag == "port"@ {
        int_field(f, "port"@, 0, 65535, None) is Some && port_state_ok(str_field(f, "state"@))
            && protocol_ok(lookup(f, "protocol"@))
    } else if tag == "command"@ {
        str_field(f, "cmd"@) is Some && int_field(
            f,
            "exit_code"@,
            i32::MIN as int,
            i32::MAX as int,
            None,
        ) is Some && opt_str_field(f, "stdout_contains"@) is Some
    } else if tag == "http"@ {
        str_field(f, "url"@) is Some && int_field(f, "status"@, 0, 65535, None) is Some
            && opt_str_field(f, "body_contains"@) is Some
    } else if tag == "k8s_nodes_ready"@ {
        int_field(f, "expected_ready"@, 0, u32::MAX as int, None) is Some && opt_str_field(
            f,
            "kubeconfig"@,
        ) is Some && opt_str_field(f, "context"@) is Some
    } else if tag == "k8s_endpoints_non_empty"@ || tag == "k8s_endpoints_nonempty"@ {
        str_field(f, "namespace"@) is Some && str_field(f, "name"@) is Some && opt_str_field(
            f,
            "kubeconfig"@,
        ) is Some && opt_str_field(f, "context"@) is Some
    } else if tag == "tcp_ping"@ {
        str_field(f, "host"@) is Some && int_field(f, "port"@, 0, 65535, Some(1)) is Some
            && int_field(f, "timeout_ms"@, 0, u64::MAX as int, Some(2000)) is Some
            && reachability_ok(lookup(f, "state"@))
    } else {
        false
    }
}

pub open spec fn entry_str(e: (String, FieldValue), key: Seq<char>, v: Seq<char>) -> bool {
    e.0@ == key && (e.1 matches FieldValue::Str(x) && x@ == v)
}

pub open spec fn entry_opt(e: (String, FieldValue), key: Seq<char>, v: Option<Seq<char>>) -> bool {
    e.0@ == key && match v {
        None => e.1 is Null,
        Some(t) => e.1 matches FieldValue::Str(x) && x@ == t,
    }
}

pub open spec fn entry_int(e: (String, FieldValue), key: Seq<char>, n: int) -> bool {
    e.0@ == key && (e.1 matches FieldValue::Int(m) && m == n)
}

pub open spec fn entry_bool(e: (String, FieldValue), key: Seq<char>, b: bool) -> bool {
    e.0@ == key && e.1 == FieldValue::Bool(b)
}

/// The encoding of `s`: its tag and every field in declaration order, an
/// absent optional text as null.
pub open spec fn encodes_to(s: ProbeSpec, tag: Seq<char>, f: Seq<(String, FieldValue)>) -> bool {
    tag == probe_tag(s) && match s {
        ProbeSpec::FileContent { path, contains, regex } => f.len() == 3 && entry_str(
            f[0],
            "path"@,
            path@,
        ) && entry_opt(f[1], "contains"@, opt_view(contains)) && entry_opt(
            f[2],
            "regex"@,
            opt_view(regex),
        ),
        ProbeSpec::FileExists { path, exists } => f.len() == 2 && entry_str(f[0], "path"@, path@)
            && entry_bool(f[1], "exists"@, exists),
        ProbeSpec::Service { service, state } => f.len() == 2 && entry_str(
            f[0],
            "service"@,
            service@,
        ) && entry_str(f[1], "state"@, service_state_name(state)),
        ProbeSpec::Port { port, state, protocol } => f.len() == 3 && entry_int(
            f[0],
            "port"@,
            port as int,
        ) && entry_str(f[1], "state"@, port_state_name(state)) && entry_str(
            f[2],
            "protocol"@,
            protocol_name(protocol),
        ),
        ProbeSpec::Command { cmd, exit_code, stdout_contains } => f.len() == 3 && entry_str(
            f[0],
            "cmd"@,
            cmd@,
        ) && entry_int(f[1], "exit_code"@, exit_code as int) && entry_opt(
            f[2],
            "stdout_contains"@,
            opt_view(stdout_contains),
        ),
        ProbeSpec::Http { url, status, body_contains } => f.len() == 3 && entry_str(
            f[0],
            "url"@,
            url@,
        ) && entry_int(f[1], "status"@, status as int) && entry_opt(
            f[2],
            "body_contains"@,
            opt_view(body_contains),
        ),
        ProbeSpec::K8sNodesReady { expected_ready, kubeconfig, context } => f.len() == 3
            && entry_int(f[0], "expected_ready"@, expected_ready as int) && entry_opt(
            f[1],
            "kubeconfig"@,
            opt_view(kubeconfig),
        ) && entry_opt(f[2], "context"@, opt_view(context)),
        ProbeSpec::K8sEndpointsNonEmpty { namespace, name, kubeconfig, context } => f.len() == 4
            && entry_str(f[0], "namespace"@, namespace@) && entry_str(f[1], "name"@, name@)
            && entry_opt(f[2], "kubeconfig"@, opt_view(kubeconfig)) && entry_opt(
            f[3],
            "context"@,
            opt_view(context),
        ),
        ProbeSpec::TcpPing { host, port, timeout_ms, state } => f.len() == 4 && entry_str(
            f[0],
            "host"@,
            host@,
        ) && entry_int(f[1], "port"@, port as int) && entry_int(
            f[2],
            "timeout_ms"@,
            timeout_ms as int,
        ) && entry_str(f[3], "state"@, reachability_name(state)),
    }
}

/// Two probes that agree on every field.
pub open spec fn same_probe(a: ProbeSpec, b: ProbeSpec) -> bool {
    match (a, b) {
        (
            ProbeSpec::FileContent { path: p_a, contains: c_a, regex: r_a },
            ProbeSpec::FileContent { path: p_b, contains: c_b, regex: r_b },
        ) => p_a@ == p_b@ && opt_view(c_a) == opt_view(c_b) && opt_view(r_a) == opt_view(r_b),
        (
            ProbeSpec::FileExists { path: p_a, exists: e_a },
            ProbeSpec::FileExists { path: p_b, exists: e_b },
        ) => p_a@ == p_b@ && e_a == e_b,
        (
            ProbeSpec::Service { service: s_a, state: t_a },
            ProbeSpec::Service { service: s_b, state: t_b },
        ) => s_a@ == s_b@ && t_a == t_b,
        (
            ProbeSpec::Port { port: p_a, state: s_a, protocol: q_a },
            ProbeSpec::Port { port: p_b, state: s_b, protocol: q_b },
        ) => p_a == p_b && s_a == s_b && q_a == q_b,
        (
            ProbeSpec::Command { cmd: c_a, exit_code: e_a, stdout_contains: o_a },
            ProbeSpec::Command { cmd: c_b, exit_code: e_b, stdout_contains: o_b },
        ) => c_a@ == c_b@ && e_a == e_b && opt_view(o_a) == opt_view(o_b),
        (
            ProbeSpec::Http { url: u_a, status: s_a, body_contains: b_a },
            ProbeSpec::Http { url: u_b, status: s_b, body_contains: b_b },
        ) => u_a@ == u_b@ && s_a == s_b && opt_view(b_a) == opt_view(b_b),
        (
            ProbeSpec::K8sNodesReady { expected_ready: e_a, kubeconfig: k_a, context: c_a },
            ProbeSpec::K8sNodesReady { expected_ready: e_b, kubeconfig: k_b, context: c_b },
        ) => e_a == e_b && opt_view(k_a) == opt_view(k_b) && opt_view(c_a) == opt_view(c_b),
        (
            ProbeSpec::K8sEndpointsNonEmpty { namespace: n_a, name: m_a, kubeconfig: k_a, context: c_a },
            ProbeSpec::K8sEndpointsNonEmpty { namespace: n_b, name: m_b, kubeconfig: k_b, context: c_b },
        ) => n_a@ == n_b@ && m_a@ == m_b@ && opt_view(k_a) == opt_view(k_b) && opt_view(c_a) == opt_view(
            c_b,
        ),
        (
            ProbeSpec::TcpPing { host: h_a, port: p_a, timeout_ms: t_a, state: s_a },
            ProbeSpec::TcpPing { host: h_b, port: p_b, timeout_ms: t_b, state: s_b },
        ) => h_a@ == h_b@ && p_a == p_b && t_a == t_b && s_a == s_b,
        _ => false,
    }
}

} // verus!

verus! {

fn find_field(f: &Vec<(String, FieldValue)>, key: &str) -> (r: Option<usize>)
    ensures
        match r {
            Some(i) => i < f@.len() && lookup(f@, key@) == Some(f@[i as int].1),
            None => lookup(f@, key@) is None,
        },
{
    let mut i: usize = 0;
    assert(f@.subrange(0, f@.len() as int) =~= f@);
    while i < f.len()
        invariant
            i <= f@.len(),
            lookup(f@, key@) == lookup(f@.subrange(i as int, f@.len() as int), key@),
        decreases f@.len() - i,
    {
        let ghost rest = f@.subrange(i as int, f@.len() as int);
        assert(rest[0] == f@[i as int]);
        if str_eq(f[i].0.as_str(), key) {
            return Some(i);
        }
        assert(rest.drop_first() =~= f@.subrange(i + 1, f@.len() as int));
        i += 1;
    }
    None
}

fn field_error(key: &str) -> String {
    let mut m = String::from_str("invalid or missing field `");
    push_str(&mut m, key);
    push_str(&mut m, "`");
    m
}

fn get_str(f: &Vec<(String, FieldValue)>, key: &str) -> (r: Result<String, String>)
    ensures
        r is Ok <==> str_field(f@, key@) is Some,
        r matches Ok(s) ==> str_field(f@, key@) == Some(s@),
{
    match find_field(f, key) {
        Some(i) => match &f[i].1 {
            FieldValue::Str(s) => Ok(s.clone()),
            _ => Err(field_error(key)),
        },
        None => Err(field_error(key)),
    }
}

fn get_opt_str(f: &Vec<(String, FieldValue)>, key: &str) -> (r: Result<Option<String>, String>)
    ensures
        r is Ok <==> opt_str_field(f@, key@) is Some,
        r matches Ok(o) ==> opt_str_field(f@, key@) == Some(opt_view(o)),
{
    match find_field(f, key) {
        Some(i) => match &f[i].1 {
            FieldValue::Str(s) => Ok(Some(s.clone())),
            FieldValue::Null => Ok(None),
            _ => Err(field_error(key)),
        },
        None => Ok(None),
    }
}

pub open spec fn int_opt(o: Option<i128>) -> Option<int> {
    match o {
        Some(d) => Some(d as int),
        None => None,
    }
}

fn get_int(f: &Vec<(String, FieldValue)>, key: &str, lo: i128, hi: i128, default: Option<i128>) -> (r:
    Result<i128, String>)
    ensures
        r is Ok <==> int_field(f@, key@, lo as int, hi as int, int_opt(default)) is Some,
        r matches Ok(n) ==> int_field(f@, key@, lo as int, hi as int, int_opt(default)) == Some(
            n as int,
        ),
{
    match find_field(f, key) {
        Some(i) => match &f[i].1 {
            FieldValue::Int(n) => if lo <= *n && *n <= hi {
                Ok(*n)
            } else {
                Err(field_error(key))
            },
            _ => Err(field_error(key)),
        },
        None => match default {
            Some(d) => Ok(d),
            None => Err(field_error(key)),
        },
    }
}

fn get_bool(f: &Vec<(String, FieldValue)>, key: &str) -> (r: Result<bool, String>)
    ensures
        r is Ok <==> bool_field(f@, key@) is Some,
        r matches Ok(b) ==> bool_field(f@, key@) == Some(b),
{
    match find_field(f, key) {
        Some(i) => match &f[i].1 {
            FieldValue::Bool(b) => Ok(*b),
            _ => Err(field_error(key)),
        },
        None => Err(field_error(key)),
    }
}

fn unknown_value(key: &str) -> String {
    let mut m = String::from_str("unknown value of field `");
    push_str(&mut m, key);
    push_str(&mut m, "`");
    m
}

} // verus!

verus! {

fn parse_service_state(f: &Vec<(String, FieldValue)>) -> (r: Result<ServiceState, String>)
    ensures
        r is Ok <==> service_state_ok(str_field(f@, "state"@)),
        r matches Ok(s) ==> str_field(f@, "state"@) == Some(service_state_name(s)),
{
    let s = get_str(f, "state")?;
    if str_eq(s.as_str(), "running") {
        Ok(ServiceState::Running)
    } else if str_eq(s.as_str(), "stopped") {
        Ok(ServiceState::Stopped)
    } else if str_eq(s.as_str(), "enabled") {
        Ok(ServiceState::Enabled)
    } else if str_eq(s.as_str(), "disabled") {
        Ok(ServiceState::Disabled)
    } else {
        Err(unknown_value("state"))
    }
}

fn parse_port_state(f: &Vec<(String, FieldValue)>) -> (r: Result<PortState, String>)
    ensures
        r is Ok <==> port_state_ok(str_field(f@, "state"@)),
        r matches Ok(s) ==> str_field(f@, "state"@) == Some(port_state_name(s)),
{
    let s = get_str(f, "state")?;
    if str_eq(s.as_str(), "listening") {
        Ok(PortState::Listening)
    } else if str_eq(s.as_str(), "closed") {
        Ok(PortState::Closed)
    } else {
        Err(unknown_value("state"))
    }
}

fn parse_protocol(f: &Vec<(String, FieldValue)>) -> (r: Result<Protocol, String>)
    ensures
        r is Ok <==> protocol_ok(lookup(f@, "protocol"@)),
        r matches Ok(p) ==> match lookup(f@, "protocol"@) {
            None => p == Protocol::Tcp,
            Some(FieldValue::Str(s)) => s@ == protocol_name(p),
            _ => false,
        },
{
    match find_field(f, "protocol") {
        None => Ok(Protocol::Tcp),
        Some(i) => match &f[i].1 {
            FieldValue::Str(s) => if str_eq(s.as_str(), "tcp") {
                Ok(Protocol::Tcp)
            } else if str_eq(s.as_str(), "udp") {
                Ok(Protocol::Udp)
            } else {
                Err(unknown_value("protocol"))
            },
            _ => Err(unknown_value("protocol")),
        },
    }
}

fn parse_reachability(f: &Vec<(String, FieldValue)>) -> (r: Result<ReachabilityState, String>)
    ensures
        r is Ok <==> reachability_ok(lookup(f@, "state"@)),
        r matches Ok(p) ==> match lookup(f@, "state"@) {
            None => p == ReachabilityState::Reachable,
            Some(FieldValue::Str(s)) => s@ == reachability_name(p),
            _ => false,
        },
{
    match find_field(f, "state") {
        None => Ok(ReachabilityState::Reachable),
        Some(i) => match &f[i].1 {
            FieldValue::Str(s) => if str_eq(s.as_str(), "reachable") {
                Ok(ReachabilityState::Reachable)
            } else if str_eq(s.as_str(), "unreachable") {
                Ok(ReachabilityState::Unreachable)
            } else {
                Err(unknown_value("state"))
            },
            _ => Err(unknown_value("state")),
        },
    }
}

impl ProbeSpec {
    /// Build a probe from its type tag and its config fields.
    ///
    /// Fails, with a message naming the field, exactly when the tag is unknown
    /// or a field is missing, mistyped or out of range.
    pub fn from_definition(probe_type: &str, config: &Vec<(String, FieldValue)>) -> (r: Result<
        ProbeSpec,
        String,
    >)
        ensures
            r is Ok <==> decode_ok(probe_type@, config@),
            r matches Ok(s) ==> decodes_to(probe_type@, config@, s),
    {
        let f = config;
        if str_eq(probe_type, "file_content") {
            let path = get_str(f, "path")?;
            let contains = get_opt_str(f, "contains")?;
            let regex = get_opt_str(f, "regex")?;
            Ok(ProbeSpec::FileContent { path, contains, regex })
        } else if str_eq(probe_type, "file_exists") {
            let path = get_str(f, "path")?;
            let exists = get_bool(f, "exists")?;
            Ok(ProbeSpec::FileExists { path, exists })
        } else if str_eq(probe_type, "service") {
            let service = get_str(f, "service")?;
            let state = parse_service_state(f)?;
            Ok(ProbeSpec::Service { service, state })
        } else if str_eq(probe_type, "port") {
            let port = get_int(f, "port", 0, 65535, None)?;
            let state = parse_port_state(f)?;
            let protocol = parse_protocol(f)?;
            Ok(ProbeSpec::Port { port: port as u16, state, protocol })
        } else if str_eq(probe_type, "command") {
            let cmd = get_str(f, "cmd")?;
            let exit_code = get_int(f, "exit_code", i32::MIN as i128, i32::MAX as i128, None)?;
            let stdout_contains = get_opt_str(f, "stdout_contains")?;
            Ok(ProbeSpec::Command { cmd, exit_code: exit_code as i32, stdout_contains })
        } else if str_eq(probe_type, "http") {
            let url = get_str(f, "url")?;
            let status = get_int(f, "status", 0, 65535, None)?;
            let body_contains = get_opt_str(f, "body_contains")?;
            Ok(ProbeSpec::Http { url, status: status as u16, body_contains })
        } else if str_eq(probe_type, "k8s_nodes_ready") {
            let expected_ready = get_int(f, "expected_ready", 0, u32::MAX as i128, None)?;
            let kubeconfig = get_opt_str(f, "kubeconfig")?;
            let context = get_opt_str(f, "context")?;
            Ok(
                ProbeSpec::K8sNodesReady {
                    expected_ready: expected_ready as u32,
                    kubeconfig,
                    context,
                },
            )
        } else if str_eq(probe_type, "k8s_endpoints_non_empty") || str_eq(
            probe_type,
            "k8s_endpoints_nonempty",
        ) {
            let namespace = get_str(f, "namespace")?;
            let name = get_str(f, "name")?;
            let kubeconfig = get_opt_str(f, "kubeconfig")?;
            let context = get_opt_str(f, "context")?;
            Ok(ProbeSpec::K8sEndpointsNonEmpty { namespace, name, kubeconfig, context })
        } else if str_eq(probe_type, "tcp_ping") {
            let host = get_str(f, "host")?;
            let port = get_int(f, "port", 0, 65535, Some(1))?;
            let timeout_ms = get_int(f, "timeout_ms", 0, u64::MAX as i128, Some(2000))?;
            let state = parse_reachability(f)?;
            Ok(
                ProbeSpec::TcpPing {
                    host,
                    port: port as u16,
                    timeout_ms: timeout_ms as u64,
                    state,
                },
            )
        } else {
            let mut m = String::from_str("unknown probe type `");
            push_str(&mut m, probe_type);
            push_str(&mut m, "`");
            Err(m)
        }
    }
}

} // verus!

verus! {

fn opt_field(o: &Option<String>) -> (r: FieldValue)
    ensures
        match opt_view(*o) {
            None => r is Null,
            Some(t) => r matches FieldValue::Str(x) && x@ == t,
        },
{
    match o {
        Some(s) => FieldValue::Str(s.clone()),
        None => FieldValue::Null,
    }
}

fn entry(key: &str, v: FieldValue) -> (r: (String, FieldValue))
    ensures
        r.0@ == key@,
        r.1 == v,
{
    (String::from_str(key), v)
}

fn text(s: &str) -> (r: FieldValue)
    ensures
        r matches FieldValue::Str(x) && x@ == s@,
{
    FieldValue::Str(String::from_str(s))
}

impl ProbeSpec {
    /// The type tag and the fields of this probe, in declaration order.
    pub fn to_fields(&self) -> (r: (String, Vec<(String, FieldValue)>))
        ensures
            encodes_to(*self, r.0@, r.1@),
    {
        match self {
            ProbeSpec::FileContent { path, contains, regex } => (
                String::from_str("file_content"),
                vec![
                    entry("path", FieldValue::Str(path.clone())),
                    entry("contains", opt_field(contains)),
                    entry("regex", opt_field(regex)),
                ],
            ),
            ProbeSpec::FileExists { path, exists } => (
                String::from_str("file_exists"),
                vec![
                    entry("path", FieldValue::Str(path.clone())),
                    entry("exists", FieldValue::Bool(*exists)),
                ],
            ),
            ProbeSpec::Service { service, state } => {
                let st = match state {
                    ServiceState::Running => text("running"),
                    ServiceState::Stopped => text("stopped"),
                    ServiceState::Enabled => text("enabled"),
                    ServiceState::Disabled => text("disabled"),
                };
                (
                    String::from_str("service"),
                    vec![entry("service", FieldValue::Str(service.clone())), entry("state", st)],
                )
            },
            ProbeSpec::Port { port, state, protocol } => {
                let st = match state {
                    PortState::Listening => text("listening"),
                    PortState::Closed => text("closed"),
                };
                let pr = match protocol {
                    Protocol::Tcp => text("tcp"),
                    Protocol::Udp => text("udp"),
                };
                (
                    String::from_str("port"),
                    vec![
                        entry("port", FieldValue::Int(*port as i128)),
                        entry("state", st),
                        entry("protocol", pr),
                    ],
                )
            },
            ProbeSpec::Command { cmd, exit_code, stdout_contains } => (
                String::from_str("command"),
                vec![
                    entry("cmd", FieldValue::Str(cmd.clone())),
                    entry("exit_code", FieldValue::Int(*exit_code as i128)),
                    entry("stdout_contains", opt_field(stdout_contains)),
                ],
            ),
            ProbeSpec::Http { url, status, body_contains } => (
                String::from_str("http"),
                vec![
                    entry("url", FieldValue::Str(url.clone())),
                    entry("status", FieldValue::Int(*status as i128)),
                    entry("body_contains", opt_field(body_contains)),
                ],
            ),
            ProbeSpec::K8sNodesReady { expected_ready, kubeconfig, context } => (
                String::from_str("k8s_nodes_ready"),
                vec![
                    entry("expected_ready", FieldValue::Int(*expected_ready as i128)),
                    entry("kubeconfig", opt_field(kubeconfig)),
                    entry("context", opt_field(context)),
                ],
            ),
            ProbeSpec::K8sEndpointsNonEmpty { namespace, name, kubeconfig, context } => (
                String::from_str("k8s_endpoints_non_empty"),
                vec![
                    entry("namespace", FieldValue::Str(namespace.clone())),
                    entry("name", FieldValue::Str(name.clone())),
                    entry("kubeconfig", opt_field(kubeconfig)),
                    entry("context", opt_field(context)),
                ],
            ),
            ProbeSpec::TcpPing { host, port, timeout_ms, state } => {
                let st = match state {
                    ReachabilityState::Reachable => text("reachable"),
                    ReachabilityState::Unreachable => text("unreachable"),
                };
                (
                    String::from_str("tcp_ping"),
                    vec![
                        entry("host", FieldValue::Str(host.clone())),
                        entry("port", FieldValue::Int(*port as i128)),
                        entry("timeout_ms", FieldValue::Int(*timeout_ms as i128)),
                        entry("state", st),
                    ],
                )
            },
        }
    }
}

} // verus!

verus! {

proof fn lemma_lookup_at(f: Seq<(String, FieldValue)>, key: Seq<char>, k: int)
    requires
        0 <= k < f.len(),
        f[k].0@ == key,
        forall|j: int| 0 <= j < k ==> f[j].0@ != key,
    ensures
        lookup(f, key) == Some(f[k].1),
    decreases k,
{
    if k > 0 {
        lemma_lookup_at(f.drop_first(), key, k - 1);
    }
}

/// Decoding the encoding of a probe gives back the same probe: the tag and
/// fields that `to_fields` produces are accepted by `from_definition`, and
/// every probe they decode to agrees with the original on every field,
/// defaults included.
pub proof fn probe_fields_round_trip(s: ProbeSpec, tag: Seq<char>, f: Seq<(String, FieldValue)>, s2: ProbeSpec)
    requires
        encodes_to(s, tag, f),
    ensures
        decode_ok(tag, f),
        decodes_to(tag, f, s2) ==> same_probe(s, s2),
{
    reveal_strlit("file_content");
    assert("file_content"@.len() == 12 && "file_content"@[0] == 'f');
    reveal_strlit("file_exists");
    assert("file_exists"@.len() == 11 && "file_exists"@[0] == 'f');
    reveal_strlit("service");
    assert("service"@.len() == 7 && "service"@[0] == 's');
    reveal_strlit("port");
    assert("port"@.len() == 4 && "port"@[0] == 'p');
    reveal_strlit("command");
    assert("command"@.len() == 7 && "command"@[0] == 'c');
    reveal_strlit("http");
    assert("http"@.len() == 4 && "http"@[0] == 'h');
    reveal_strlit("k8s_nodes_ready");
    assert("k8s_nodes_ready"@.len() == 15 && "k8s_nodes_ready"@[0] == 'k');
    reveal_strlit("k8s_endpoints_non_empty");
    assert("k8s_endpoints_non_empty"@.len() == 23 && "k8s_endpoints_non_empty"@[0] == 'k');
    reveal_strlit("k8s_endpoints_nonempty");
    assert("k8s_endpoints_nonempty"@.len() == 22 && "k8s_endpoints_nonempty"@[0] == 'k');
    reveal_strlit("tcp_ping");
    assert("tcp_ping"@.len() == 8 && "tcp_ping"@[0] == 't');
    reveal_strlit("path");
    assert("path"@.len() == 4 && "path"@[0] == 'p');
    reveal_strlit("contains");
    assert("contains"@.len() == 8 && "contains"@[0] == 'c');
    reveal_strlit("regex");
    assert("regex"@.len() == 5 && "regex"@[0] == 'r');
    reveal_strlit("exists");
    assert("exists"@.len() == 6 && "exists"@[0] == 'e');
    reveal_strlit("state");
    assert("state"@.len() == 5 && "state"@[0] == 's');
    reveal_strlit("protocol");
    assert("protocol"@.len() == 8 && "protocol"@[0] == 'p');
    reveal_strlit("cmd");
    assert("cmd"@.len() == 3 && "cmd"@[0] == 'c');
    reveal_strlit("exit_code");
    assert("exit_code"@.len() == 9 && "exit_code"@[0] == 'e');
    reveal_strlit("stdout_contains");
    assert("stdout_contains"@.len() == 15 && "stdout_contains"@[0] == 's');
    reveal_strlit("url");
    assert("url"@.len() == 3 && "url"@[0] == 'u');
    reveal_strlit("status");
    assert("status"@.len() == 6 && "status"@[0] == 's');
    reveal_strlit("body_contains");
    assert("body_contains"@.len() == 13 && "body_contains"@[0] == 'b');
    reveal_strlit("expected_ready");
    assert("expected_ready"@.len() == 14 && "expected_ready"@[0] == 'e');
    reveal_strlit("kubeconfig");
    assert("kubeconfig"@.len() == 10 && "kubeconfig"@[0] == 'k');
    reveal_strlit("context");
    assert("context"@.len() == 7 && "context"@[0] == 'c');
    reveal_strlit("namespace");
    assert("namespace"@.len() == 9 && "namespace"@[0] == 'n');
    reveal_strlit("name");
    assert("name"@.len() == 4 && "name"@[0] == 'n');
    reveal_strlit("host");
    assert("host"@.len() == 4 && "host"@[0] == 'h');
    reveal_strlit("timeout_ms");
    assert("timeout_ms"@.len() == 10 && "timeout_ms"@[0] == 't');
    reveal_strlit("running");
    assert("running"@.len() == 7 && "running"@[0] == 'r');
    reveal_strlit("stopped");
    assert("stopped"@.len() == 7 && "stopped"@[0] == 's');
    reveal_strlit("enabled");
    assert("enabled"@.len() == 7 && "enabled"@[0] == 'e');
    reveal_strlit("disabled");
    assert("disabled"@.len() == 8 && "disabled"@[0] == 'd');
    reveal_strlit("listening");
    assert("listening"@.len() == 9 && "listening"@[0] == 'l');
    reveal_strlit("closed");
    assert("closed"@.len() == 6 && "closed"@[0] == 'c');
    reveal_strlit("tcp");
    assert("tcp"@.len() == 3 && "tcp"@[0] == 't');
    reveal_strlit("udp");
    assert("udp"@.len() == 3 && "udp"@[0] == 'u');
    reveal_strlit("reachable");
    assert("reachable"@.len() == 9 && "reachable"@[0] == 'r');
    reveal_strlit("unreachable");
    assert("unreachable"@.len() == 11 && "unreachable"@[0] == 'u');
    match s {
        ProbeSpec::FileContent { .. } => {
            lemma_lookup_at(f, "path"@, 0);
            lemma_lookup_at(f, "contains"@, 1);
            lemma_lookup_at(f, "regex"@, 2);
        },
        ProbeSpec::FileExists { .. } => {
            lemma_lookup_at(f, "path"@, 0);
            lemma_lookup_at(f, "exists"@, 1);
        },
        ProbeSpec::Service { .. } => {
            lemma_lookup_at(f, "service"@, 0);
            lemma_lookup_at(f, "state"@, 1);
        },
        ProbeSpec::Port { .. } => {
            lemma_lookup_at(f, "port"@, 0);
            lemma_lookup_at(f, "state"@, 1);
            lemma_lookup_at(f, "protocol"@, 2);
        },
        ProbeSpec::Command { .. } => {
            lemma_lookup_at(f, "cmd"@, 0);
            lemma_lookup_at(f, "exit_code"@, 1);
            lemma_lookup_at(f, "stdout_contains"@, 2);
        },
        ProbeSpec::Http { .. } => {
            lemma_lookup_at(f, "url"@, 0);
            lemma_lookup_at(f, "status"@, 1);
            lemma_lookup_at(f, "body_contains"@, 2);
        },
        ProbeSpec::K8sNodesReady { .. } => {
            lemma_lookup_at(f, "expected_ready"@, 0);
            lemma_lookup_at(f, "kubeconfig"@, 1);
            lemma_lookup_at(f, "context"@, 2);
        },
        ProbeSpec::K8sEndpointsNonEmpty { .. } => {
            lemma_lookup_at(f, "namespace"@, 0);
            lemma_lookup_at(f, "name"@, 1);
            lemma_lookup_at(f, "kubeconfig"@, 2);
            lemma_lookup_at(f, "context"@, 3);
        },
        ProbeSpec::TcpPing { .. } => {
            lemma_lookup_at(f, "host"@, 0);
            lemma_lookup_at(f, "port"@, 1);
            lemma_lookup_at(f, "timeout_ms"@, 2);
            lemma_lookup_at(f, "state"@, 3);
        },
    }
}

} // verus!
