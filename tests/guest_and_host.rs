use intar::{
    classify_port_error, classify_reachability_error, combine_attempts, command_verdict,
    decide_response, evaluate_probe, file_content_verdict, file_exists_verdict, http_verdict,
    overlay_args, port_verdict, reachability_verdict, retry_after, service_verdict, ssh_command,
    vm_paths, Accel, Attempt, ExpectedResponse, HostSocket, PortState, QemuLaunch,
    ReachabilityState, Response, ResponseDecision, RunLedger, ServiceState,
    SharedNetworkEndpoint, SocketErrorKind, VmError,
};

#[test]
fn file_content_checks() {
    assert_eq!(
        file_content_verdict("/etc/x", "hello\nworld\n", Some("world"), Some("^hel+o")),
        Ok("File '/etc/x' content matches criteria".to_string())
    );
    assert_eq!(
        file_content_verdict("/etc/x", "hello", Some("bye"), None),
        Err("File '/etc/x' does not contain 'bye'".to_string())
    );
    assert_eq!(
        file_content_verdict("/etc/x", "hello", None, Some("^z")),
        Err("File '/etc/x' does not match regex '^z'".to_string())
    );
    let bad = file_content_verdict("/etc/x", "hello", None, Some("("));
    assert!(bad.unwrap_err().starts_with("Invalid regex '(': "));
}

#[test]
fn other_verdicts() {
    assert_eq!(file_exists_verdict("/a", false, true), Err("File '/a' does not exist".into()));
    assert_eq!(file_exists_verdict("/a", true, false), Err("File '/a' exists but should not".into()));
    assert_eq!(service_verdict("nginx", ServiceState::Running, true, "active"), Ok("Service 'nginx' is active".into()));
    assert_eq!(
        service_verdict("nginx", ServiceState::Stopped, true, "active"),
        Err("Service 'nginx' is running but should be stopped".into())
    );
    assert_eq!(port_verdict(80, PortState::Closed, true), Err("Port 80 is listening but should be closed".into()));
    assert_eq!(command_verdict(-1, 0, "", None), Err("Command exited with code -1 (expected 0)".into()));
    assert_eq!(command_verdict(0, 0, "ok\n", Some("ok")), Ok("Command succeeded with exit code 0".into()));
    assert_eq!(http_verdict("http://x", 200, 200, "body", Some("od")), Ok("HTTP http://x returned status 200".into()));
    assert_eq!(http_verdict("http://x", 404, 200, "", None), Err("HTTP status 404 (expected 200)".into()));
    assert_eq!(reachability_verdict("b", ReachabilityState::Reachable, true), Ok("b is reachable".into()));
    let r = evaluate_probe("p1", Err("nope".into()));
    assert_eq!((r.id.as_str(), r.passed, r.message.as_str()), ("p1", false, "nope"));
}

#[test]
fn socket_error_classes() {
    assert_eq!(classify_port_error(SocketErrorKind::AddrInUse), Some(Attempt::Answered));
    assert_eq!(classify_port_error(SocketErrorKind::ConnectionRefused), Some(Attempt::Silent));
    assert_eq!(classify_port_error(SocketErrorKind::Other), None);
    assert_eq!(classify_reachability_error(SocketErrorKind::ConnectionRefused), Some(Attempt::Answered));
    assert_eq!(classify_reachability_error(SocketErrorKind::HostUnreachable), Some(Attempt::Silent));
    assert_eq!(combine_attempts(&vec![Attempt::Silent, Attempt::Answered]), Some(true));
    assert_eq!(combine_attempts(&vec![Attempt::Unavailable, Attempt::Silent]), Some(false));
    assert_eq!(combine_attempts(&vec![Attempt::Unavailable]), None);
}

#[test]
fn agent_responses() {
    match decide_response(ExpectedResponse::Pong, Response::Error { message: "bad".into() }) {
        ResponseDecision::Failed(VmError::Serial(m)) => assert_eq!(m, "bad"),
        other => panic!("unexpected {other:?}"),
    }
    assert!(matches!(
        decide_response(ExpectedResponse::Pong, Response::AllResults { results: Vec::new() }),
        ResponseDecision::Skip
    ));
    assert!(matches!(
        decide_response(ExpectedResponse::Pong, Response::Pong { uptime_secs: 3 }),
        ResponseDecision::Done(Response::Pong { uptime_secs: 3 })
    ));
    assert!(retry_after(58, 60));
    assert!(!retry_after(59, 60));
}

fn launch(shared: Option<SharedNetworkEndpoint>) -> QemuLaunch {
    QemuLaunch {
        name: "web".into(),
        arch: "x86_64".into(),
        firmware: None,
        memory_mb: 1024,
        cpus: 2,
        disk_path: "/r/web.qcow2".into(),
        cloud_init_iso: "/r/web-cloud-init.iso".into(),
        rng: true,
        ssh_port: 2222,
        mgmt_ip: "10.0.2.100".into(),
        primary_mac: Some("52:54:00:12:56:10".into()),
        shared_lan: shared,
        lan_mac: Some("52:54:00:12:57:40".into()),
        serial_socket: HostSocket::Unix("/r/web-serial.sock".into()),
        actions_socket: HostSocket::Unix("/r/web-actions.sock".into()),
        console_log: "/r/logs/web/console.log".into(),
        qmp_socket: HostSocket::Tcp(4444),
        accel: Accel::Kvm,
    }
}

#[test]
fn qemu_command_line() {
    let args = launch(None).args();
    let has = |s: &str| args.iter().any(|a| a == s);
    assert_eq!(&args[0..6], &["-name", "web", "-machine", "q35", "-cpu", "host"]);
    assert!(has("1024M"));
    assert!(has("file=/r/web.qcow2,format=qcow2,if=virtio,node-name=intar_disk0"));
    assert!(has("socket,id=agent,path=/r/web-serial.sock,server=on,wait=off"));
    assert!(has("tcp:127.0.0.1:4444,server,nowait"));
    assert_eq!(args.last().unwrap(), "-enable-kvm");
    assert_eq!(args.iter().filter(|a| a.as_str() == "-netdev").count(), 1);
    let lan = launch(Some(SharedNetworkEndpoint::Dgram { hub_port: 1, local_port: 2 })).args();
    assert_eq!(lan.iter().filter(|a| a.as_str() == "-netdev").count(), 2);
}

#[test]
fn paths_and_commands() {
    let p = vm_paths("/runs/x", "web");
    assert_eq!(p.qmp_socket, "/runs/x/web-qmp.sock");
    assert_eq!(p.pid_file, "/runs/x/web-qemu.pid");
    assert_eq!(p.logs_dir, "/runs/x/logs/web");
    assert_eq!(ssh_command("/runs/x/", 2222), "ssh -i /runs/x/id_ed25519 -p 2222 -o StrictHostKeyChecking=no user@localhost");
    assert_eq!(overlay_args("/b.img", "/d.qcow2", 20), vec!["create", "-f", "qcow2", "-b", "/b.img", "-F", "qcow2", "/d.qcow2", "20G"]);
}

#[test]
fn run_ledger_counts() {
    for n in [0usize, 1, 2, 3] {
        let mut l = RunLedger::new(n, 7000);
        for i in 0..n {
            l.vm_created(format!("vm{i}"));
        }
        let switch = l.start();
        assert_eq!((l.overlays, l.seed_isos, l.processes), (n, n, n));
        assert_eq!(switch, n >= 2);
        l.stop();
        assert_eq!((l.overlays, l.seed_isos, l.processes, l.switch_running), (0, 0, 0, false));
    }
}

#[test]
fn agent_timeout_names_the_vm() {
    match intar::agent_timeout("web") {
        VmError::Timeout(m) => assert_eq!(m, "Agent timeout on web"),
        other => panic!("unexpected {other:?}"),
    }
    assert!(intar::AGENT_WAIT_ATTEMPTS as u64 * intar::AGENT_RETRY_SECS <= intar::AGENT_READY_TIMEOUT_SECS);
}

#[test]
fn kubernetes_verdicts() {
    let conds = vec![("MemoryPressure".to_string(), "False".to_string()), ("Ready".to_string(), "True".to_string())];
    assert!(intar::node_is_ready(&conds));
    assert!(!intar::node_is_ready(&vec![("Ready".to_string(), "False".to_string())]));
    assert_eq!(intar::nodes_ready_verdict(3, 3), Ok("3/3 nodes are Ready".to_string()));
    assert_eq!(intar::nodes_ready_verdict(1, 3), Err("Only 1/3 nodes are Ready".to_string()));
    assert!(intar::endpoints_have_addresses(&vec![(0, 0), (0, 2)]));
    assert!(!intar::endpoints_have_addresses(&vec![(0, 0)]));
    assert_eq!(intar::endpoints_verdict("default", "echo-svc", true, 0), Ok("Service 'default/echo-svc' has endpoints (Endpoints)".to_string()));
    assert_eq!(
        intar::endpoints_verdict("default", "echo-svc", false, 2),
        Ok("Service 'default/echo-svc' has endpoints (EndpointSlices: 2 addresses)".to_string())
    );
    assert_eq!(intar::endpoints_verdict("d", "e", false, 0), Err("Service 'd/e' has no endpoints".to_string()));
}

#[test]
fn regex_is_multi_line() {
    assert!(intar::file_content_verdict("/f", "a\nfoo\nb", None, Some("^foo$")).is_ok());
}

#[test]
fn job_dismiss_and_iso_message() {
    assert_eq!(intar::job_dismiss_arguments("intar_snapshot_save_a_t").unwrap(), "{\"id\":\"intar_snapshot_save_a_t\"}");
    for tool in ["cloud-localds", "mkisofs", "genisoimage", "xorriso", "hdiutil"] {
        assert!(intar::NO_ISO_TOOL_MESSAGE.contains(tool));
    }
}

#[test]
fn readiness_wait_steps() {
    assert_eq!(intar::boot_probe_step(0, 0, false), intar::WaitStep::Done);
    assert_eq!(intar::boot_probe_step(2, 0, true), intar::WaitStep::Done);
    assert_eq!(intar::boot_probe_step(2, 58, false), intar::WaitStep::Retry);
    assert_eq!(intar::boot_probe_step(2, 59, false), intar::WaitStep::TimedOut);
    assert_eq!(intar::agent_wait_step(59, false), intar::WaitStep::TimedOut);
    assert_eq!(intar::agent_wait_step(3, true), intar::WaitStep::Done);
    assert!(matches!(intar::boot_probe_timeout(), VmError::Timeout(m) if m == "Boot probes did not pass in time"));
}

#[test]
fn run_names_are_one_path_component() {
    for _ in 0..20 {
        let n = intar::generate_run_name();
        assert!(!n.is_empty() && n.contains('-') && !n.contains('/'));
    }
    assert_eq!(intar::firmware_candidates().len(), 3);
}
