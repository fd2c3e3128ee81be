use intar::{
    first_response, greeting_step, job_outcome, job_poll, plan_probe_checks, qmp_command_line,
    response_step, snapshot_arguments, snapshot_job_id, state_after_checks, verify_checksum,
    ChecksumCheck, CheckOutcome, FieldValue, GreetingStep, ImageCache, ImageSource, ImageSpec,
    JobError, JobInfo, JobPoll, ProbeBook, ProbeDefinition, ProbePhase, ProbeResult, ProbeSpec,
    PortState, Protocol, QmpKeys, ReachabilityState, ResponseStep, RoundStep, Scenario,
    ScenarioState, ServiceState, SnapshotKind, SnapshotRound, VmDefinition, VmError, VmState,
    is_placeholder, parse_systemctl_action, run_name_from, SystemctlAction, CoreError,
};

const EVENT: QmpKeys = QmpKeys { has_qmp: false, has_event: true, has_return: false, has_error: false };
const RETURN: QmpKeys = QmpKeys { has_qmp: false, has_event: false, has_return: true, has_error: false };
const GREETING: QmpKeys = QmpKeys { has_qmp: true, has_event: false, has_return: false, has_error: false };

#[test]
fn events_are_skipped_while_waiting() {
    assert_eq!(greeting_step(EVENT), GreetingStep::SkipEvent);
    assert_eq!(greeting_step(GREETING), GreetingStep::Greeting);
    assert_eq!(greeting_step(RETURN), GreetingStep::Unexpected);
    assert_eq!(response_step(EVENT), ResponseStep::Skip);
    assert_eq!(first_response(&vec![EVENT, EVENT, RETURN, EVENT]), Some(2));
    assert_eq!(first_response(&vec![EVENT]), None);
    let odd = QmpKeys { has_qmp: false, has_event: true, has_return: true, has_error: false };
    assert_eq!(response_step(odd), ResponseStep::Skip);
}

#[test]
fn qmp_lines() {
    assert_eq!(qmp_command_line("stop", None).unwrap(), "{\"execute\":\"stop\"}\n");
    let id = snapshot_job_id(SnapshotKind::Save, "web", "t");
    assert_eq!(id, "intar_snapshot_save_web_t");
    let args = snapshot_arguments(&id, "t").unwrap();
    assert_eq!(args, "{\"devices\":[\"intar_disk0\"],\"job-id\":\"intar_snapshot_save_web_t\",\"tag\":\"t\",\"vmstate\":\"intar_disk0\"}");
    assert_eq!(
        qmp_command_line("snapshot-save", Some(&args)).unwrap(),
        format!("{{\"arguments\":{args},\"execute\":\"snapshot-save\"}}\n")
    );
}

#[test]
fn job_polling() {
    let job = |id: &str, status: &str| JobInfo { id: Some(id.into()), status: Some(status.into()), error: JobError::Absent };
    let jobs = vec![job("other", "concluded"), job("mine", "running")];
    assert_eq!(job_poll(&jobs, "mine", 10), JobPoll::Wait);
    assert_eq!(job_poll(&jobs, "mine", 120000), JobPoll::TimedOut);
    let jobs = vec![job("other", "running"), job("mine", "concluded")];
    assert_eq!(job_poll(&jobs, "mine", 10), JobPoll::Concluded(1));
    assert!(job_outcome("mine", &JobError::Absent).is_ok());
    let e = JobError::Described { class: Some("GenericError".into()), desc: "no space".into() };
    assert_eq!(job_outcome("mine", &e), Err(VmError::Qmp("Job 'mine' failed: GenericError: no space".into())));
}

fn run_round(n: usize, fail_snapshot_at: Option<usize>) -> (Vec<String>, Result<(), VmError>) {
    let mut round = SnapshotRound::new(n);
    let mut log = Vec::new();
    loop {
        match round.step() {
            RoundStep::Pause(i) => { log.push(format!("pause {i}")); round.record(Ok(())); }
            RoundStep::Snapshot(i) => {
                log.push(format!("save {i}"));
                if Some(i) == fail_snapshot_at {
                    round.record(Err(VmError::Qmp("boom".into())));
                } else {
                    round.record(Ok(()));
                }
            }
            RoundStep::Resume(i) => { log.push(format!("resume {i}")); round.record(Ok(())); }
            RoundStep::Finish(r) => return (log, r),
        }
    }
}

#[test]
fn checkpoint_pauses_all_then_resumes_all() {
    let (log, r) = run_round(2, None);
    assert!(r.is_ok());
    assert_eq!(log, vec!["pause 0", "pause 1", "save 0", "save 1", "resume 0", "resume 1"]);
}

#[test]
fn failed_save_still_resumes_everyone() {
    let (log, r) = run_round(3, Some(0));
    assert_eq!(r, Err(VmError::Qmp("boom".into())));
    assert_eq!(log, vec!["pause 0", "pause 1", "pause 2", "save 0", "resume 0", "resume 1", "resume 2"]);
}

#[test]
fn zero_vms_round_is_empty() {
    let (log, r) = run_round(0, None);
    assert!(log.is_empty());
    assert!(r.is_ok());
}

fn all_specs() -> Vec<ProbeSpec> {
    vec![
        ProbeSpec::FileContent { path: "/etc/x".into(), contains: Some("a".into()), regex: None },
        ProbeSpec::FileExists { path: "/tmp/marker".into(), exists: true },
        ProbeSpec::Service { service: "nginx".into(), state: ServiceState::Disabled },
        ProbeSpec::Port { port: 80, state: PortState::Listening, protocol: Protocol::Udp },
        ProbeSpec::Command { cmd: "true".into(), exit_code: -3, stdout_contains: None },
        ProbeSpec::Http { url: "http://b".into(), status: 200, body_contains: Some("ok".into()) },
        ProbeSpec::K8sNodesReady { expected_ready: 3, kubeconfig: None, context: Some("c".into()) },
        ProbeSpec::K8sEndpointsNonEmpty { namespace: "d".into(), name: "e".into(), kubeconfig: Some("k".into()), context: None },
        ProbeSpec::TcpPing { host: "b".into(), port: 22, timeout_ms: 2000, state: ReachabilityState::Unreachable },
    ]
}

#[test]
fn probe_field_round_trip() {
    for spec in all_specs() {
        let (tag, fields) = spec.to_fields();
        assert_eq!(ProbeSpec::from_definition(&tag, &fields).unwrap(), spec);
    }
}

#[test]
fn probe_defaults() {
    let f = vec![("port".to_string(), FieldValue::Int(80)), ("state".to_string(), FieldValue::Str("closed".into()))];
    assert_eq!(
        ProbeSpec::from_definition("port", &f).unwrap(),
        ProbeSpec::Port { port: 80, state: PortState::Closed, protocol: Protocol::Tcp }
    );
    let f = vec![("host".to_string(), FieldValue::Str("b".into()))];
    assert_eq!(
        ProbeSpec::from_definition("tcp_ping", &f).unwrap(),
        ProbeSpec::TcpPing { host: "b".into(), port: 1, timeout_ms: 2000, state: ReachabilityState::Reachable }
    );
    let f = vec![("port".to_string(), FieldValue::Int(70000)), ("state".to_string(), FieldValue::Str("closed".into()))];
    assert!(ProbeSpec::from_definition("port", &f).is_err());
    assert!(ProbeSpec::from_definition("nope", &Vec::new()).is_err());
}

fn def(name: &str, phase: ProbePhase, ty: &str, config: Vec<(String, FieldValue)>) -> ProbeDefinition {
    ProbeDefinition { name: name.into(), probe_type: ty.into(), description: None, phase, config }
}

fn vm(name: &str, probes: &[&str]) -> VmDefinition {
    VmDefinition {
        name: name.into(),
        cpu: 1,
        memory: 512,
        disk: 10,
        image: "base".into(),
        cloud_init: None,
        steps: Vec::new(),
        probes: probes.iter().map(|p| p.to_string()).collect(),
    }
}

#[test]
fn two_vm_lan_ping_completes_after_one_tick() {
    let reach = def("reach-b", ProbePhase::Scenario, "tcp_ping", vec![
        ("host".into(), FieldValue::Str("b".into())),
        ("port".into(), FieldValue::Int(22)),
    ]);
    let scenario = Scenario {
        name: "lan".into(),
        description: String::new(),
        images: vec![ImageSpec { name: "base".into(), sources: Vec::new() }],
        probes: vec![reach],
        vms: vec![vm("a", &["reach-b"]), vm("b", &[])],
    };
    assert!(scenario.validate().is_ok());
    let names = vec!["a".to_string(), "b".to_string()];
    let mut book = ProbeBook::new(&names);
    let boot = plan_probe_checks(&scenario.probes, &scenario.vms[0].probes, ProbePhase::Boot);
    assert!(boot.requests.is_empty() && boot.failures.is_empty());
    assert!(book.all_passing(&scenario, ProbePhase::Boot));
    assert!(!book.all_passing(&scenario, ProbePhase::Scenario));
    let plan = plan_probe_checks(&scenario.probes, &scenario.vms[0].probes, ProbePhase::Scenario);
    assert_eq!(plan.requests.len(), 1);
    assert_eq!(plan.requests[0].1, ProbeSpec::TcpPing { host: "b".into(), port: 22, timeout_ms: 2000, state: ReachabilityState::Reachable });
    book.record_check(0, plan, CheckOutcome::Results(vec![ProbeResult::pass("reach-b".into(), "ok".into())]));
    let all = book.all_passing(&scenario, ProbePhase::Scenario);
    assert!(all);
    assert_eq!(state_after_checks(ScenarioState::Running, ProbePhase::Scenario, all), ScenarioState::Completed);
    book.clear();
    assert!(!book.all_passing(&scenario, ProbePhase::Scenario));
}

#[test]
fn failed_checks_are_recorded() {
    let scenario = Scenario {
        name: "s".into(),
        description: String::new(),
        images: Vec::new(),
        probes: vec![
            def("ok", ProbePhase::Scenario, "file_exists", vec![
                ("path".into(), FieldValue::Str("/x".into())),
                ("exists".into(), FieldValue::Bool(true)),
            ]),
            def("bad", ProbePhase::Scenario, "file_exists", Vec::new()),
        ],
        vms: vec![vm("a", &["ok", "bad", "ghost"])],
    };
    assert_eq!(scenario.validate(), Err(CoreError::ImageNotFound("base".into())));
    let plan = plan_probe_checks(&scenario.probes, &scenario.vms[0].probes, ProbePhase::Scenario);
    assert_eq!(plan.requests.len(), 1);
    let ids: Vec<&str> = plan.failures.iter().map(|f| f.id.as_str()).collect();
    assert_eq!(ids, vec!["bad", "ghost"]);
    assert_eq!(plan.failures[1].message, "Probe 'ghost' not defined in scenario");
    let mut book = ProbeBook::new(&vec!["a".to_string()]);
    book.record_check(0, plan, CheckOutcome::Failed("refused".into()));
    let r = &book.entries[0].results;
    assert_eq!(r.len(), 3);
    assert!(r.iter().any(|x| x.id == "ok" && !x.passed && x.message == "Failed to check probes via agent: refused"));
}

#[test]
fn checksum_and_cache_names() {
    let data = b"abc";
    let good = "sha256:ba7816bf8f01cfea414140de5dae2223b00361a396177a9cb410ff61f20015ad";
    assert_eq!(verify_checksum(data, good), Ok(ChecksumCheck::Verified));
    assert_eq!(verify_checksum(data, "md5:00"), Ok(ChecksumCheck::UnknownFormat));
    match verify_checksum(data, "sha256:00") {
        Err(VmError::CloudInit(m)) => assert!(m.starts_with("Checksum mismatch: expected 00, got ba7816bf")),
        other => panic!("unexpected {other:?}"),
    }
    let name = ImageCache::cache_filename("https://x/y/noble.img.qcow2", "amd64");
    assert!(name.starts_with("noble-amd64-"));
    assert!(name.ends_with(".img"));
    assert_eq!(name.len(), "noble-amd64-".len() + 16 + 4);
    let cache = ImageCache::new("/c".into());
    let src = ImageSource { arch: "amd64".into(), url: "https://x/y/noble.img".into(), checksum: String::new() };
    assert!(cache.cached_path(&src).starts_with("/c/noble-amd64-"));
}

#[test]
fn image_sources_by_arch() {
    let spec = ImageSpec {
        name: "base".into(),
        sources: vec![
            ImageSource { arch: "arm64".into(), url: "a".into(), checksum: "c".into() },
            ImageSource { arch: "amd64".into(), url: "b".into(), checksum: "c".into() },
        ],
    };
    assert_eq!(spec.source_for_arch("x86_64").unwrap().url, "b");
    assert_eq!(spec.source_for_arch("aarch64").unwrap().url, "a");
    assert!(spec.source_for_arch("riscv64").is_none());
}

#[test]
fn small_helpers() {
    assert!(is_placeholder(b"PLACEHOLDER_AGENT_BINARY"));
    assert!(!is_placeholder(b"\x7fELF"));
    assert_eq!(parse_systemctl_action("enable_now"), Ok(SystemctlAction::EnableNow));
    assert!(matches!(parse_systemctl_action("kill"), Err(CoreError::InvalidScenario(_))));
    assert_eq!(run_name_from(Some("brave-otter".into()), 1234, 9), "brave-otter-1234");
    assert_eq!(run_name_from(None, 1234, 9), "run-9");
    assert_eq!(VmState::CloudInit.step(), (3, 4));
    assert_eq!(VmState::CloudInit.label(), "Cloud-init");
    assert_eq!(VmState::Error.step(), (0, 4));
}

#[test]
fn failed_pause_never_snapshots() {
    let mut round = SnapshotRound::new(2);
    let mut log = Vec::new();
    let result = loop {
        match round.step() {
            RoundStep::Pause(i) => {
                log.push(format!("pause {i}"));
                round.record(if i == 1 { Err(VmError::Qmp("stop failed".into())) } else { Ok(()) });
            }
            RoundStep::Snapshot(i) => { log.push(format!("save {i}")); round.record(Ok(())); }
            RoundStep::Resume(i) => { log.push(format!("resume {i}")); round.record(Ok(())); }
            RoundStep::Finish(r) => break r,
        }
    };
    assert_eq!(result, Err(VmError::Qmp("stop failed".into())));
    assert_eq!(log, vec!["pause 0", "pause 1", "resume 0", "resume 1"]);
}

#[test]
fn agent_results_are_recorded_as_given() {
    let mut book = ProbeBook::new(&vec!["a".to_string()]);
    book.record(0, ProbeResult::fail("p".into(), "old".into()));
    let plan = intar::ProbePlan { requests: Vec::new(), failures: Vec::new() };
    book.record_check(0, plan, CheckOutcome::Results(vec![ProbeResult::pass("p".into(), "fresh".into())]));
    assert_eq!(book.entries[0].results, vec![ProbeResult::pass("p".into(), "fresh".into())]);
}
