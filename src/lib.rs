//! Orchestration logic for short-lived multi-VM QEMU labs: step compilation,
//! cloud-init rendering, addressing, the learning switch, QMP framing,
//! coordinated snapshots, action-stream line capture, probe bookkeeping and
//! the guest probe protocol.

mod actions;
mod addressing;
mod agent;
mod agent_client;
mod cloud_init;
mod dirs;
mod error;
mod image_cache;
mod lan_switch;
mod line_capture;
mod network;
mod probe_codec;
mod probe_eval;
mod probes;
mod qemu;
mod qmp;
mod runner;
mod scenario;
mod snapshot;
mod sorted_pairs;
mod state;
mod text;
mod vm_steps;

pub use actions::{
    ActionEvent, ActionLineEvent, ActionLineKind, ActionRecorder, RecorderAction, SshSessionKind,
};
pub use addressing::{
    generate_macs, lan_ip, mgmt_ip, needs_lan_switch, port_count, vm_addresses, PortPool,
    VmAddresses, MAX_VMS,
};
pub use agent::{is_placeholder, PLACEHOLDER_AGENT};
pub use agent_client::{
    agent_timeout, agent_wait_step, boot_probe_step, boot_probe_timeout, decide_response,
    retry_after, ExpectedResponse, ResponseDecision, WaitStep,
    AGENT_READY_TIMEOUT_SECS, AGENT_RESPONSE_TIMEOUT_SECS, AGENT_RETRY_SECS, AGENT_WAIT_ATTEMPTS,
    BOOT_PROBE_ROUNDS,
};
pub use cloud_init::{split_lines, CloudInitGenerator, IsoTool, NO_ISO_TOOL_MESSAGE};
pub use dirs::{generate_run_name, join_path, run_name_from, IntarDirs};
pub use error::VmError;
pub use image_cache::{verify_checksum, ChecksumCheck, ImageCache};
pub use lan_switch::L2Switch;
pub use line_capture::{is_prompt_line, trimmed, LineCapture};
pub use network::{
    add_runner_files, build_cloud_init_config, copy_config, net_setup_script, netplan_config,
    render_hosts_file, NO_IPV6_SYSCTL,
};
pub use probe_codec::FieldValue;
pub use probe_eval::{
    classify_port_error, classify_reachability_error, combine_attempts, command_verdict,
    endpoints_have_addresses, endpoints_verdict, evaluate_probe, file_content_verdict,
    file_exists_verdict, http_verdict, node_is_ready, nodes_ready_verdict, port_verdict,
    reachability_verdict, service_query_is_active, service_verdict, Attempt, SocketErrorKind,
};
pub use probes::{
    default_protocol, default_tcp_ping_port, default_tcp_ping_state, default_tcp_ping_timeout_ms,
    PortState, ProbeResult, ProbeSpec, Protocol, ReachabilityState, Request, Response,
    ServiceState,
};
pub use qemu::{
    firmware_candidates, network_args, overlay_args, qemu_binary_for_arch, ssh_command, vm_paths,
    Accel, HostSocket, QUIT_GRACE_MS, QUIT_POLL_MS,
    QemuLaunch, SharedNetworkEndpoint, VmPaths,
};
pub use qmp::{
    first_response, greeting_step, job_dismiss_arguments, job_outcome, job_poll, qmp_command_line, response_step,
    snapshot_arguments, snapshot_job_id, GreetingStep, JobError, JobInfo, JobPoll, QmpKeys,
    ResponseStep, SnapshotKind, CLOUD_INIT_NODE_NAME, MAIN_DISK_NODE_NAME,
    SNAPSHOT_JOB_POLL_INTERVAL_MS, SNAPSHOT_JOB_TIMEOUT_MS,
};
pub use runner::{
    count_expected, count_passing, plan_probe_checks, state_after_checks, CheckOutcome,
    ProbeBook, ProbePlan, RunLedger, RunState, VmInfo, VmProbeResults,
};
pub use scenario::{
    find_probe, parse_systemctl_action, CloudInitConfig, CoreError, ImageSource, ImageSpec,
    ProbeDefinition, ProbePhase, Scenario, SystemctlAction, VmAction, VmDefinition, VmStep,
    WriteFile,
};
pub use snapshot::{RoundStage, RoundStep, SnapshotRound};
pub use state::{ScenarioState, VmState};
pub use text::{shell_quote, slugify};
pub use vm_steps::{apply_vm_steps_to_cloud_init, is_hidden_step};
