//! Framing decisions of the QEMU Machine Protocol client: which lines are
//! the greeting, events or command responses, the commands it writes, and
//! the polling of long-running snapshot jobs.
use vstd::prelude::*;
use crate::error::VmError;
use crate::text::{json_quote, json_string_literal, push_str, str_eq};

verus! {

/// The top-level keys of one QMP message that the client looks at.
#[derive(Debug, Clone, Copy, PartialEq, Eq, Structural)]
pub struct QmpKeys {
    pub has_qmp: bool,
    pub has_event: bool,
    pub has_return: bool,
    pub has_error: bool,
}

/// What to do with a message while waiting for the greeting.
#[derive(Debug, Clone, Copy, PartialEq, Eq, Structural)]
pub enum GreetingStep {
    Greeting,
    SkipEvent,
    Unexpected,
}

/// What to do with a message while waiting for a command's response.
#[derive(Debug, Clone, Copy, PartialEq, Eq, Structural)]
pub enum ResponseStep {
    Response,
    Skip,
}

pub open spec fn is_response(k: QmpKeys) -> bool {
    !k.has_event && (k.has_return || k.has_error)
}

/// The greeting is the first message holding `QMP`; asynchronous events
/// before it are skipped and anything else is an error.
pub fn greeting_step(k: QmpKeys) -> (r: GreetingStep)
    ensures
        k.has_qmp ==> r == GreetingStep::Greeting,
        !k.has_qmp && k.has_event ==> r == GreetingStep::SkipEvent,
        !k.has_qmp && !k.has_event ==> r == GreetingStep::Unexpected,
{
    if k.has_qmp {
        GreetingStep::Greeting
    } else if k.has_event {
        GreetingStep::SkipEvent
    } else {
        GreetingStep::Unexpected
    }
}

/// A message with an `event` key is never a response; one with `return` or
/// `error` is; any other line is skipped.
pub fn response_step(k: QmpKeys) -> (r: ResponseStep)
    ensures
        (r == ResponseStep::Response) == is_response(k),
{
    if k.has_event {
        ResponseStep::Skip
    } else if k.has_return || k.has_error {
        ResponseStep::Response
    } else {
        ResponseStep::Skip
    }
}

/// The position of the response among messages read in order, if any: the
/// first message that is not an event and holds `return` or `error`.
pub fn first_response(messages: &Vec<QmpKeys>) -> (r: Option<usize>)
    ensures
        match r {
            Some(i) => i < messages@.len() && is_response(messages@[i as int]) && forall|j: int|
                0 <= j < i ==> !is_response(#[trigger] messages@[j]),
            None => forall|j: int| 0 <= j < messages@.len() ==> !is_response(#[trigger] messages@[j]),
        },
{
    let mut i: usize = 0;
    while i < messages.len()
        invariant
            i <= messages@.len(),
            forall|j: int| 0 <= j < i ==> !is_response(#[trigger] messages@[j]),
        decreases messages@.len() - i,
    {
        if response_step(messages[i]) == ResponseStep::Response {
            return Some(i);
        }
        i += 1;
    }
    None
}

/// An event is never taken for the response of a command, whatever was read
/// around it.
pub proof fn events_are_never_responses(messages: Seq<QmpKeys>, i: int)
    requires
        0 <= i < messages.len(),
        messages[i].has_event,
    ensures
        !is_response(messages[i]),
{
}

/// The line that sends `command`, with `arguments` given as JSON text.
pub open spec fn command_line(command: Seq<char>, arguments: Option<Seq<char>>) -> Seq<char> {
    match arguments {
        Some(a) => "{\"arguments\":"@ + a + ",\"execute\":"@ + json_string_literal(command) + "}\n"@,
        None => "{\"execute\":"@ + json_string_literal(command) + "}\n"@,
    }
}

/// The newline-terminated request that runs `command`.
pub fn qmp_command_line(command: &str, arguments: Option<&str>) -> (r: Result<String, VmError>)
    ensures
        r is Ok,
        r matches Ok(s) ==> s@ == command_line(
            command@,
            match arguments {
                Some(a) => Some(a@),
                None => None,
            },
        ),
{
    let cmd = match json_quote(command) {
        Ok(c) => c,
        Err(_) => {
            return Err(VmError::Qmp(String::from_str("failed to encode a QMP command")));
        },
    };
    let mut out = String::new();
    match arguments {
        Some(a) => {
            push_str(&mut out, "{\"arguments\":");
            push_str(&mut out, a);
            push_str(&mut out, ",\"execute\":");
        },
        None => {
            push_str(&mut out, "{\"execute\":");
        },
    }
    push_str(&mut out, cmd.as_str());
    push_str(&mut out, "}\n");
    proof {
        match arguments {
            Some(a) => {
                assert(out@ =~= command_line(command@, Some(a@)));
            },
            None => {
                assert(out@ =~= command_line(command@, None));
            },
        }
    }
    Ok(out)
}

/// Which snapshot job a request starts.
#[derive(Debug, Clone, Copy, PartialEq, Eq, Structural)]
pub enum SnapshotKind {
    Save,
    Load,
}

pub open spec fn snapshot_kind_name(k: SnapshotKind) -> Seq<char> {
    match k {
        SnapshotKind::Save => "save"@,
        SnapshotKind::Load => "load"@,
    }
}

/// `intar_snapshot_{save|load}_<vm>_<tag>`.
pub open spec fn job_id_of(kind: SnapshotKind, vm: Seq<char>, tag: Seq<char>) -> Seq<char> {
    "intar_snapshot_"@ + snapshot_kind_name(kind) + "_"@ + vm + "_"@ + tag
}

/// The client-chosen id of a snapshot job.
pub fn snapshot_job_id(kind: SnapshotKind, vm: &str, tag: &str) -> (r: String)
    ensures
        r@ == job_id_of(kind, vm@, tag@),
{
    let mut out = String::from_str("intar_snapshot_");
    match kind {
        SnapshotKind::Save => push_str(&mut out, "save"),
        SnapshotKind::Load => push_str(&mut out, "load"),
    }
    push_str(&mut out, "_");
    push_str(&mut out, vm);
    push_str(&mut out, "_");
    push_str(&mut out, tag);
    assert(out@ =~= job_id_of(kind, vm@, tag@));
    out
}

/// The block node that holds the guest disk and its snapshots.
pub const MAIN_DISK_NODE_NAME: &'static str = "intar_disk0";

/// The block node of the cloud-init seed medium.
pub const CLOUD_INIT_NODE_NAME: &'static str = "intar_cloud_init0";

/// The arguments of `snapshot-save` and `snapshot-load`: the job id, the tag,
/// and the main disk as both the vmstate holder and the only device.
pub open spec fn snapshot_arguments_text(job_id: Seq<char>, tag: Seq<char>) -> Seq<char> {
    "{\"devices\":[\"intar_disk0\"],\"job-id\":"@ + json_string_literal(job_id) + ",\"tag\":"@
        + json_string_literal(tag) + ",\"vmstate\":\"intar_disk0\"}"@
}

pub fn snapshot_arguments(job_id: &str, tag: &str) -> (r: Result<String, VmError>)
    ensures
        r matches Ok(s) && s@ == snapshot_arguments_text(job_id@, tag@),
{
    let id = match json_quote(job_id) {
        Ok(v) => v,
        Err(_) => {
            return Err(VmError::Qmp(String::from_str("failed to encode a job id")));
        },
    };
    let t = match json_quote(tag) {
        Ok(v) => v,
        Err(_) => {
            return Err(VmError::Qmp(String::from_str("failed to encode a snapshot tag")));
        },
    };
    let mut out = String::from_str("{\"devices\":[\"intar_disk0\"],\"job-id\":");
    push_str(&mut out, id.as_str());
    push_str(&mut out, ",\"tag\":");
    push_str(&mut out, t.as_str());
    push_str(&mut out, ",\"vmstate\":\"intar_disk0\"}");
    assert(out@ =~= snapshot_arguments_text(job_id@, tag@));
    Ok(out)
}

} // verus!

verus! {

/// The `error` member of a job in a `query-jobs` reply.
#[derive(Debug, Clone, PartialEq, Eq)]
pub enum JobError {
    /// Missing or null.
    Absent,
    /// A plain string.
    Text(String),
    /// An object with a string `desc` and, maybe, a string `class`.
    Described { class: Option<String>, desc: String },
    /// Any other value, as its JSON text.
    Other(String),
}

/// One entry of a `query-jobs` reply.
#[derive(Debug, Clone, PartialEq, Eq)]
pub struct JobInfo {
    pub id: Option<String>,
    pub status: Option<String>,
    pub error: JobError,
}

/// What to do after a `query-jobs` reply.
#[derive(Debug, Clone, Copy, PartialEq, Eq, Structural)]
pub enum JobPoll {
    /// The job at this position concluded: dismiss it and report its error.
    Concluded(usize),
    /// Poll again after the interval.
    Wait,
    /// The deadline passed.
    TimedOut,
}

/// Milliseconds between two `query-jobs` polls.
pub const SNAPSHOT_JOB_POLL_INTERVAL_MS: u64 = 50;

/// Milliseconds a snapshot job may take.
pub const SNAPSHOT_JOB_TIMEOUT_MS: u64 = 120000;

pub open spec fn job_matches(j: JobInfo, job_id: Seq<char>) -> bool {
    j.id matches Some(id) && id@ == job_id
}

pub open spec fn job_concluded(j: JobInfo) -> bool {
    j.status matches Some(s) && s@ == "concluded"@
}

/// The first job of the reply with the client's id, if any.
pub open spec fn first_matching(jobs: Seq<JobInfo>, job_id: Seq<char>) -> Option<int>
    decreases jobs.len(),
{
    if jobs.len() == 0 {
        None
    } else {
        match first_matching(jobs.drop_last(), job_id) {
            Some(i) => Some(i),
            None => if job_matches(jobs.last(), job_id) {
                Some(jobs.len() - 1)
            } else {
                None
            },
        }
    }
}

/// The decision after a `query-jobs` reply that arrived `elapsed_ms` after
/// the job started: the first job with the client's id that has concluded
/// ends the wait; otherwise the wait goes on until the timeout.
pub fn job_poll(jobs: &Vec<JobInfo>, job_id: &str, elapsed_ms: u64) -> (r: JobPoll)
    ensures
        match first_matching(jobs@, job_id@) {
            Some(i) if job_concluded(jobs@[i]) => r == JobPoll::Concluded(i as usize),
            _ => r == if elapsed_ms >= SNAPSHOT_JOB_TIMEOUT_MS {
                JobPoll::TimedOut
            } else {
                JobPoll::Wait
            },
        },
{
    let mut i: usize = 0;
    let mut found: Option<usize> = None;
    while i < jobs.len()
        invariant
            i <= jobs@.len(),
            found == match first_matching(jobs@.subrange(0, i as int), job_id@) {
                Some(k) => Some(k as usize),
                None => None::<usize>,
            },
            found matches Some(k) ==> k < i && first_matching(jobs@.subrange(0, i as int), job_id@) == Some(k as int),
        decreases jobs@.len() - i,
    {
        proof {
            let pre = jobs@.subrange(0, i as int + 1);
            assert(pre.drop_last() =~= jobs@.subrange(0, i as int));
            assert(pre.last() == jobs@[i as int]);
        }
        if found.is_none() {
            let m = match &jobs[i].id {
                Some(id) => str_eq(id.as_str(), job_id),
                None => false,
            };
            if m {
                found = Some(i);
            }
        }
        i += 1;
    }
    assert(jobs@.subrange(0, jobs@.len() as int) =~= jobs@);
    match found {
        Some(k) => {
            let concluded = match &jobs[k].status {
                Some(s) => str_eq(s.as_str(), "concluded"),
                None => false,
            };
            if concluded {
                return JobPoll::Concluded(k);
            }
        },
        None => {},
    }
    if elapsed_ms >= SNAPSHOT_JOB_TIMEOUT_MS {
        JobPoll::TimedOut
    } else {
        JobPoll::Wait
    }
}

/// The text that describes a job's error.
pub open spec fn job_error_text(e: JobError) -> Option<Seq<char>> {
    match e {
        JobError::Absent => None,
        JobError::Text(s) => Some(s@),
        JobError::Described { class, desc } => match class {
            Some(c) => Some(c@ + ": "@ + desc@),
            None => Some(desc@),
        },
        JobError::Other(s) => Some(s@),
    }
}

/// The outcome of a concluded job: success when it carries no error, else a
/// QMP error `Job '<id>' failed: <text>`.
pub fn job_outcome(job_id: &str, error: &JobError) -> (r: Result<(), VmError>)
    ensures
        match job_error_text(*error) {
            None => r is Ok,
            Some(t) => r matches Err(VmError::Qmp(m)) && m@ == "Job '"@ + job_id@ + "' failed: "@
                + t,
        },
{
    let mut m = String::from_str("Job '");
    push_str(&mut m, job_id);
    push_str(&mut m, "' failed: ");
    let ghost head = m@;
    match error {
        JobError::Absent => {
            return Ok(());
        },
        JobError::Text(s) => push_str(&mut m, s.as_str()),
        JobError::Described { class, desc } => {
            match class {
                Some(c) => {
                    push_str(&mut m, c.as_str());
                    push_str(&mut m, ": ");
                },
                None => {},
            }
            push_str(&mut m, desc.as_str());
        },
        JobError::Other(s) => push_str(&mut m, s.as_str()),
    }
    assert(m@ =~= "Job '"@ + job_id@ + "' failed: "@ + job_error_text(*error)->Some_0);
    Err(VmError::Qmp(m))
}

} // verus!

verus! {

/// The arguments of `job-dismiss` for the job `job_id`.
pub fn job_dismiss_arguments(job_id: &str) -> (r: Result<String, VmError>)
    ensures
        r is Ok,
        r matches Ok(s) ==> s@ == "{\"id\":"@ + json_string_literal(job_id@) + "}"@,
{
    let id = match json_quote(job_id) {
        Ok(v) => v,
        Err(_) => {
            return Err(VmError::Qmp(String::from_str("failed to encode a job id")));
        },
    };
    let mut out = String::from_str("{\"id\":");
    push_str(&mut out, id.as_str());
    push_str(&mut out, "}");
    Ok(out)
}

} // verus!
