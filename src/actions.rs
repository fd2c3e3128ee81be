//! Interpretation of the guest's action-event stream: session boundaries,
//! asciicast recording directives and the derived input/output lines.
use vstd::prelude::*;
use crate::line_capture::{capture_bytes, strings_view, trim, prompt_like, LineCapture};

verus! {

/// One event of the guest's action stream.
#[derive(Debug, Clone, PartialEq, Eq)]
pub enum ActionEvent {
    SshCastStart { ts_unix_ms: u64, width: u16, height: u16 },
    SshSessionStart { ts_unix_ms: u64, user: String, kind: SshSessionKind },
    SshRawInput { ts_unix_ms: u64, data_b64: String },
    SshRawOutput { ts_unix_ms: u64, data_b64: String },
    SshLine { ts_unix_ms: u64, line: String },
    SshOutput { ts_unix_ms: u64, line: String },
    SshSessionEnd { ts_unix_ms: u64, exit_code: i32 },
    Error { ts_unix_ms: u64, message: String },
}

#[derive(Debug, Clone, Copy, PartialEq, Eq, Structural)]
pub enum SshSessionKind {
    Interactive,
    Command,
}

#[derive(Debug, Clone, Copy, PartialEq, Eq, Structural)]
pub enum ActionLineKind {
    Input,
    Output,
}

/// A line typed into or printed by a recorded session. `received_at_ms` is
/// the host's receive time in milliseconds.
#[derive(Debug, Clone, PartialEq, Eq)]
pub struct ActionLineEvent {
    pub vm: String,
    pub received_at_ms: u64,
    pub line: String,
    pub kind: ActionLineKind,
}

/// What the recorder must do for an event.
#[derive(Debug, Clone, PartialEq, Eq)]
pub enum RecorderAction {
    /// Close any open cast file and begin `ssh-session-<ts>.cast`.
    StartCast { ts_unix_ms: u64, width: u16, height: u16 },
    /// Append an event to the open cast file, if there is one.
    CastEvent { ts_unix_ms: u64, kind: ActionLineKind, text: String },
    /// Flush and close the open cast file, if there is one.
    FinishCast,
    /// Report a derived line.
    Line(ActionLineEvent),
}

/// The bytes that standard base64 (with padding) decodes `s` to, or `None`
/// when `s` is not valid base64.
pub uninterp spec fn base64_decoded(s: Seq<char>) -> Option<Seq<u8>>;

/// The text of `b` with each invalid UTF-8 sequence replaced by U+FFFD.
pub uninterp spec fn utf8_lossy(b: Seq<u8>) -> Seq<char>;

/// Relies on base64's `STANDARD` engine `decode`: the decoded bytes, or an
/// error for input that is not padded standard base64.
#[verifier::external_body]
fn decode_base64(s: &str) -> (r: Option<Vec<u8>>)
    ensures
        match base64_decoded(s@) {
            Some(b) => r matches Some(v) && v@ == b,
            None => r is None,
        },
{
    base64::Engine::decode(&base64::engine::general_purpose::STANDARD, s).ok()
}

/// Relies on `String::from_utf8_lossy`: the text of the bytes, invalid
/// sequences replaced.
#[verifier::external_body]
fn text_of_bytes(b: &[u8]) -> (r: String)
    ensures
        r@ == utf8_lossy(b@),
{
    String::from_utf8_lossy(b).into_owned()
}

pub open spec fn same_capture(a: LineCapture, b: LineCapture) -> bool {
    &&& a.input_line@ == b.input_line@
    &&& a.output_line@ == b.output_line@
    &&& a.input_escape == b.input_escape
    &&& a.output_escape == b.output_escape
    &&& a.prefer_raw == b.prefer_raw
}

pub open spec fn line_event_is(
    a: RecorderAction,
    vm: Seq<char>,
    at: u64,
    line: Seq<char>,
    kind: ActionLineKind,
) -> bool {
    a matches RecorderAction::Line(e) && e.vm@ == vm && e.received_at_ms == at && e.line@ == line
        && e.kind == kind
}

/// `actions` from `start` on report `lines`, in order.
pub open spec fn reports_lines(
    actions: Seq<RecorderAction>,
    start: int,
    vm: Seq<char>,
    at: u64,
    lines: Seq<Seq<char>>,
    kind: ActionLineKind,
) -> bool {
    actions.len() == start + lines.len() && forall|k: int|
        0 <= k < lines.len() ==> line_event_is(#[trigger] actions[start + k], vm, at, lines[k], kind)
}

fn push_lines(
    out: &mut Vec<RecorderAction>,
    lines: Vec<String>,
    vm: &str,
    at: u64,
    kind: ActionLineKind,
)
    ensures
        final(out)@.subrange(0, old(out)@.len() as int) == old(out)@,
        reports_lines(final(out)@, old(out)@.len() as int, vm@, at, strings_view(lines@), kind),
{
    let start = out.len();
    let mut i: usize = 0;
    while i < lines.len()
        invariant
            start == old(out)@.len(),
            i <= lines@.len(),
            out@.len() == start + i,
            out@.subrange(0, start as int) == old(out)@,
            forall|k: int|
                0 <= k < i ==> line_event_is(
                    #[trigger] out@[start + k],
                    vm@,
                    at,
                    lines@[k]@,
                    kind,
                ),
        decreases lines@.len() - i,
    {
        let ev = ActionLineEvent {
            vm: String::from_str(vm),
            received_at_ms: at,
            line: lines[i].clone(),
            kind,
        };
        out.push(RecorderAction::Line(ev));
        assert(out@.subrange(0, start as int) =~= old(out)@);
        i += 1;
    }
}

/// Per-connection state of the action-stream recorder.
#[derive(Debug, Clone)]
pub struct ActionRecorder {
    pub capture: LineCapture,
}

impl ActionRecorder {
    pub fn new() -> (r: Self)
        ensures
            r.capture.input_line@.len() == 0 && r.capture.output_line@.len() == 0,
            !r.capture.input_escape && !r.capture.output_escape && !r.capture.prefer_raw,
    {
        ActionRecorder { capture: LineCapture::new() }
    }

    /// Interpret one event of the VM `vm`, received at `received_at_ms`.
    ///
    /// Raw input and output are decoded, recorded to the cast and turned into
    /// lines; ready-made lines are reported only while no raw stream was seen;
    /// the end of a session flushes the residual output line and closes the
    /// cast; errors are ignored.
    pub fn handle(&mut self, event: &ActionEvent, vm: &str, received_at_ms: u64) -> (r: Vec<
        RecorderAction,
    >)
        ensures
            match *event {
                ActionEvent::SshCastStart { ts_unix_ms, width, height } => {
                    &&& r@ == seq![RecorderAction::StartCast { ts_unix_ms, width, height }]
                    &&& final(self).capture.prefer_raw
                    &&& final(self).capture.input_line@.len() == 0
                    &&& final(self).capture.output_line@.len() == 0
                    &&& !final(self).capture.input_escape && !final(self).capture.output_escape
                },
                ActionEvent::SshSessionStart { .. } => {
                    &&& r@.len() == 0
                    &&& final(self).capture.prefer_raw == old(self).capture.prefer_raw
                    &&& final(self).capture.input_line@.len() == 0
                    &&& final(self).capture.output_line@.len() == 0
                    &&& !final(self).capture.input_escape && !final(self).capture.output_escape
                },
                ActionEvent::SshRawInput { ts_unix_ms, data_b64 } => {
                    &&& final(self).capture.prefer_raw
                    &&& match base64_decoded(data_b64@) {
                        None => r@.len() == 0 && final(self).capture.input_line
                            == old(self).capture.input_line,
                        Some(bytes) => {
                            let (st, lines) = capture_bytes(
                                (old(self).capture.input_line@, old(self).capture.input_escape),
                                bytes,
                                false,
                            );
                            &&& st == (final(self).capture.input_line@, final(self).capture.input_escape)
                            &&& r@.len() >= 1
                            &&& r@[0] matches RecorderAction::CastEvent { ts_unix_ms: t, kind, text }
                                && t == ts_unix_ms && kind == ActionLineKind::Input && text@
                                == utf8_lossy(bytes)
                            &&& reports_lines(r@, 1, vm@, received_at_ms, lines, ActionLineKind::Input)
                        },
                    }
                    &&& final(self).capture.output_line == old(self).capture.output_line
                },
                ActionEvent::SshRawOutput { ts_unix_ms, data_b64 } => {
                    &&& final(self).capture.prefer_raw
                    &&& match base64_decoded(data_b64@) {
                        None => r@.len() == 0 && final(self).capture.output_line
                            == old(self).capture.output_line,
                        Some(bytes) => {
                            let (st, lines) = capture_bytes(
                                (old(self).capture.output_line@, old(self).capture.output_escape),
                                bytes,
                                true,
                            );
                            &&& st == (final(self).capture.output_line@, final(self).capture.output_escape)
                            &&& r@.len() >= 1
                            &&& r@[0] matches RecorderAction::CastEvent { ts_unix_ms: t, kind, text }
                                && t == ts_unix_ms && kind == ActionLineKind::Output && text@
                                == utf8_lossy(bytes)
                            &&& reports_lines(r@, 1, vm@, received_at_ms, lines, ActionLineKind::Output)
                        },
                    }
                    &&& final(self).capture.input_line == old(self).capture.input_line
                },
                ActionEvent::SshLine { line, .. } => {
                    &&& same_capture(final(self).capture, old(self).capture)
                    &&& if old(self).capture.prefer_raw {
                        r@.len() == 0
                    } else {
                        r@.len() == 1 && line_event_is(
                            r@[0],
                            vm@,
                            received_at_ms,
                            line@,
                            ActionLineKind::Input,
                        )
                    }
                },
                ActionEvent::SshOutput { line, .. } => {
                    &&& same_capture(final(self).capture, old(self).capture)
                    &&& if old(self).capture.prefer_raw {
                        r@.len() == 0
                    } else {
                        r@.len() == 1 && line_event_is(
                            r@[0],
                            vm@,
                            received_at_ms,
                            line@,
                            ActionLineKind::Output,
                        )
                    }
                },
                ActionEvent::SshSessionEnd { .. } => {
                    let t = trim(old(self).capture.output_line@);
                    &&& final(self).capture.output_line@.len() == 0
                    &&& final(self).capture.input_line == old(self).capture.input_line
                    &&& final(self).capture.prefer_raw == old(self).capture.prefer_raw
                    &&& if t.len() > 0 && !prompt_like(t) {
                        r@.len() == 2 && line_event_is(
                            r@[0],
                            vm@,
                            received_at_ms,
                            t,
                            ActionLineKind::Output,
                        ) && r@[1] == RecorderAction::FinishCast
                    } else {
                        r@ == seq![RecorderAction::FinishCast]
                    }
                },
                ActionEvent::Error { .. } => r@.len() == 0 && same_capture(
                    final(self).capture,
                    old(self).capture,
                ),
            },
    {
        let mut out: Vec<RecorderAction> = Vec::new();
        match event {
            ActionEvent::SshCastStart { ts_unix_ms, width, height } => {
                self.capture.reset_buffers();
                self.capture.note_raw();
                out.push(
                    RecorderAction::StartCast {
                        ts_unix_ms: *ts_unix_ms,
                        width: *width,
                        height: *height,
                    },
                );
                assert(out@ =~= seq![
                    RecorderAction::StartCast {
                        ts_unix_ms: *ts_unix_ms,
                        width: *width,
                        height: *height,
                    },
                ]);
            },
            ActionEvent::SshSessionStart { .. } => {
                self.capture.reset_buffers();
            },
            ActionEvent::SshRawInput { ts_unix_ms, data_b64 } => {
                self.capture.note_raw();
                match decode_base64(data_b64.as_str()) {
                    Some(bytes) => {
                        let text = text_of_bytes(bytes.as_slice());
                        out.push(
                            RecorderAction::CastEvent {
                                ts_unix_ms: *ts_unix_ms,
                                kind: ActionLineKind::Input,
                                text,
                            },
                        );
                        let ghost first = out@[0];
                        let lines = self.capture.feed_input(bytes.as_slice());
                        push_lines(&mut out, lines, vm, received_at_ms, ActionLineKind::Input);
                        assert(out@.subrange(0, 1)[0] == out@[0]);
                        assert(out@[0] == first);
                    },
                    None => {},
                }
            },
            ActionEvent::SshRawOutput { ts_unix_ms, data_b64 } => {
                self.capture.note_raw();
                match decode_base64(data_b64.as_str()) {
                    Some(bytes) => {
                        let text = text_of_bytes(bytes.as_slice());
                        out.push(
                            RecorderAction::CastEvent {
                                ts_unix_ms: *ts_unix_ms,
                                kind: ActionLineKind::Output,
                                text,
                            },
                        );
                        let ghost first = out@[0];
                        let lines = self.capture.feed_output(bytes.as_slice());
                        push_lines(&mut out, lines, vm, received_at_ms, ActionLineKind::Output);
                        assert(out@.subrange(0, 1)[0] == out@[0]);
                        assert(out@[0] == first);
                    },
                    None => {},
                }
            },
            ActionEvent::SshLine { line, .. } => {
                if !self.capture.prefer_raw {
                    out.push(
                        RecorderAction::Line(
                            ActionLineEvent {
                                vm: String::from_str(vm),
                                received_at_ms,
                                line: line.clone(),
                                kind: ActionLineKind::Input,
                            },
                        ),
                    );
                }
            },
            ActionEvent::SshOutput { line, .. } => {
                if !self.capture.prefer_raw {
                    out.push(
                        RecorderAction::Line(
                            ActionLineEvent {
                                vm: String::from_str(vm),
                                received_at_ms,
                                line: line.clone(),
                                kind: ActionLineKind::Output,
                            },
                        ),
                    );
                }
            },
            ActionEvent::SshSessionEnd { .. } => {
                match self.capture.flush_output() {
                    Some(l) => {
                        out.push(
                            RecorderAction::Line(
                                ActionLineEvent {
                                    vm: String::from_str(vm),
                                    received_at_ms,
                                    line: l,
                                    kind: ActionLineKind::Output,
                                },
                            ),
                        );
                    },
                    None => {},
                }
                out.push(RecorderAction::FinishCast);
                assert(out@.len() == 1 ==> out@ =~= seq![RecorderAction::FinishCast]);
            },
            ActionEvent::Error { .. } => {},
        }
        out
    }
}

} // verus!
