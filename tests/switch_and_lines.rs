use intar::{is_prompt_line, ActionEvent, ActionLineKind, ActionRecorder, L2Switch, LineCapture, RecorderAction};

fn frame(dst: [u8; 6], src: [u8; 6]) -> Vec<u8> {
    let mut f = Vec::new();
    f.extend_from_slice(&dst);
    f.extend_from_slice(&src);
    f.extend_from_slice(&[0x08, 0x00, 0xde, 0xad]);
    f
}

const A: [u8; 6] = [0x52, 0x54, 0x00, 0x12, 0x57, 0x40];
const B: [u8; 6] = [0x52, 0x54, 0x00, 0x12, 0x57, 0x41];
const BCAST: [u8; 6] = [0xff; 6];

#[test]
fn broadcast_goes_to_every_other_peer() {
    let mut sw = L2Switch::new(vec![5001, 5002, 5003]);
    let out = sw.forward(&frame(BCAST, A), 5001);
    assert_eq!(out, vec![5002, 5003]);
}

#[test]
fn l2_learning_three_vms() {
    let mut sw = L2Switch::new(vec![5001, 5002, 5003]);
    assert_eq!(sw.forward(&frame(BCAST, A), 5001), vec![5002, 5003]);
    assert_eq!(sw.forward(&frame(A, B), 5002), vec![5001]);
}

#[test]
fn unknown_unicast_floods_and_short_frames_drop() {
    let mut sw = L2Switch::new(vec![5001, 5002, 5003]);
    assert_eq!(sw.forward(&frame(B, A), 5001), vec![5002, 5003]);
    assert_eq!(sw.forward(&[0u8; 13], 5001), Vec::<u16>::new());
}

#[test]
fn multicast_floods_and_hairpin_is_dropped() {
    let mut sw = L2Switch::new(vec![5001, 5002]);
    let mcast = [0x01, 0x00, 0x5e, 0x00, 0x00, 0x01];
    assert_eq!(sw.forward(&frame(mcast, A), 5001), vec![5002]);
    // A was learned on 5001; a frame to A from 5001 goes nowhere.
    assert_eq!(sw.forward(&frame(A, B), 5001), Vec::<u16>::new());
}

#[test]
fn input_line_from_raw_bytes() {
    let mut cap = LineCapture::new();
    assert_eq!(cap.feed_input(b"ls\n"), vec!["ls".to_string()]);
}

#[test]
fn ansi_output_is_stripped() {
    let mut cap = LineCapture::new();
    assert_eq!(cap.feed_output(b"\x1b[31mx\x1b[0m\n"), vec!["x".to_string()]);
}

#[test]
fn prompt_output_is_suppressed() {
    let mut cap = LineCapture::new();
    assert_eq!(cap.feed_output(b"user@host:~$ \n"), Vec::<String>::new());
    assert_eq!(cap.feed_output(b"hello\r\n"), vec!["hello".to_string()]);
}

#[test]
fn backspace_and_split_chunks() {
    let mut cap = LineCapture::new();
    assert!(cap.feed_input(b"lss\x7f").is_empty());
    assert_eq!(cap.feed_input(b" -l\r"), vec!["ls -l".to_string()]);
}

#[test]
fn prompt_heuristic() {
    let chars = |s: &str| s.chars().collect::<Vec<char>>();
    assert!(is_prompt_line(&chars("user@host:~$")));
    assert!(is_prompt_line(&chars("root@box:/etc# ")));
    assert!(!is_prompt_line(&chars("$")));
    assert!(!is_prompt_line(&chars("user@host:~$ ls")));
    assert!(!is_prompt_line(&chars("cost: $5")));
    assert!(!is_prompt_line(&chars("a:b@c$")));
    assert!(!is_prompt_line(&chars("")));
}

#[test]
fn flush_residual_output() {
    let mut cap = LineCapture::new();
    assert!(cap.feed_output(b"  done  ").is_empty());
    assert_eq!(cap.flush_output(), Some("done".to_string()));
    assert_eq!(cap.flush_output(), None);
}

#[test]
fn recorder_decodes_raw_input() {
    let mut rec = ActionRecorder::new();
    let ev = ActionEvent::SshRawInput { ts_unix_ms: 7, data_b64: "bHMK".to_string() };
    let out = rec.handle(&ev, "web", 100);
    assert_eq!(out.len(), 2);
    match &out[0] {
        RecorderAction::CastEvent { ts_unix_ms, kind, text } => {
            assert_eq!(*ts_unix_ms, 7);
            assert_eq!(*kind, ActionLineKind::Input);
            assert_eq!(text, "ls\n");
        }
        other => panic!("unexpected {other:?}"),
    }
    match &out[1] {
        RecorderAction::Line(l) => {
            assert_eq!(l.line, "ls");
            assert_eq!(l.vm, "web");
            assert_eq!(l.received_at_ms, 100);
            assert_eq!(l.kind, ActionLineKind::Input);
        }
        other => panic!("unexpected {other:?}"),
    }
}

#[test]
fn recorder_prefers_raw_streams() {
    let mut rec = ActionRecorder::new();
    let line = ActionEvent::SshLine { ts_unix_ms: 1, line: "pwd".to_string() };
    assert_eq!(rec.handle(&line, "a", 1).len(), 1);
    let raw = ActionEvent::SshRawOutput { ts_unix_ms: 2, data_b64: "!!".to_string() };
    assert!(rec.handle(&raw, "a", 2).is_empty());
    assert!(rec.handle(&line, "a", 3).is_empty());
}

#[test]
fn recorder_session_end_flushes() {
    let mut rec = ActionRecorder::new();
    let raw = ActionEvent::SshRawOutput { ts_unix_ms: 2, data_b64: "dG90YWwgMA==".to_string() };
    let out = rec.handle(&raw, "a", 2);
    assert_eq!(out.len(), 1);
    let end = ActionEvent::SshSessionEnd { ts_unix_ms: 3, exit_code: 0 };
    let out = rec.handle(&end, "a", 3);
    assert_eq!(out.len(), 2);
    assert!(matches!(&out[0], RecorderAction::Line(l) if l.line == "total 0"));
    assert_eq!(out[1], RecorderAction::FinishCast);
}
