use resettime::tail::{tail_input_of_change, tail_step, TailAction, TailCursor, TailInput, TailPhase};
use resettime::watcher::ChangeKind;

#[test]
fn cursor_yields_complete_lines_and_buffers_partial_tail() {
    let mut c = TailCursor::new();
    assert_eq!(c.offset, 0);
    c.feed(&b"abc\nde".to_vec());
    assert_eq!(c.offset, 6);
    assert_eq!(c.next_line(), Some(b"abc".to_vec()));
    assert_eq!(c.next_line(), None, "an unterminated tail is never emitted");
    c.feed(&b"f\n\n".to_vec());
    assert_eq!(c.offset, 9);
    assert_eq!(c.next_line(), Some(b"def".to_vec()));
    assert_eq!(c.next_line(), Some(b"".to_vec()));
    assert_eq!(c.next_line(), None);
}

#[test]
fn cursor_reports_no_new_data_exactly_at_file_length() {
    let mut c = TailCursor::new();
    c.feed(&b"12345\n7".to_vec());
    assert!(c.has_no_new_data(7));
    assert!(!c.has_no_new_data(8));
    assert!(!c.has_no_new_data(0));
}

#[test]
fn tail_step_decisions() {
    assert_eq!(
        tail_step(TailPhase::Connecting, TailInput::OpenSucceeded),
        (TailPhase::Streaming, TailAction::StartStreaming)
    );
    assert_eq!(
        tail_step(TailPhase::Connecting, TailInput::OpenFailed),
        (TailPhase::Connecting, TailAction::RetryAfterDelay)
    );
    assert_eq!(
        tail_step(TailPhase::Connecting, TailInput::ErrorChange),
        (TailPhase::Connecting, TailAction::Ignore)
    );
    assert_eq!(
        tail_step(TailPhase::Streaming, TailInput::DataChange { no_new_data: false }),
        (TailPhase::Streaming, TailAction::Ignore),
        "new bytes behind the notification: keep streaming"
    );
    assert_eq!(
        tail_step(TailPhase::Streaming, TailInput::DataChange { no_new_data: true }),
        (TailPhase::Connecting, TailAction::Reopen),
        "no new bytes: the file was replaced, reopen"
    );
    assert_eq!(
        tail_step(TailPhase::Streaming, TailInput::ErrorChange),
        (TailPhase::Connecting, TailAction::Reopen)
    );
    assert_eq!(
        tail_step(TailPhase::Streaming, TailInput::OtherChange),
        (TailPhase::Streaming, TailAction::Ignore)
    );
}

#[test]
fn change_kinds_map_to_tail_inputs() {
    assert_eq!(
        tail_input_of_change(ChangeKind::ModifiedData, true),
        TailInput::DataChange { no_new_data: true }
    );
    assert_eq!(
        tail_input_of_change(ChangeKind::ModifiedData, false),
        TailInput::DataChange { no_new_data: false }
    );
    assert_eq!(tail_input_of_change(ChangeKind::Error, false), TailInput::ErrorChange);
    assert_eq!(tail_input_of_change(ChangeKind::ModifiedOther, false), TailInput::OtherChange);
    assert_eq!(tail_input_of_change(ChangeKind::Created, false), TailInput::OtherChange);
}

#[test]
fn reopen_resumes_from_new_file_start_without_skip_or_duplicate() {
    // a tailed file, fully consumed
    let mut c = TailCursor::new();
    c.feed(&b"old line\n".to_vec());
    assert_eq!(c.next_line(), Some(b"old line".to_vec()));
    let old_len = 9u64;
    assert!(c.has_no_new_data(old_len));
    // the writer replaced the file: a data change arrives with no new bytes
    let input = tail_input_of_change(ChangeKind::ModifiedData, c.has_no_new_data(old_len));
    let (phase, action) = tail_step(TailPhase::Streaming, input);
    assert_eq!((phase, action), (TailPhase::Connecting, TailAction::Reopen));
    // the reconnect succeeds and streaming restarts from a fresh cursor
    let (phase, action) = tail_step(phase, TailInput::OpenSucceeded);
    assert_eq!((phase, action), (TailPhase::Streaming, TailAction::StartStreaming));
    let mut c = TailCursor::new();
    assert_eq!(c.offset, 0, "reading restarts from the file's beginning");
    c.feed(&b"first new\nsecond new\n".to_vec());
    assert_eq!(
        c.next_line(),
        Some(b"first new".to_vec()),
        "the new file's first line is neither skipped nor duplicated"
    );
    assert_eq!(c.next_line(), Some(b"second new".to_vec()));
}
