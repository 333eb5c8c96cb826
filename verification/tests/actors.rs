//! The reader, writer and heartbeat step logic: auto-responses, raw
//! forwarding, partial-line buffering, and cooperative shutdown.

use virtualport::commands::CommandTable;
use virtualport::heartbeat::{heartbeat_enabled, heartbeat_step, HeartbeatDecision};
use virtualport::io_handler::{IoEvent, ReaderState, StepOutcome, WriterState, POLL_RETRY_MS};

fn ping_table() -> CommandTable {
    let mut t = CommandTable::new();
    t.insert(b"PING".to_vec(), b"PONG".to_vec());
    t
}

#[test]
fn reader_responds_to_full_line() {
    let t = ping_table();
    let mut r = ReaderState::new();
    let step = r.step(true, IoEvent::Data(b"PING\n".to_vec()), &t);
    assert_eq!(step.outcome, StepOutcome::Proceed);
    assert_eq!(step.echoed, Some(b"PING\n".to_vec()));
    assert_eq!(step.responses, vec![b"PONG\n".to_vec()]);
}

#[test]
fn reader_buffers_partial_line_without_matching() {
    let t = ping_table();
    let mut r = ReaderState::new();
    let step = r.step(true, IoEvent::Data(b"PING".to_vec()), &t);
    assert_eq!(step.outcome, StepOutcome::Proceed);
    assert_eq!(step.echoed, Some(b"PING".to_vec()));
    assert!(step.responses.is_empty());
    let step = r.step(true, IoEvent::Data(b"\n".to_vec()), &t);
    assert_eq!(step.responses, vec![b"PONG\n".to_vec()]);
}

#[test]
fn reader_matches_once_per_line_even_when_line_recurs() {
    let t = ping_table();
    let mut r = ReaderState::new();
    let step = r.step(true, IoEvent::Data(b"PING\nPING\n".to_vec()), &t);
    assert_eq!(step.responses, vec![b"PONG\n".to_vec(), b"PONG\n".to_vec()]);
}

#[test]
fn reader_ignores_unrecognized_lines() {
    let t = ping_table();
    let mut r = ReaderState::new();
    let step = r.step(true, IoEvent::Data(b"HELLO\nPING\nx\n".to_vec()), &t);
    assert_eq!(step.responses, vec![b"PONG\n".to_vec()]);
}

#[test]
fn reader_trims_line_before_matching() {
    let t = ping_table();
    let mut r = ReaderState::new();
    let step = r.step(true, IoEvent::Data(b"  PING \r\n".to_vec()), &t);
    assert_eq!(step.responses, vec![b"PONG\n".to_vec()]);
}

#[test]
fn reader_halts_on_stop_flag_without_writing() {
    let t = ping_table();
    let mut r = ReaderState::new();
    r.step(true, IoEvent::Data(b"PIN".to_vec()), &t);
    let step = r.step(false, IoEvent::Data(b"G\n".to_vec()), &t);
    assert_eq!(step.outcome, StepOutcome::Halted);
    assert!(step.responses.is_empty());
    assert_eq!(step.echoed, None);
}

#[test]
fn reader_loop_control_events() {
    let t = ping_table();
    let mut r = ReaderState::new();
    assert_eq!(r.step(true, IoEvent::Eof, &t).outcome, StepOutcome::EndOfStream);
    assert_eq!(r.step(true, IoEvent::WouldBlock, &t).outcome, StepOutcome::SleepRetry);
    assert_eq!(r.step(true, IoEvent::ReadError, &t).outcome, StepOutcome::Failed);
}

#[test]
fn writer_replaces_recognized_line_with_response() {
    let t = ping_table();
    let mut w = WriterState::new();
    let step = w.step(true, IoEvent::Data(b"PING\n".to_vec()), &t);
    assert_eq!(step.outcome, StepOutcome::Proceed);
    assert_eq!(step.sends, vec![b"PONG\n".to_vec()]);
}

#[test]
fn writer_forwards_unrecognized_line_raw() {
    let t = ping_table();
    let mut w = WriterState::new();
    let step = w.step(true, IoEvent::Data(b"hello\n".to_vec()), &t);
    assert_eq!(step.sends, vec![b"hello\n".to_vec()]);
}

#[test]
fn writer_buffers_partial_line() {
    let t = ping_table();
    let mut w = WriterState::new();
    let step = w.step(true, IoEvent::Data(b"PING".to_vec()), &t);
    assert!(step.sends.is_empty());
    let step = w.step(true, IoEvent::Data(b"\nhel".to_vec()), &t);
    assert_eq!(step.sends, vec![b"PONG\n".to_vec()]);
    let step = w.step(true, IoEvent::Data(b"lo\n".to_vec()), &t);
    assert_eq!(step.sends, vec![b"hello\n".to_vec()]);
}

#[test]
fn writer_ends_without_error_on_input_eof() {
    let t = ping_table();
    let mut w = WriterState::new();
    w.step(true, IoEvent::Data(b"PIN".to_vec()), &t);
    let step = w.step(true, IoEvent::Eof, &t);
    assert_eq!(step.outcome, StepOutcome::EndOfStream);
    assert!(step.sends.is_empty());
}

#[test]
fn writer_halts_on_stop_flag_without_writing() {
    let t = ping_table();
    let mut w = WriterState::new();
    let step = w.step(false, IoEvent::Data(b"PING\n".to_vec()), &t);
    assert_eq!(step.outcome, StepOutcome::Halted);
    assert!(step.sends.is_empty());
}

#[test]
fn writer_loop_control_events() {
    let t = ping_table();
    let mut w = WriterState::new();
    assert_eq!(w.step(true, IoEvent::WouldBlock, &t).outcome, StepOutcome::SleepRetry);
    assert_eq!(w.step(true, IoEvent::ReadError, &t).outcome, StepOutcome::Failed);
}

#[test]
fn heartbeat_disabled_by_zero_interval() {
    assert!(!heartbeat_enabled(0));
    assert!(heartbeat_enabled(1));
    assert!(heartbeat_enabled(60));
}

#[test]
fn heartbeat_stops_on_flag_or_write_failure() {
    assert_eq!(heartbeat_step(true, true), HeartbeatDecision::SleepThenSend);
    assert_eq!(heartbeat_step(false, true), HeartbeatDecision::Stop);
    assert_eq!(heartbeat_step(true, false), HeartbeatDecision::Stop);
    assert_eq!(heartbeat_step(false, false), HeartbeatDecision::Stop);
}

#[test]
fn poll_retry_interval_is_fixed() {
    assert_eq!(POLL_RETRY_MS, 10);
}
