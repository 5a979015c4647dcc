//! Driving the engine through whole sessions: skipping, streaming, polling,
//! rotation, stopping, and the failure paths.

use chase::Action;
use chase::ChaseError;
use chase::Chaser;
use chase::Control;
use chase::Engine;
use chase::Event;
use chase::FileId;
use chase::Line;
use chase::RunOutcome;
use chase::engine::Phase;

fn opened_engine(starting_line: usize, id: FileId) -> Engine {
    let chaser = Chaser::new("log.txt".to_string(), Line(starting_line));
    let mut engine = Engine::new(&chaser);
    assert_eq!(engine.first_action(), Action::Open);
    let action = engine.step(Event::Opened(id));
    assert_eq!(action, Action::Read { offset: 0 });
    engine
}

fn read_and_ack(engine: &mut Engine, raw: &str, emitted: &mut Vec<String>) -> Action {
    let action = engine.step(Event::Read { line: raw.to_string(), nbytes: raw.len() });
    match action {
        Action::Emit { line } => emitted.push(line),
        other => panic!("expected an emit action, got {:?}", other),
    }
    engine.step(Event::SinkAck(Control::Continue))
}

#[test]
fn streams_lines_in_order() {
    let id = FileId { device: 1, index: 1 };
    let mut engine = opened_engine(0, id);
    let mut emitted: Vec<String> = Vec::new();
    let action = read_and_ack(&mut engine, "alpha\n", &mut emitted);
    assert_eq!(action, Action::Read { offset: 6 });
    let action = read_and_ack(&mut engine, "beta\n", &mut emitted);
    assert_eq!(action, Action::Read { offset: 11 });
    assert_eq!(emitted, vec!["alpha".to_string(), "beta".to_string()]);
    assert_eq!(engine.current_line(), Line(2));
    assert_eq!(engine.byte_pos(), 11);
}

#[test]
fn poll_cycle_waits_then_reads_again() {
    let id = FileId { device: 1, index: 1 };
    let mut engine = opened_engine(0, id);
    let mut emitted: Vec<String> = Vec::new();
    read_and_ack(&mut engine, "a\n", &mut emitted);
    let action = engine.step(Event::ReadEof);
    assert_eq!(action, Action::Probe);
    let action = engine.step(Event::Probed(id));
    assert_eq!(action, Action::Sleep { millis: 50 });
    let action = engine.step(Event::Slept);
    assert_eq!(action, Action::Read { offset: 2 });
    assert_eq!(engine.phase(), Phase::Streaming);
    let action = read_and_ack(&mut engine, "b\n", &mut emitted);
    assert_eq!(action, Action::Read { offset: 4 });
    assert_eq!(emitted, vec!["a".to_string(), "b".to_string()]);
}

#[test]
fn skips_then_streams_from_line_one() {
    let id = FileId { device: 1, index: 9 };
    let mut engine = opened_engine(1, id);
    assert_eq!(engine.phase(), Phase::Skipping);
    let action = engine.step(Event::Read { line: "a\n".to_string(), nbytes: 2 });
    assert_eq!(action, Action::Read { offset: 2 });
    assert_eq!(engine.phase(), Phase::Streaming);
    let mut emitted: Vec<String> = Vec::new();
    let action = read_and_ack(&mut engine, "b\n", &mut emitted);
    assert_eq!(action, Action::Read { offset: 4 });
    let action = read_and_ack(&mut engine, "c\n", &mut emitted);
    assert_eq!(action, Action::Read { offset: 6 });
    assert_eq!(emitted, vec!["b".to_string(), "c".to_string()]);
    let action = engine.step(Event::ReadEof);
    assert_eq!(action, Action::Probe);
    let action = engine.step(Event::Probed(id));
    assert_eq!(action, Action::Sleep { millis: 50 });
    assert_eq!(engine.current_line(), Line(3));
}

#[test]
fn skip_past_short_file_streams_from_its_end() {
    let id = FileId { device: 1, index: 9 };
    let mut engine = opened_engine(5, id);
    let action = engine.step(Event::Read { line: "a\n".to_string(), nbytes: 2 });
    assert_eq!(action, Action::Read { offset: 2 });
    assert_eq!(engine.phase(), Phase::Skipping);
    let action = engine.step(Event::ReadEof);
    assert_eq!(action, Action::Read { offset: 2 });
    assert_eq!(engine.phase(), Phase::Streaming);
    let mut emitted: Vec<String> = Vec::new();
    let action = read_and_ack(&mut engine, "b\n", &mut emitted);
    assert_eq!(action, Action::Read { offset: 4 });
    assert_eq!(emitted, vec!["b".to_string()]);
    assert_eq!(engine.current_line(), Line(2));
}

#[test]
fn rotation_emits_old_lines_then_new() {
    let old_id = FileId { device: 1, index: 1 };
    let new_id = FileId { device: 1, index: 2 };
    let mut engine = opened_engine(0, old_id);
    let mut emitted: Vec<String> = Vec::new();
    read_and_ack(&mut engine, "a\n", &mut emitted);
    read_and_ack(&mut engine, "b\n", &mut emitted);
    let action = engine.step(Event::ReadEof);
    assert_eq!(action, Action::Probe);
    // The probe resolves a different identity: drain the old handle first.
    let action = engine.step(Event::Probed(new_id));
    assert_eq!(action, Action::Read { offset: 4 });
    let action = engine.step(Event::ReadEof);
    assert_eq!(action, Action::Promote);
    let action = engine.step(Event::Promoted);
    assert_eq!(action, Action::Read { offset: 0 });
    assert_eq!(engine.current_line(), Line(0));
    assert_eq!(engine.byte_pos(), 0);
    let action = read_and_ack(&mut engine, "x\n", &mut emitted);
    assert_eq!(action, Action::Read { offset: 2 });
    read_and_ack(&mut engine, "y\n", &mut emitted);
    assert_eq!(
        emitted,
        vec!["a".to_string(), "b".to_string(), "x".to_string(), "y".to_string()],
    );
    assert_eq!(engine.current_line(), Line(2));
}

#[test]
fn rotation_drains_late_writes_before_new_file() {
    let old_id = FileId { device: 7, index: 1 };
    let new_id = FileId { device: 7, index: 2 };
    let mut engine = opened_engine(0, old_id);
    let mut emitted: Vec<String> = Vec::new();
    read_and_ack(&mut engine, "a\n", &mut emitted);
    engine.step(Event::ReadEof);
    let action = engine.step(Event::Probed(new_id));
    assert_eq!(action, Action::Read { offset: 2 });
    // A line was appended to the old file in the instant before the rename.
    let action = read_and_ack(&mut engine, "late\n", &mut emitted);
    assert_eq!(action, Action::Read { offset: 7 });
    let action = engine.step(Event::ReadEof);
    assert_eq!(action, Action::Promote);
    engine.step(Event::Promoted);
    read_and_ack(&mut engine, "new\n", &mut emitted);
    assert_eq!(
        emitted,
        vec!["a".to_string(), "late".to_string(), "new".to_string()],
    );
}

#[test]
fn stop_after_third_line_halts_without_error() {
    let id = FileId { device: 1, index: 1 };
    let mut engine = opened_engine(0, id);
    let mut emitted: Vec<String> = Vec::new();
    read_and_ack(&mut engine, "one\n", &mut emitted);
    read_and_ack(&mut engine, "two\n", &mut emitted);
    let action = engine.step(Event::Read { line: "three\n".to_string(), nbytes: 6 });
    assert_eq!(action, Action::Emit { line: "three".to_string() });
    let action = engine.step(Event::SinkAck(Control::Stop));
    assert_eq!(action, Action::Finish { outcome: RunOutcome::Stopped });
    assert!(engine.is_finished());
    assert_eq!(engine.phase(), Phase::Done);
}

#[test]
fn absent_file_is_retried_until_it_appears() {
    let chaser = Chaser::new("log.txt".to_string(), Line(0));
    let mut engine = Engine::new(&chaser);
    assert_eq!(engine.first_action(), Action::Open);
    for _ in 0..3 {
        let action = engine.step(Event::OpenFailed);
        assert_eq!(action, Action::Sleep { millis: 100 });
        let action = engine.step(Event::Slept);
        assert_eq!(action, Action::Open);
    }
    let action = engine.step(Event::Opened(FileId { device: 1, index: 1 }));
    assert_eq!(action, Action::Read { offset: 0 });
    assert_eq!(engine.phase(), Phase::Streaming);
}

#[test]
fn bounded_open_budget_exhausts() {
    let mut chaser = Chaser::new("log.txt".to_string(), Line(0));
    chaser.initial_no_file_attempts = Some(2);
    let mut engine = Engine::new(&chaser);
    let action = engine.step(Event::OpenFailed);
    assert_eq!(action, Action::Sleep { millis: 100 });
    let action = engine.step(Event::Slept);
    assert_eq!(action, Action::Open);
    let action = engine.step(Event::OpenFailed);
    assert_eq!(
        action,
        Action::Finish { outcome: RunOutcome::Failed(ChaseError::AttemptsExhausted) },
    );
    assert!(engine.is_finished());
}

#[test]
fn bounded_probe_budget_exhausts() {
    let mut chaser = Chaser::new("log.txt".to_string(), Line(0));
    chaser.rotation_check_attempts = Some(1);
    let mut engine = Engine::new(&chaser);
    engine.step(Event::Opened(FileId { device: 1, index: 1 }));
    let action = engine.step(Event::ReadEof);
    assert_eq!(action, Action::Probe);
    let action = engine.step(Event::ProbeFailed);
    assert_eq!(
        action,
        Action::Finish { outcome: RunOutcome::Failed(ChaseError::AttemptsExhausted) },
    );
}

#[test]
fn probe_failures_are_retried_with_fresh_budget_each_check() {
    let mut chaser = Chaser::new("log.txt".to_string(), Line(0));
    chaser.rotation_check_attempts = Some(2);
    let id = FileId { device: 1, index: 1 };
    let mut engine = Engine::new(&chaser);
    engine.step(Event::Opened(id));
    for _ in 0..2 {
        let action = engine.step(Event::ReadEof);
        assert_eq!(action, Action::Probe);
        // One failure is within the budget of two; the probe is retried.
        let action = engine.step(Event::ProbeFailed);
        assert_eq!(action, Action::Sleep { millis: 100 });
        let action = engine.step(Event::Slept);
        assert_eq!(action, Action::Probe);
        let action = engine.step(Event::Probed(id));
        assert_eq!(action, Action::Sleep { millis: 50 });
        let action = engine.step(Event::Slept);
        assert_eq!(action, Action::Read { offset: 0 });
    }
    assert!(!engine.is_finished());
}

#[test]
fn read_failure_mid_stream_is_fatal() {
    let id = FileId { device: 1, index: 1 };
    let mut engine = opened_engine(0, id);
    let action = engine.step(Event::ReadFailed);
    assert_eq!(action, Action::Finish { outcome: RunOutcome::Failed(ChaseError::Io) });
    assert_eq!(engine.phase(), Phase::Failed);
}

#[test]
fn closed_sink_is_fatal() {
    let id = FileId { device: 1, index: 1 };
    let mut engine = opened_engine(0, id);
    engine.step(Event::Read { line: "a\n".to_string(), nbytes: 2 });
    let action = engine.step(Event::SinkClosed);
    assert_eq!(action, Action::Finish { outcome: RunOutcome::Failed(ChaseError::Emission) });
}

#[test]
fn aborting_sink_surfaces_custom_error() {
    let id = FileId { device: 1, index: 1 };
    let mut engine = opened_engine(0, id);
    engine.step(Event::Read { line: "a\n".to_string(), nbytes: 2 });
    let action = engine.step(Event::SinkAborted);
    assert_eq!(action, Action::Finish { outcome: RunOutcome::Failed(ChaseError::Custom) });
}

#[test]
fn emitted_lines_lose_only_trailing_newlines() {
    let id = FileId { device: 1, index: 1 };
    let mut engine = opened_engine(0, id);
    let action = engine.step(Event::Read { line: "x\n\n".to_string(), nbytes: 3 });
    assert_eq!(action, Action::Emit { line: "x".to_string() });
    engine.step(Event::SinkAck(Control::Continue));
    // A final line without a terminator is emitted unchanged.
    let action = engine.step(Event::Read { line: "tail".to_string(), nbytes: 4 });
    assert_eq!(action, Action::Emit { line: "tail".to_string() });
    engine.step(Event::SinkAck(Control::Continue));
    // Cursor still advances by the raw byte counts.
    assert_eq!(engine.byte_pos(), 7);
    // An empty line is an empty emission, not a skipped one.
    let action = engine.step(Event::Read { line: "\n".to_string(), nbytes: 1 });
    assert_eq!(action, Action::Emit { line: "".to_string() });
}
