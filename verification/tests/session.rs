//! A whole session against a simulated filesystem: the engine drives a fake
//! host holding files as strings, so every offset the engine asks to read
//! from is checked against real byte positions.

use chase::Action;
use chase::Chaser;
use chase::Control;
use chase::Engine;
use chase::Event;
use chase::FileId;
use chase::Line;
use chase::RunOutcome;

#[derive(Clone)]
struct FakeFile {
    content: String,
    id: FileId,
}

struct FakeHost {
    /// Which file the target path currently names, if any.
    at_path: Option<usize>,
    files: Vec<FakeFile>,
    /// The open handle the engine reads from.
    current: Option<usize>,
    /// The handle retained by the last probe.
    pending: Option<usize>,
    emitted: Vec<String>,
    /// Tell the sink to answer `Stop` once this line arrives.
    stop_on: Option<String>,
}

impl FakeHost {
    fn new() -> FakeHost {
        FakeHost {
            at_path: None,
            files: Vec::new(),
            current: None,
            pending: None,
            emitted: Vec::new(),
            stop_on: None,
        }
    }

    fn place_file(&mut self, content: &str, id: FileId) {
        self.files.push(FakeFile { content: content.to_string(), id });
        self.at_path = Some(self.files.len() - 1);
    }

    fn append(&mut self, index: usize, text: &str) {
        self.files[index].content.push_str(text);
    }
}

fn read_line_at(content: &str, offset: u64) -> Option<(String, usize)> {
    let start = offset as usize;
    if start >= content.len() {
        return None;
    }
    let rest = &content[start..];
    match rest.find('\n') {
        Some(i) => Some((rest[..i + 1].to_string(), i + 1)),
        None => Some((rest.to_string(), rest.len())),
    }
}

/// Perform actions until the engine asks to sleep or finishes; the returned
/// action is that `Sleep` or `Finish`.
fn run_until_wait(engine: &mut Engine, host: &mut FakeHost, mut action: Action) -> Action {
    loop {
        let event = match &action {
            Action::Open => match host.at_path {
                Some(index) => {
                    host.current = Some(index);
                    Event::Opened(host.files[index].id)
                }
                None => Event::OpenFailed,
            },
            Action::Read { offset } => {
                let index = host.current.expect("read with no open handle");
                match read_line_at(&host.files[index].content, *offset) {
                    Some((line, nbytes)) => Event::Read { line, nbytes },
                    None => Event::ReadEof,
                }
            }
            Action::Emit { line } => {
                host.emitted.push(line.clone());
                let stop = host.stop_on.as_deref() == Some(line.as_str());
                Event::SinkAck(if stop { Control::Stop } else { Control::Continue })
            }
            Action::Sleep { .. } => return action,
            Action::Probe => match host.at_path {
                Some(index) => {
                    host.pending = Some(index);
                    Event::Probed(host.files[index].id)
                }
                None => Event::ProbeFailed,
            },
            Action::Promote => {
                host.current = Some(host.pending.take().expect("promote with no pending handle"));
                Event::Promoted
            }
            Action::Finish { .. } => return action,
        };
        action = engine.step(event);
    }
}

#[test]
fn full_session_against_a_simulated_filesystem() {
    let chaser = Chaser::new("sim.log".to_string(), Line(1));
    let mut engine = Engine::new(&chaser);
    let mut host = FakeHost::new();

    // The path does not exist yet: the engine retries the open.
    let action = engine.first_action();
    let action = run_until_wait(&mut engine, &mut host, action);
    assert_eq!(action, Action::Sleep { millis: 100 });

    // The file appears with two lines; line "a" is skipped, "b" emitted.
    host.place_file("a\nb\n", FileId { device: 1, index: 10 });
    let action = engine.step(Event::Slept);
    assert_eq!(action, Action::Open);
    let action = run_until_wait(&mut engine, &mut host, action);
    assert_eq!(action, Action::Sleep { millis: 50 });
    assert_eq!(host.emitted, vec!["b".to_string()]);

    // A line is appended between polls.
    host.append(0, "c\n");
    let action = engine.step(Event::Slept);
    let action = run_until_wait(&mut engine, &mut host, action);
    assert_eq!(action, Action::Sleep { millis: 50 });
    assert_eq!(engine.current_line(), Line(3));
    assert_eq!(engine.byte_pos(), 6);

    // A late write lands on the old file, then the path is replaced by a new
    // file: the remainder must drain before the new file's lines.
    host.append(0, "late\n");
    host.place_file("x\ny\n", FileId { device: 1, index: 11 });
    let action = engine.step(Event::Slept);
    let action = run_until_wait(&mut engine, &mut host, action);
    assert_eq!(action, Action::Sleep { millis: 50 });
    assert_eq!(
        host.emitted,
        vec![
            "b".to_string(),
            "c".to_string(),
            "late".to_string(),
            "x".to_string(),
            "y".to_string(),
        ],
    );
    // The cursor counts the new file alone.
    assert_eq!(engine.current_line(), Line(2));
    assert_eq!(engine.byte_pos(), 4);

    // The sink stops the run on the next line; the run ends cleanly.
    host.append(1, "z\n");
    host.stop_on = Some("z".to_string());
    let action = engine.step(Event::Slept);
    let action = run_until_wait(&mut engine, &mut host, action);
    assert_eq!(action, Action::Finish { outcome: RunOutcome::Stopped });
    assert!(engine.is_finished());
    assert_eq!(host.emitted.last(), Some(&"z".to_string()));
}
