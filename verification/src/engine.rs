//! The chase engine: the central state machine. The engine performs no I/O
//! itself. The host performs one blocking operation at a time — an open, a
//! seek-and-read, a delivery to the sink, a sleep, a rotation probe, a handle
//! swap — and feeds the outcome back as an [`Event`]; [`Engine::step`]
//! answers with the next [`Action`]. The whole transition relation is stated
//! by the specification function [`step_spec`], and `step` is proved to
//! follow it exactly.
//!
//! The host's obligations, stated on each action:
//! - the current file handle, its buffer and its position are owned by this
//!   engine's run alone for the whole session;
//! - a probe opens the path fresh and retains that handle as the pending one
//!   until the next probe overwrites it or a promotion consumes it (a rotated
//!   file's replacement must not be reopened later — that could itself race
//!   against another rotation).

use vstd::prelude::*;
use crate::data::ChaseError;
use crate::data::Chaser;
use crate::data::Control;
use crate::data::FileId;
use crate::data::Line;
use crate::data::RunOutcome;
use crate::position::PositionTracker;
use crate::retry::RetryPolicy;
use crate::retry::spec_allows_retry;
use crate::retry::spec_budget;
use crate::rotation::RotationOutcome;
use crate::rotation::rotation_outcome;
use crate::text::strip_newlines_spec;
use crate::text::strip_trailing_newlines;

verus! {

/// Where the engine stands, i.e. which event it awaits next.
#[derive(Debug, Copy, Clone, PartialEq, Eq, Structural)]
pub enum Phase {
    /// Awaiting the outcome of an attempt to open the path and resolve its
    /// identity.
    Opening,
    /// Sleeping before the next open attempt.
    OpenBackoff,
    /// Fast-forwarding to the starting line: awaiting a read whose line is
    /// counted but not emitted.
    Skipping,
    /// Awaiting a read whose line will be handed to the sink.
    Streaming,
    /// A line has been handed to the sink; awaiting its verdict.
    Emitting,
    /// Awaiting the outcome of a rotation probe.
    Probing,
    /// Sleeping before the next probe attempt.
    ProbeBackoff,
    /// A probe found no rotation; sleeping before reading again.
    PollWait,
    /// The rotated-away handle is fully drained; awaiting the handle swap.
    Promoting,
    /// Terminal: the sink asked to stop; the run ended cleanly.
    Done,
    /// Terminal: a failure ended the run.
    Failed,
}

/// The outcome of one host operation, fed to [`Engine::step`].
#[derive(Debug, Clone, PartialEq)]
pub enum Event {
    /// An open succeeded; carries the opened file's identity.
    Opened(FileId),
    /// An open attempt failed (for instance, the file does not exist yet).
    OpenFailed,
    /// A read got a whole line: its text (terminator included) and the number
    /// of bytes consumed.
    Read { line: String, nbytes: usize },
    /// A read returned zero bytes: current end of file.
    ReadEof,
    /// A read or seek on the already-open handle failed.
    ReadFailed,
    /// The sink received the line and answered with its verdict.
    SinkAck(Control),
    /// The sink's channel is closed or the sink rejected delivery.
    SinkClosed,
    /// The sink callback aborted the run with an application-specific error,
    /// which the host keeps.
    SinkAborted,
    /// The requested sleep elapsed.
    Slept,
    /// A rotation probe opened the path fresh and resolved its identity; the
    /// host retains that handle as the pending one.
    Probed(FileId),
    /// A rotation probe failed (for instance, the path was momentarily absent
    /// during an atomic rotation).
    ProbeFailed,
    /// The host replaced the current handle by the pending probe handle.
    Promoted,
}

/// The mathematical form of an [`Event`].
pub enum Ev {
    Opened(FileId),
    OpenFailed,
    Read { chars: Seq<char>, nbytes: nat },
    ReadEof,
    ReadFailed,
    SinkAck(Control),
    SinkClosed,
    SinkAborted,
    Slept,
    Probed(FileId),
    ProbeFailed,
    Promoted,
}

impl View for Event {
    type V = Ev;

    open spec fn view(&self) -> Ev {
        match self {
            Event::Opened(id) => Ev::Opened(*id),
            Event::OpenFailed => Ev::OpenFailed,
            Event::Read { line, nbytes } => Ev::Read { chars: line@, nbytes: *nbytes as nat },
            Event::ReadEof => Ev::ReadEof,
            Event::ReadFailed => Ev::ReadFailed,
            Event::SinkAck(c) => Ev::SinkAck(*c),
            Event::SinkClosed => Ev::SinkClosed,
            Event::SinkAborted => Ev::SinkAborted,
            Event::Slept => Ev::Slept,
            Event::Probed(id) => Ev::Probed(*id),
            Event::ProbeFailed => Ev::ProbeFailed,
            Event::Promoted => Ev::Promoted,
        }
    }
}

/// The next blocking operation the host must perform.
#[derive(Debug, Clone, PartialEq)]
pub enum Action {
    /// Open the path and resolve its identity; reply with `Opened` or
    /// `OpenFailed`.
    Open,
    /// Seek the current handle to `offset` and read one line; reply with
    /// `Read`, `ReadEof` or `ReadFailed`. Re-seeking before each read is what
    /// keeps the loop safe against buffered-reader over-read.
    Read { offset: u64 },
    /// Deliver `line` to the sink; reply with `SinkAck`, `SinkClosed` or
    /// `SinkAborted`.
    Emit { line: String },
    /// Sleep for `millis` milliseconds; reply with `Slept`.
    Sleep { millis: u64 },
    /// Open the path fresh, resolve its identity, retain the handle as
    /// pending; reply with `Probed` or `ProbeFailed`.
    Probe,
    /// Replace the current handle (drained and rotated away) by the pending
    /// probe handle; reply with `Promoted`.
    Promote,
    /// The run is over with this outcome; feed no further event.
    Finish { outcome: RunOutcome },
}

/// The mathematical form of an [`Action`].
pub enum Act {
    Open,
    Read { offset: nat },
    Emit { line: Seq<char> },
    Sleep { millis: nat },
    Probe,
    Promote,
    Finish { outcome: RunOutcome },
}

impl View for Action {
    type V = Act;

    open spec fn view(&self) -> Act {
        match self {
            Action::Open => Act::Open,
            Action::Read { offset } => Act::Read { offset: *offset as nat },
            Action::Emit { line } => Act::Emit { line: line@ },
            Action::Sleep { millis } => Act::Sleep { millis: *millis as nat },
            Action::Probe => Act::Probe,
            Action::Promote => Act::Promote,
            Action::Finish { outcome } => Act::Finish { outcome: *outcome },
        }
    }
}

/// The engine's abstract state: the session cursor, the identities in play,
/// the retry bookkeeping, and the trace of every line emitted so far.
#[verifier::ext_equal]
pub struct EngineState {
    pub phase: Phase,
    /// Whether the current handle is a rotated-away file being drained: its
    /// end of file then ends the drain instead of triggering a rotation
    /// check — a rotated file is never rotated again.
    pub draining: bool,
    /// The starting line number: complete lines present at open time to skip.
    pub target: nat,
    /// Lines consumed from the current handle since it was (re)opened.
    pub line: nat,
    /// Bytes consumed from the current handle since it was (re)opened; the
    /// offset from which the next read occurs.
    pub pos: nat,
    /// Identity of the current handle, once one is open.
    pub file_id: Option<FileId>,
    /// Identity of the pending post-rotation handle while draining.
    pub pending_id: Option<FileId>,
    /// The stripped line handed to the sink, while awaiting its verdict.
    pub pending_line: Option<Seq<char>>,
    /// Byte length (terminator included) of the raw line behind
    /// `pending_line`, by which `pos` advances once the sink says continue.
    pub pending_nbytes: nat,
    /// Attempt budget for the initial open; `None` is unbounded.
    pub open_max: Option<nat>,
    /// Wait between open attempts, in milliseconds.
    pub open_wait: nat,
    /// Failed open attempts so far.
    pub open_attempts: nat,
    /// Attempt budget for each rotation check; `None` is unbounded.
    pub probe_max: Option<nat>,
    /// Wait between probe attempts, in milliseconds.
    pub probe_wait: nat,
    /// Failed probe attempts in the current rotation check.
    pub probe_attempts: nat,
    /// Wait before polling again when a probe found no rotation.
    pub poll_wait: nat,
    /// Every line emitted so far, oldest first.
    pub emitted: Seq<Seq<char>>,
}

/// The abstract state a fresh engine starts in, given a chaser configuration.
pub open spec fn initial_state(c: Chaser) -> EngineState {
    EngineState {
        phase: Phase::Opening,
        draining: false,
        target: c.line.0 as nat,
        line: 0,
        pos: 0,
        file_id: None,
        pending_id: None,
        pending_line: None,
        pending_nbytes: 0,
        open_max: spec_budget(c.initial_no_file_attempts),
        open_wait: c.initial_no_file_wait_millis as nat,
        open_attempts: 0,
        probe_max: spec_budget(c.rotation_check_attempts),
        probe_wait: c.rotation_check_wait_millis as nat,
        probe_attempts: 0,
        poll_wait: c.not_rotated_wait_millis as nat,
        emitted: Seq::empty(),
    }
}

/// Transition into the terminal failed phase with the given error kind.
pub open spec fn fail(s: EngineState, kind: ChaseError) -> (EngineState, Act) {
    (
        EngineState { phase: Phase::Failed, ..s },
        Act::Finish { outcome: RunOutcome::Failed(kind) },
    )
}

/// An open succeeded: record the identity, reset the cursor, and start
/// skipping to the starting line (or streaming at once if it is zero),
/// reading from offset zero.
pub open spec fn open_ok(s: EngineState, id: FileId) -> (EngineState, Act) {
    (
        EngineState {
            phase: if s.target > 0 {
                Phase::Skipping
            } else {
                Phase::Streaming
            },
            line: 0,
            pos: 0,
            file_id: Some(id),
            ..s
        },
        Act::Read { offset: 0 },
    )
}

/// An open failed: retry after the configured wait while the budget allows,
/// else end the run with the budget exhausted. Attempts are counted only
/// under a bounded budget.
pub open spec fn open_failed(s: EngineState) -> (EngineState, Act) {
    match s.open_max {
        None => (EngineState { phase: Phase::OpenBackoff, ..s }, Act::Sleep { millis: s.open_wait }),
        Some(_) => if spec_allows_retry(s.open_max, s.open_attempts + 1) {
            (
                EngineState { phase: Phase::OpenBackoff, open_attempts: s.open_attempts + 1, ..s },
                Act::Sleep { millis: s.open_wait },
            )
        } else {
            (
                EngineState { phase: Phase::Failed, open_attempts: s.open_attempts + 1, ..s },
                Act::Finish { outcome: RunOutcome::Failed(ChaseError::AttemptsExhausted) },
            )
        },
    }
}

/// A line was read while fast-forwarding: count it, advance the byte offset,
/// and keep skipping until the starting line is reached.
pub open spec fn skip_read(s: EngineState, nbytes: nat) -> (EngineState, Act) {
    (
        EngineState {
            phase: if s.line + 1 < s.target {
                Phase::Skipping
            } else {
                Phase::Streaming
            },
            line: s.line + 1,
            pos: s.pos + nbytes,
            ..s
        },
        Act::Read { offset: s.pos + nbytes },
    )
}

/// A line was read while streaming: strip its trailing newline and hand it to
/// the sink; the cursor advances only once the sink says continue.
pub open spec fn stream_read(s: EngineState, chars: Seq<char>, nbytes: nat) -> (EngineState, Act) {
    (
        EngineState {
            phase: Phase::Emitting,
            pending_line: Some(strip_newlines_spec(chars)),
            pending_nbytes: nbytes,
            ..s
        },
        Act::Emit { line: strip_newlines_spec(chars) },
    )
}

/// End of file while reading: when draining a rotated-away handle the drain
/// is complete and the pending handle takes over; otherwise check for
/// rotation, with a fresh probe budget for this invocation.
pub open spec fn read_eof(s: EngineState) -> (EngineState, Act) {
    if s.draining {
        (EngineState { phase: Phase::Promoting, ..s }, Act::Promote)
    } else {
        (EngineState { phase: Phase::Probing, probe_attempts: 0, ..s }, Act::Probe)
    }
}

/// The sink's verdict arrived: on continue, record the emission, advance the
/// cursor past the raw line, and read on; on stop, record the emission and
/// end the run cleanly.
pub open spec fn sink_ack(s: EngineState, c: Control) -> (EngineState, Act) {
    match s.pending_line {
        Some(l) => match c {
            Control::Continue => (
                EngineState {
                    phase: Phase::Streaming,
                    line: s.line + 1,
                    pos: s.pos + s.pending_nbytes,
                    pending_line: None,
                    pending_nbytes: 0,
                    emitted: s.emitted.push(l),
                    ..s
                },
                Act::Read { offset: s.pos + s.pending_nbytes },
            ),
            Control::Stop => (
                EngineState {
                    phase: Phase::Done,
                    pending_line: None,
                    pending_nbytes: 0,
                    emitted: s.emitted.push(l),
                    ..s
                },
                Act::Finish { outcome: RunOutcome::Stopped },
            ),
        },
        None => (s, Act::Finish { outcome: RunOutcome::Stopped }),
    }
}

/// A probe resolved an identity: equal to the current handle's means not
/// rotated — poll again after the configured wait; unequal means rotated —
/// remember the new identity and drain what is left of the current handle.
pub open spec fn probe_ok(s: EngineState, id: FileId) -> (EngineState, Act) {
    match s.file_id {
        Some(cur) => if id == cur {
            (EngineState { phase: Phase::PollWait, ..s }, Act::Sleep { millis: s.poll_wait })
        } else {
            (
                EngineState {
                    phase: Phase::Streaming,
                    draining: true,
                    pending_id: Some(id),
                    ..s
                },
                Act::Read { offset: s.pos },
            )
        },
        None => (s, Act::Probe),
    }
}

/// A probe failed: retry after the configured wait while this invocation's
/// budget allows, else end the run with the budget exhausted.
pub open spec fn probe_failed(s: EngineState) -> (EngineState, Act) {
    match s.probe_max {
        None => (
            EngineState { phase: Phase::ProbeBackoff, ..s },
            Act::Sleep { millis: s.probe_wait },
        ),
        Some(_) => if spec_allows_retry(s.probe_max, s.probe_attempts + 1) {
            (
                EngineState { phase: Phase::ProbeBackoff, probe_attempts: s.probe_attempts + 1, ..s },
                Act::Sleep { millis: s.probe_wait },
            )
        } else {
            (
                EngineState { phase: Phase::Failed, probe_attempts: s.probe_attempts + 1, ..s },
                Act::Finish { outcome: RunOutcome::Failed(ChaseError::AttemptsExhausted) },
            )
        },
    }
}

/// The host swapped handles: the pending identity becomes current, the
/// cursor resets to the top of the new file — exactly once per rotation —
/// and streaming resumes from offset zero.
pub open spec fn promoted(s: EngineState) -> (EngineState, Act) {
    (
        EngineState {
            phase: Phase::Streaming,
            draining: false,
            line: 0,
            pos: 0,
            file_id: s.pending_id,
            pending_id: None,
            ..s
        },
        Act::Read { offset: 0 },
    )
}

/// The full transition relation: from a state and the event the host
/// reports, the successor state and the next action. Only pairs admitted by
/// [`permits`] arise in a run; on any other pair the state is left unchanged.
pub open spec fn step_spec(s: EngineState, e: Ev) -> (EngineState, Act) {
    match (s.phase, e) {
        (Phase::Opening, Ev::Opened(id)) => open_ok(s, id),
        (Phase::Opening, Ev::OpenFailed) => open_failed(s),
        (Phase::OpenBackoff, Ev::Slept) => (EngineState { phase: Phase::Opening, ..s }, Act::Open),
        (Phase::Skipping, Ev::Read { nbytes, .. }) => skip_read(s, nbytes),
        (Phase::Skipping, Ev::ReadEof) => (
            EngineState { phase: Phase::Streaming, ..s },
            Act::Read { offset: s.pos },
        ),
        (Phase::Skipping, Ev::ReadFailed) => fail(s, ChaseError::Io),
        (Phase::Streaming, Ev::Read { chars, nbytes }) => stream_read(s, chars, nbytes),
        (Phase::Streaming, Ev::ReadEof) => read_eof(s),
        (Phase::Streaming, Ev::ReadFailed) => fail(s, ChaseError::Io),
        (Phase::Emitting, Ev::SinkAck(c)) => sink_ack(s, c),
        (Phase::Emitting, Ev::SinkClosed) => fail(s, ChaseError::Emission),
        (Phase::Emitting, Ev::SinkAborted) => fail(s, ChaseError::Custom),
        (Phase::Probing, Ev::Probed(id)) => probe_ok(s, id),
        (Phase::Probing, Ev::ProbeFailed) => probe_failed(s),
        (Phase::ProbeBackoff, Ev::Slept) => (EngineState { phase: Phase::Probing, ..s }, Act::Probe),
        (Phase::PollWait, Ev::Slept) => (
            EngineState { phase: Phase::Streaming, ..s },
            Act::Read { offset: s.pos },
        ),
        (Phase::Promoting, Ev::Promoted) => promoted(s),
        _ => (s, Act::Finish { outcome: RunOutcome::Stopped }),
    }
}

/// The successor state alone.
pub open spec fn next(s: EngineState, e: Ev) -> EngineState {
    step_spec(s, e).0
}

/// The next action alone.
pub open spec fn next_action(s: EngineState, e: Ev) -> Act {
    step_spec(s, e).1
}

/// Which events a state admits: the event must answer the action the engine
/// last issued, and the session bookkeeping must be in range (counters fit
/// the machine word). Every state the engine itself reaches satisfies the
/// bookkeeping part — [`inv`] holds initially and is preserved by every
/// permitted step ([`lemma_inv_preserved`]) — so the host only has to answer
/// the action it was given.
pub open spec fn permits(s: EngineState, e: Ev) -> bool {
    match (s.phase, e) {
        (Phase::Opening, Ev::Opened(_)) => true,
        (Phase::Opening, Ev::OpenFailed) => match s.open_max {
            None => true,
            Some(_) => s.open_attempts < usize::MAX,
        },
        (Phase::OpenBackoff, Ev::Slept) => true,
        (Phase::Skipping, Ev::Read { nbytes, .. }) => s.line < s.target && s.pos + nbytes
            <= u64::MAX,
        (Phase::Skipping, Ev::ReadEof) => true,
        (Phase::Skipping, Ev::ReadFailed) => true,
        (Phase::Streaming, Ev::Read { .. }) => true,
        (Phase::Streaming, Ev::ReadEof) => true,
        (Phase::Streaming, Ev::ReadFailed) => true,
        (Phase::Emitting, Ev::SinkAck(c)) => s.pending_line is Some && (c == Control::Continue
            ==> s.line < usize::MAX && s.pos + s.pending_nbytes <= u64::MAX),
        (Phase::Emitting, Ev::SinkClosed) => true,
        (Phase::Emitting, Ev::SinkAborted) => true,
        (Phase::Probing, Ev::Probed(_)) => s.file_id is Some,
        (Phase::Probing, Ev::ProbeFailed) => match s.probe_max {
            None => true,
            Some(_) => s.probe_attempts < usize::MAX,
        },
        (Phase::ProbeBackoff, Ev::Slept) => true,
        (Phase::PollWait, Ev::Slept) => true,
        (Phase::Promoting, Ev::Promoted) => true,
        _ => false,
    }
}

/// Whether the engine holds an open session: a current handle and its
/// resolved identity.
pub open spec fn in_session(p: Phase) -> bool {
    ||| p == Phase::Skipping
    ||| p == Phase::Streaming
    ||| p == Phase::Emitting
    ||| p == Phase::Probing
    ||| p == Phase::ProbeBackoff
    ||| p == Phase::PollWait
    ||| p == Phase::Promoting
}

/// The engine's state invariant: whenever a session is open its identity is
/// known; a line awaiting the sink's verdict is recorded; fast-forwarding
/// still has lines to skip; a drain knows which handle takes over next; and a
/// retry counter in use is within its (machine-representable) budget. Every
/// state the engine reaches satisfies it: it holds initially
/// ([`lemma_initial_inv`]) and every permitted step preserves it
/// ([`lemma_inv_preserved`]), so each event answering the engine's own last
/// action is admitted by [`permits`] — save for the two cursor bounds that
/// depend on how much the host reads, which the host must check.
pub open spec fn inv(s: EngineState) -> bool {
    &&& (in_session(s.phase) ==> s.file_id is Some)
    &&& (s.phase == Phase::Emitting ==> s.pending_line is Some)
    &&& (s.phase == Phase::Skipping ==> s.line < s.target)
    &&& (s.draining ==> s.pending_id is Some)
    &&& (s.phase == Phase::Promoting ==> s.draining)
    &&& (match s.open_max {
        None => true,
        Some(max) => max <= usize::MAX && ((s.phase == Phase::Opening || s.phase
            == Phase::OpenBackoff) ==> (s.open_attempts < max || s.open_attempts == 0)),
    })
    &&& (match s.probe_max {
        None => true,
        Some(max) => max <= usize::MAX && ((s.phase == Phase::Probing || s.phase
            == Phase::ProbeBackoff) ==> (s.probe_attempts < max || s.probe_attempts == 0)),
    })
}

/// A fresh engine satisfies the invariant.
pub proof fn lemma_initial_inv(c: Chaser)
    ensures
        inv(initial_state(c)),
{
}

/// Every permitted step preserves the invariant.
pub proof fn lemma_inv_preserved(s: EngineState, e: Ev)
    requires
        inv(s),
        permits(s, e),
    ensures
        inv(next(s, e)),
{
}

/// The chase engine. Holds no file handle: only the identities, the cursor,
/// the retry bookkeeping, and (as ghost state) the trace of emitted lines.
pub struct Engine {
    phase: Phase,
    draining: bool,
    target: usize,
    cursor: PositionTracker,
    file_id: Option<FileId>,
    pending_id: Option<FileId>,
    pending_line: Option<String>,
    pending_nbytes: usize,
    open_policy: RetryPolicy,
    open_attempts: usize,
    probe_policy: RetryPolicy,
    probe_attempts: usize,
    poll_wait_millis: u64,
    emitted: Ghost<Seq<Seq<char>>>,
}

impl View for Engine {
    type V = EngineState;

    closed spec fn view(&self) -> EngineState {
        EngineState {
            phase: self.phase,
            draining: self.draining,
            target: self.target as nat,
            line: self.cursor.line.0 as nat,
            pos: self.cursor.pos as nat,
            file_id: self.file_id,
            pending_id: self.pending_id,
            pending_line: match self.pending_line {
                Some(l) => Some(l@),
                None => None,
            },
            pending_nbytes: self.pending_nbytes as nat,
            open_max: spec_budget(self.open_policy.max_attempts),
            open_wait: self.open_policy.wait_millis as nat,
            open_attempts: self.open_attempts as nat,
            probe_max: spec_budget(self.probe_policy.max_attempts),
            probe_wait: self.probe_policy.wait_millis as nat,
            probe_attempts: self.probe_attempts as nat,
            poll_wait: self.poll_wait_millis as nat,
            emitted: self.emitted@,
        }
    }
}

impl Engine {
    /// A fresh engine for one run of `chaser`, about to attempt the first
    /// open. The host's first action is [`Engine::first_action`].
    pub fn new(chaser: &Chaser) -> (e: Engine)
        ensures
            e@ == initial_state(*chaser),
    {
        let e = Engine {
            phase: Phase::Opening,
            draining: false,
            target: chaser.line.0,
            cursor: PositionTracker::new(),
            file_id: None,
            pending_id: None,
            pending_line: None,
            pending_nbytes: 0,
            open_policy: RetryPolicy::new(
                chaser.initial_no_file_attempts,
                chaser.initial_no_file_wait_millis,
            ),
            open_attempts: 0,
            probe_policy: RetryPolicy::new(
                chaser.rotation_check_attempts,
                chaser.rotation_check_wait_millis,
            ),
            probe_attempts: 0,
            poll_wait_millis: chaser.not_rotated_wait_millis,
            emitted: Ghost(Seq::empty()),
        };
        proof {
            assert(e@ =~= initial_state(*chaser));
        }
        e
    }

    /// The action a fresh engine starts with: open the path.
    pub fn first_action(&self) -> (a: Action)
        requires
            self@.phase == Phase::Opening,
        ensures
            a@ == Act::Open,
    {
        Action::Open
    }

    /// Feed the outcome of the last action; get the next action. The engine
    /// moves exactly as [`step_spec`] says.
    pub fn step(&mut self, event: Event) -> (action: Action)
        requires
            permits(old(self)@, event@),
        ensures
            final(self)@ == next(old(self)@, event@),
            action@ == next_action(old(self)@, event@),
    {
        match event {
            Event::Opened(id) => {
                match self.phase {
                    Phase::Opening => {
                        self.file_id = Some(id);
                        self.cursor.reset();
                        self.phase = if self.target > 0 {
                            Phase::Skipping
                        } else {
                            Phase::Streaming
                        };
                        Action::Read { offset: 0 }
                    },
                    _ => Action::Finish { outcome: RunOutcome::Stopped },
                }
            },
            Event::OpenFailed => {
                match self.phase {
                    Phase::Opening => {
                        match self.open_policy.max_attempts {
                            None => {
                                self.phase = Phase::OpenBackoff;
                                Action::Sleep { millis: self.open_policy.wait_millis }
                            },
                            Some(_) => {
                                let made = self.open_attempts + 1;
                                self.open_attempts = made;
                                if self.open_policy.allows_retry(made) {
                                    self.phase = Phase::OpenBackoff;
                                    Action::Sleep { millis: self.open_policy.wait_millis }
                                } else {
                                    self.phase = Phase::Failed;
                                    Action::Finish {
                                        outcome: RunOutcome::Failed(ChaseError::AttemptsExhausted),
                                    }
                                }
                            },
                        }
                    },
                    _ => Action::Finish { outcome: RunOutcome::Stopped },
                }
            },
            Event::Read { line, nbytes } => {
                match self.phase {
                    Phase::Skipping => {
                        self.cursor.advance(nbytes);
                        self.phase = if self.cursor.line.0 < self.target {
                            Phase::Skipping
                        } else {
                            Phase::Streaming
                        };
                        Action::Read { offset: self.cursor.pos }
                    },
                    Phase::Streaming => {
                        let stripped = strip_trailing_newlines(line.as_str());
                        self.pending_line = Some(stripped.clone());
                        self.pending_nbytes = nbytes;
                        self.phase = Phase::Emitting;
                        Action::Emit { line: stripped }
                    },
                    _ => Action::Finish { outcome: RunOutcome::Stopped },
                }
            },
            Event::ReadEof => {
                match self.phase {
                    Phase::Skipping => {
                        self.phase = Phase::Streaming;
                        Action::Read { offset: self.cursor.pos }
                    },
                    Phase::Streaming => {
                        if self.draining {
                            self.phase = Phase::Promoting;
                            Action::Promote
                        } else {
                            self.probe_attempts = 0;
                            self.phase = Phase::Probing;
                            Action::Probe
                        }
                    },
                    _ => Action::Finish { outcome: RunOutcome::Stopped },
                }
            },
            Event::ReadFailed => {
                match self.phase {
                    Phase::Skipping | Phase::Streaming => {
                        self.phase = Phase::Failed;
                        Action::Finish { outcome: RunOutcome::Failed(ChaseError::Io) }
                    },
                    _ => Action::Finish { outcome: RunOutcome::Stopped },
                }
            },
            Event::SinkAck(c) => {
                match self.phase {
                    Phase::Emitting => {
                        let delivered: Option<String> = match &self.pending_line {
                            Some(l) => Some(l.clone()),
                            None => None,
                        };
                        match delivered {
                            Some(l) => {
                                self.emitted = Ghost(self.emitted@.push(l@));
                                match c {
                                    Control::Continue => {
                                        self.pending_line = None;
                                        self.cursor.advance(self.pending_nbytes);
                                        self.pending_nbytes = 0;
                                        self.phase = Phase::Streaming;
                                        Action::Read { offset: self.cursor.pos }
                                    },
                                    Control::Stop => {
                                        self.pending_line = None;
                                        self.pending_nbytes = 0;
                                        self.phase = Phase::Done;
                                        Action::Finish { outcome: RunOutcome::Stopped }
                                    },
                                }
                            },
                            None => Action::Finish { outcome: RunOutcome::Stopped },
                        }
                    },
                    _ => Action::Finish { outcome: RunOutcome::Stopped },
                }
            },
            Event::SinkClosed => {
                match self.phase {
                    Phase::Emitting => {
                        self.phase = Phase::Failed;
                        Action::Finish { outcome: RunOutcome::Failed(ChaseError::Emission) }
                    },
                    _ => Action::Finish { outcome: RunOutcome::Stopped },
                }
            },
            Event::SinkAborted => {
                match self.phase {
                    Phase::Emitting => {
                        self.phase = Phase::Failed;
                        Action::Finish { outcome: RunOutcome::Failed(ChaseError::Custom) }
                    },
                    _ => Action::Finish { outcome: RunOutcome::Stopped },
                }
            },
            Event::Slept => {
                match self.phase {
                    Phase::OpenBackoff => {
                        self.phase = Phase::Opening;
                        Action::Open
                    },
                    Phase::ProbeBackoff => {
                        self.phase = Phase::Probing;
                        Action::Probe
                    },
                    Phase::PollWait => {
                        self.phase = Phase::Streaming;
                        Action::Read { offset: self.cursor.pos }
                    },
                    _ => Action::Finish { outcome: RunOutcome::Stopped },
                }
            },
            Event::Probed(id) => {
                match self.phase {
                    Phase::Probing => {
                        match self.file_id {
                            Some(cur) => {
                                match rotation_outcome(cur, id) {
                                    RotationOutcome::NotRotated => {
                                        self.phase = Phase::PollWait;
                                        Action::Sleep { millis: self.poll_wait_millis }
                                    },
                                    RotationOutcome::Rotated { file_id } => {
                                        self.pending_id = Some(file_id);
                                        self.draining = true;
                                        self.phase = Phase::Streaming;
                                        Action::Read { offset: self.cursor.pos }
                                    },
                                }
                            },
                            None => Action::Probe,
                        }
                    },
                    _ => Action::Finish { outcome: RunOutcome::Stopped },
                }
            },
            Event::ProbeFailed => {
                match self.phase {
                    Phase::Probing => {
                        match self.probe_policy.max_attempts {
                            None => {
                                self.phase = Phase::ProbeBackoff;
                                Action::Sleep { millis: self.probe_policy.wait_millis }
                            },
                            Some(_) => {
                                let made = self.probe_attempts + 1;
                                self.probe_attempts = made;
                                if self.probe_policy.allows_retry(made) {
                                    self.phase = Phase::ProbeBackoff;
                                    Action::Sleep { millis: self.probe_policy.wait_millis }
                                } else {
                                    self.phase = Phase::Failed;
                                    Action::Finish {
                                        outcome: RunOutcome::Failed(ChaseError::AttemptsExhausted),
                                    }
                                }
                            },
                        }
                    },
                    _ => Action::Finish { outcome: RunOutcome::Stopped },
                }
            },
            Event::Promoted => {
                match self.phase {
                    Phase::Promoting => {
                        self.file_id = self.pending_id;
                        self.pending_id = None;
                        self.cursor.reset();
                        self.draining = false;
                        self.phase = Phase::Streaming;
                        Action::Read { offset: 0 }
                    },
                    _ => Action::Finish { outcome: RunOutcome::Stopped },
                }
            },
        }
    }

    /// The number of lines consumed from the current handle so far; after a
    /// run this is the cursor a fresh chaser could resume from.
    pub fn current_line(&self) -> (n: Line)
        ensures
            n.0 as nat == self@.line,
    {
        self.cursor.line
    }

    /// The byte offset consumed from the current handle so far.
    pub fn byte_pos(&self) -> (p: u64)
        ensures
            p as nat == self@.pos,
    {
        self.cursor.pos
    }

    /// Where the engine stands.
    pub fn phase(&self) -> (p: Phase)
        ensures
            p == self@.phase,
    {
        self.phase
    }

    /// Whether the run is over (cleanly or with a failure).
    pub fn is_finished(&self) -> (b: bool)
        ensures
            b == (self@.phase == Phase::Done || self@.phase == Phase::Failed),
    {
        match self.phase {
            Phase::Done | Phase::Failed => true,
            _ => false,
        }
    }
}

} // verus!
