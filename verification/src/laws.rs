//! The engine's guarantees, proved over the transition relation
//! [`crate::engine::step_spec`]. A host drives the engine by answering each
//! action with the event that reports its outcome; these lemmas say what any
//! such run does to the abstract state — above all to the trace of emitted
//! lines — whatever the line contents, the byte counts, the number of poll
//! cycles, or the number of retry rounds.

use vstd::prelude::*;
use crate::data::ChaseError;
use crate::data::Chaser;
use crate::data::Control;
use crate::data::FileId;
use crate::data::RunOutcome;
use crate::engine::Act;
use crate::engine::EngineState;
use crate::engine::Ev;
use crate::engine::Phase;
use crate::engine::initial_state;
use crate::engine::next;
use crate::engine::next_action;
use crate::engine::permits;
use crate::text::strip_newlines_spec;

verus! {

/// One raw line as the host reads it: its characters (terminator included)
/// and the number of bytes its read consumed.
pub struct RawLine {
    pub chars: Seq<char>,
    pub nbytes: nat,
}

/// The state after feeding the events of `es` in order, starting from `s`.
pub open spec fn run(s: EngineState, es: Seq<Ev>) -> EngineState
    decreases es.len(),
{
    if es.len() == 0 {
        s
    } else {
        run(next(s, es.first()), es.drop_first())
    }
}

/// Running a concatenation of event sequences is running one after the other.
pub proof fn lemma_run_concat(s: EngineState, a: Seq<Ev>, b: Seq<Ev>)
    ensures
        run(s, a + b) == run(run(s, a), b),
    decreases a.len(),
{
    if a.len() == 0 {
        assert(a + b =~= b);
    } else {
        assert((a + b).drop_first() =~= a.drop_first() + b);
        assert((a + b).first() == a.first());
        lemma_run_concat(next(s, a.first()), a.drop_first(), b);
    }
}

proof fn lemma_run_one(s: EngineState, e: Ev)
    ensures
        run(s, seq![e]) == next(s, e),
{
    assert(seq![e].first() == e);
    assert(seq![e].drop_first() =~= Seq::<Ev>::empty());
    assert(run(next(s, e), Seq::<Ev>::empty()) == next(s, e));
}

proof fn lemma_run_two(s: EngineState, e1: Ev, e2: Ev)
    ensures
        run(s, seq![e1, e2]) == next(next(s, e1), e2),
{
    assert(seq![e1, e2].drop_first() =~= seq![e2]);
    lemma_run_one(next(s, e1), e2);
}

/// The events of reading `rs` line by line, the sink acknowledging each one
/// with `Continue`.
pub open spec fn stream_events(rs: Seq<RawLine>) -> Seq<Ev>
    decreases rs.len(),
{
    if rs.len() == 0 {
        Seq::empty()
    } else {
        seq![
            Ev::Read { chars: rs.first().chars, nbytes: rs.first().nbytes },
            Ev::SinkAck(Control::Continue),
        ] + stream_events(rs.drop_first())
    }
}

/// The lines of `rs` as they are emitted: in order, trailing newlines
/// stripped, nothing else changed.
pub open spec fn stripped(rs: Seq<RawLine>) -> Seq<Seq<char>>
    decreases rs.len(),
{
    if rs.len() == 0 {
        Seq::empty()
    } else {
        seq![strip_newlines_spec(rs.first().chars)] + stripped(rs.drop_first())
    }
}

/// The total byte length of the raw lines of `rs`.
pub open spec fn bytes_total(rs: Seq<RawLine>) -> nat
    decreases rs.len(),
{
    if rs.len() == 0 {
        0
    } else {
        rs.first().nbytes + bytes_total(rs.drop_first())
    }
}

/// A streaming engine that reads the lines `rs` and is told to continue after
/// each one emits exactly those lines, in the order they were read, appended
/// to whatever it had emitted before; its cursor advances by their count and
/// their byte total, and nothing else about it changes. This holds both live
/// and while draining a rotated-away handle.
pub proof fn lemma_streaming_emits_in_order(s: EngineState, rs: Seq<RawLine>)
    requires
        s.phase == Phase::Streaming,
        s.pending_line is None,
        s.pending_nbytes == 0,
    ensures
        run(s, stream_events(rs)) == (EngineState {
            line: s.line + rs.len(),
            pos: s.pos + bytes_total(rs),
            emitted: s.emitted + stripped(rs),
            ..s
        }),
    decreases rs.len(),
{
    if rs.len() == 0 {
        assert(s.emitted + stripped(rs) =~= s.emitted);
        assert(run(s, stream_events(rs)) =~= (EngineState {
            line: s.line + rs.len(),
            pos: s.pos + bytes_total(rs),
            emitted: s.emitted + stripped(rs),
            ..s
        }));
    } else {
        let r = rs.first();
        let e1 = Ev::Read { chars: r.chars, nbytes: r.nbytes };
        let e2 = Ev::SinkAck(Control::Continue);
        assert(stream_events(rs) =~= seq![e1, e2] + stream_events(rs.drop_first()));
        lemma_run_concat(s, seq![e1, e2], stream_events(rs.drop_first()));
        lemma_run_two(s, e1, e2);
        let s1 = next(next(s, e1), e2);
        lemma_streaming_emits_in_order(s1, rs.drop_first());
        assert(s1.emitted + stripped(rs.drop_first()) =~= s.emitted + stripped(rs));
        assert(run(s, stream_events(rs)) =~= (EngineState {
            line: s.line + rs.len(),
            pos: s.pos + bytes_total(rs),
            emitted: s.emitted + stripped(rs),
            ..s
        }));
    }
}

/// One poll cycle at end of file: the read reports end of file, the probe
/// finds the same identity, the engine sleeps and reads again.
pub open spec fn poll_cycle(id: FileId) -> Seq<Ev> {
    seq![Ev::ReadEof, Ev::Probed(id), Ev::Slept]
}

/// A poll cycle that finds no rotation leaves the engine exactly where it
/// was: same cursor, same identity, nothing emitted, back to streaming
/// (only the probe budget of the finished check is reset).
pub proof fn lemma_poll_cycle_changes_nothing(s: EngineState, id: FileId)
    requires
        s.phase == Phase::Streaming,
        !s.draining,
        s.file_id == Some(id),
    ensures
        run(s, poll_cycle(id)) == (EngineState { probe_attempts: 0, ..s }),
{
    let s1 = next(s, Ev::ReadEof);
    let s2 = next(s1, Ev::Probed(id));
    lemma_run_two(s, Ev::ReadEof, Ev::Probed(id));
    assert(poll_cycle(id) =~= seq![Ev::ReadEof, Ev::Probed(id)] + seq![Ev::Slept]);
    lemma_run_concat(s, seq![Ev::ReadEof, Ev::Probed(id)], seq![Ev::Slept]);
    lemma_run_one(s2, Ev::Slept);
    assert(run(s, poll_cycle(id)) =~= (EngineState { probe_attempts: 0, ..s }));
}

/// Lines appended in separate bursts, a poll cycle between consecutive
/// bursts finding the file unrotated each time.
pub open spec fn polled_appends(chunks: Seq<Seq<RawLine>>, id: FileId) -> Seq<Ev>
    decreases chunks.len(),
{
    if chunks.len() == 0 {
        Seq::empty()
    } else {
        stream_events(chunks.first()) + poll_cycle(id) + polled_appends(chunks.drop_first(), id)
    }
}

/// The emissions such bursts produce: each burst's lines in order, stripped.
pub open spec fn stripped_chunks(chunks: Seq<Seq<RawLine>>) -> Seq<Seq<char>>
    decreases chunks.len(),
{
    if chunks.len() == 0 {
        Seq::empty()
    } else {
        stripped(chunks.first()) + stripped_chunks(chunks.drop_first())
    }
}

/// With no rotation, the emitted lines are exactly the appended lines, in
/// append order, however many poll cycles elapse between appends: reading
/// burst after burst, with an end-of-file poll between bursts that finds the
/// same file each time, appends precisely the stripped lines of every burst
/// to the emission trace, and the engine is streaming the same file after.
pub proof fn lemma_no_rotation_emits_appends_in_order(
    s: EngineState,
    chunks: Seq<Seq<RawLine>>,
    id: FileId,
)
    requires
        s.phase == Phase::Streaming,
        !s.draining,
        s.pending_line is None,
        s.pending_nbytes == 0,
        s.file_id == Some(id),
    ensures
        run(s, polled_appends(chunks, id)).emitted == s.emitted + stripped_chunks(chunks),
        run(s, polled_appends(chunks, id)).phase == Phase::Streaming,
        !run(s, polled_appends(chunks, id)).draining,
        run(s, polled_appends(chunks, id)).pending_line is None,
        run(s, polled_appends(chunks, id)).pending_nbytes == 0,
        run(s, polled_appends(chunks, id)).file_id == Some(id),
    decreases chunks.len(),
{
    if chunks.len() == 0 {
        assert(s.emitted + stripped_chunks(chunks) =~= s.emitted);
    } else {
        let c0 = chunks.first();
        let rest = chunks.drop_first();
        assert(polled_appends(chunks, id) =~= (stream_events(c0) + poll_cycle(id))
            + polled_appends(rest, id));
        lemma_run_concat(s, stream_events(c0) + poll_cycle(id), polled_appends(rest, id));
        lemma_run_concat(s, stream_events(c0), poll_cycle(id));
        lemma_streaming_emits_in_order(s, c0);
        let s1 = run(s, stream_events(c0));
        lemma_poll_cycle_changes_nothing(s1, id);
        let s2 = run(s1, poll_cycle(id));
        lemma_no_rotation_emits_appends_in_order(s2, rest, id);
        assert((s.emitted + stripped(c0)) + stripped_chunks(rest) =~= s.emitted + stripped_chunks(
            chunks,
        ));
    }
}

/// The events of a whole rotation: the read hits end of file, the probe
/// resolves a different identity, the lines still left on the old handle are
/// drained and emitted, its end of file is reached, the host swaps handles,
/// and the new file's lines are read and emitted from the top.
pub open spec fn rotation_events(
    old_rest: Seq<RawLine>,
    new_id: FileId,
    new_lines: Seq<RawLine>,
) -> Seq<Ev> {
    seq![Ev::ReadEof, Ev::Probed(new_id)] + stream_events(old_rest) + seq![
        Ev::ReadEof,
        Ev::Promoted,
    ] + stream_events(new_lines)
}

/// Across a rotation, no line is emitted twice and none is lost: every line
/// still unread on the pre-rotation file is emitted, in order, before any
/// line of the post-rotation file, and the new file's lines follow in order.
/// Afterwards the engine streams the new file under its identity, its line
/// count and byte offset counting the new file alone.
pub proof fn lemma_rotation_loses_and_repeats_nothing(
    s: EngineState,
    old_rest: Seq<RawLine>,
    new_id: FileId,
    new_lines: Seq<RawLine>,
)
    requires
        s.phase == Phase::Streaming,
        !s.draining,
        s.pending_line is None,
        s.pending_nbytes == 0,
        s.file_id is Some,
        s.file_id != Some(new_id),
    ensures
        run(s, rotation_events(old_rest, new_id, new_lines)).emitted == s.emitted + stripped(
            old_rest,
        ) + stripped(new_lines),
        run(s, rotation_events(old_rest, new_id, new_lines)) == (EngineState {
            line: new_lines.len() as nat,
            pos: bytes_total(new_lines),
            file_id: Some(new_id),
            pending_id: None,
            probe_attempts: 0,
            emitted: s.emitted + stripped(old_rest) + stripped(new_lines),
            ..s
        }),
{
    let start = seq![Ev::ReadEof, Ev::Probed(new_id)];
    let swap = seq![Ev::ReadEof, Ev::Promoted];
    let es = rotation_events(old_rest, new_id, new_lines);
    assert(es =~= ((start + stream_events(old_rest)) + swap) + stream_events(new_lines));
    lemma_run_concat(s, (start + stream_events(old_rest)) + swap, stream_events(new_lines));
    lemma_run_concat(s, start + stream_events(old_rest), swap);
    lemma_run_concat(s, start, stream_events(old_rest));
    lemma_run_two(s, Ev::ReadEof, Ev::Probed(new_id));
    let s1 = run(s, start);
    lemma_streaming_emits_in_order(s1, old_rest);
    let s2 = run(s1, stream_events(old_rest));
    lemma_run_two(s2, Ev::ReadEof, Ev::Promoted);
    let s3 = run(s2, swap);
    lemma_streaming_emits_in_order(s3, new_lines);
    assert(run(s, es) =~= (EngineState {
        line: new_lines.len() as nat,
        pos: bytes_total(new_lines),
        file_id: Some(new_id),
        pending_id: None,
        probe_attempts: 0,
        emitted: s.emitted + stripped(old_rest) + stripped(new_lines),
        ..s
    }));
}

/// After a rotation's drain completes, promoting the pending handle resets
/// the tracked line number and byte offset to zero — whatever starting line
/// the run was configured with — and the first post-rotation action is a
/// read of the new file's very first byte, so the first post-rotation
/// emission is the new file's first line.
pub proof fn lemma_promotion_resets_cursor(s: EngineState)
    requires
        s.phase == Phase::Streaming,
        s.draining,
    ensures
        next(s, Ev::ReadEof).phase == Phase::Promoting,
        next_action(s, Ev::ReadEof) == Act::Promote,
        run(s, seq![Ev::ReadEof, Ev::Promoted]) == (EngineState {
            phase: Phase::Streaming,
            draining: false,
            line: 0,
            pos: 0,
            file_id: s.pending_id,
            pending_id: None,
            ..s
        }),
        next_action(next(s, Ev::ReadEof), Ev::Promoted) == (Act::Read { offset: 0 }),
{
    lemma_run_two(s, Ev::ReadEof, Ev::Promoted);
    assert(run(s, seq![Ev::ReadEof, Ev::Promoted]) =~= (EngineState {
        phase: Phase::Streaming,
        draining: false,
        line: 0,
        pos: 0,
        file_id: s.pending_id,
        pending_id: None,
        ..s
    }));
}

/// `n` rounds of the initial open failing and the engine sleeping before the
/// next attempt.
pub open spec fn open_fail_cycles(n: nat) -> Seq<Ev>
    decreases n,
{
    if n == 0 {
        Seq::empty()
    } else {
        seq![Ev::OpenFailed, Ev::Slept] + open_fail_cycles((n - 1) as nat)
    }
}

/// If the target path does not exist at run start, an engine with an
/// unbounded open budget retries forever without emitting anything: after any
/// number of failed rounds it is unchanged, still about to open, and the
/// moment an open succeeds it begins the session on that file.
pub proof fn lemma_absent_file_retries_without_emitting(s: EngineState, n: nat, id: FileId)
    requires
        s.phase == Phase::Opening,
        s.open_max is None,
    ensures
        run(s, open_fail_cycles(n)) == s,
        run(s, open_fail_cycles(n).push(Ev::Opened(id))) == (EngineState {
            phase: if s.target > 0 {
                Phase::Skipping
            } else {
                Phase::Streaming
            },
            line: 0,
            pos: 0,
            file_id: Some(id),
            ..s
        }),
    decreases n,
{
    if n == 0 {
        assert(run(s, open_fail_cycles(n)) == s);
    } else {
        assert(open_fail_cycles(n) =~= seq![Ev::OpenFailed, Ev::Slept] + open_fail_cycles(
            (n - 1) as nat,
        ));
        lemma_run_concat(s, seq![Ev::OpenFailed, Ev::Slept], open_fail_cycles((n - 1) as nat));
        lemma_run_two(s, Ev::OpenFailed, Ev::Slept);
        assert(run(s, seq![Ev::OpenFailed, Ev::Slept]) =~= s);
        lemma_absent_file_retries_without_emitting(s, (n - 1) as nat, id);
    }
    assert(open_fail_cycles(n).push(Ev::Opened(id)) =~= open_fail_cycles(n) + seq![
        Ev::Opened(id),
    ]);
    lemma_run_concat(s, open_fail_cycles(n), seq![Ev::Opened(id)]);
    lemma_run_one(s, Ev::Opened(id));
    assert(run(s, open_fail_cycles(n).push(Ev::Opened(id))) =~= (EngineState {
        phase: if s.target > 0 {
            Phase::Skipping
        } else {
            Phase::Streaming
        },
        line: 0,
        pos: 0,
        file_id: Some(id),
        ..s
    }));
}

/// With a bounded open budget, the failure that spends the last allowed
/// attempt ends the run with the budget exhausted.
pub proof fn lemma_bounded_open_exhausts(s: EngineState, max: nat)
    requires
        s.phase == Phase::Opening,
        s.open_max == Some(max),
        s.open_attempts + 1 >= max,
    ensures
        next(s, Ev::OpenFailed).phase == Phase::Failed,
        next_action(s, Ev::OpenFailed) == (Act::Finish {
            outcome: RunOutcome::Failed(ChaseError::AttemptsExhausted),
        }),
{
}

/// The reads that skip `rs` while fast-forwarding: no line is handed to the
/// sink.
pub open spec fn skip_events(rs: Seq<RawLine>) -> Seq<Ev>
    decreases rs.len(),
{
    if rs.len() == 0 {
        Seq::empty()
    } else {
        seq![Ev::Read { chars: rs.first().chars, nbytes: rs.first().nbytes }] + skip_events(
            rs.drop_first(),
        )
    }
}

/// Fast-forwarding over exactly as many lines as the starting line asks for
/// skips them all — nothing is emitted — and streaming begins right after
/// them, the byte offset standing at their total length.
pub proof fn lemma_skip_reaches_starting_line(s: EngineState, rs: Seq<RawLine>)
    requires
        s.phase == Phase::Skipping,
        s.line < s.target,
        s.line + rs.len() == s.target,
    ensures
        run(s, skip_events(rs)) == (EngineState {
            phase: Phase::Streaming,
            line: s.target,
            pos: s.pos + bytes_total(rs),
            ..s
        }),
    decreases rs.len(),
{
    let r = rs.first();
    let e1 = Ev::Read { chars: r.chars, nbytes: r.nbytes };
    assert(skip_events(rs) =~= seq![e1] + skip_events(rs.drop_first()));
    lemma_run_concat(s, seq![e1], skip_events(rs.drop_first()));
    lemma_run_one(s, e1);
    let s1 = next(s, e1);
    if rs.len() == 1 {
        assert(skip_events(rs.drop_first()) =~= Seq::<Ev>::empty());
        assert(run(s1, Seq::<Ev>::empty()) == s1);
        assert(bytes_total(rs.drop_first()) == 0);
        assert(run(s, skip_events(rs)) =~= (EngineState {
            phase: Phase::Streaming,
            line: s.target,
            pos: s.pos + bytes_total(rs),
            ..s
        }));
    } else {
        lemma_skip_reaches_starting_line(s1, rs.drop_first());
        assert(run(s, skip_events(rs)) =~= (EngineState {
            phase: Phase::Streaming,
            line: s.target,
            pos: s.pos + bytes_total(rs),
            ..s
        }));
    }
}

/// When the starting line exceeds the file's current line count, the
/// fast-forward consumes the whole file, emits nothing, and streaming simply
/// begins from the end the file had — the skip is not an error.
pub proof fn lemma_skip_past_short_file(s: EngineState, rs: Seq<RawLine>)
    requires
        s.phase == Phase::Skipping,
        s.line < s.target,
        s.line + rs.len() < s.target,
    ensures
        run(s, skip_events(rs) + seq![Ev::ReadEof]) == (EngineState {
            phase: Phase::Streaming,
            line: s.line + rs.len(),
            pos: s.pos + bytes_total(rs),
            ..s
        }),
    decreases rs.len(),
{
    if rs.len() == 0 {
        assert(skip_events(rs) + seq![Ev::ReadEof] =~= seq![Ev::ReadEof]);
        lemma_run_one(s, Ev::ReadEof);
        assert(run(s, skip_events(rs) + seq![Ev::ReadEof]) =~= (EngineState {
            phase: Phase::Streaming,
            line: s.line + rs.len(),
            pos: s.pos + bytes_total(rs),
            ..s
        }));
    } else {
        let r = rs.first();
        let e1 = Ev::Read { chars: r.chars, nbytes: r.nbytes };
        assert(skip_events(rs) + seq![Ev::ReadEof] =~= seq![e1] + (skip_events(rs.drop_first())
            + seq![Ev::ReadEof]));
        lemma_run_concat(s, seq![e1], skip_events(rs.drop_first()) + seq![Ev::ReadEof]);
        lemma_run_one(s, e1);
        lemma_skip_past_short_file(next(s, e1), rs.drop_first());
        assert(run(s, skip_events(rs) + seq![Ev::ReadEof]) =~= (EngineState {
            phase: Phase::Streaming,
            line: s.line + rs.len(),
            pos: s.pos + bytes_total(rs),
            ..s
        }));
    }
}

/// The events of one whole session: the path absent for `n_absent` rounds,
/// then opened as the file identified by `id`; the starting line's worth of
/// lines skipped; bursts of appended lines streamed, a poll between
/// consecutive bursts finding no rotation; then one rotation — the probe
/// resolves `new_id`, the old handle's remainder is drained, and the new
/// file's lines stream from the top.
pub open spec fn session_events(
    n_absent: nat,
    id: FileId,
    skipped: Seq<RawLine>,
    chunks: Seq<Seq<RawLine>>,
    old_rest: Seq<RawLine>,
    new_id: FileId,
    new_lines: Seq<RawLine>,
) -> Seq<Ev> {
    open_fail_cycles(n_absent) + seq![Ev::Opened(id)] + skip_events(skipped) + polled_appends(
        chunks,
        id,
    ) + rotation_events(old_rest, new_id, new_lines)
}

/// A whole run, end to end: however long the file is absent, nothing is
/// emitted while waiting; the first `starting_line` lines are skipped and
/// never emitted; and from then on the emission trace is exactly the lines
/// appended — burst by burst, then the rotated-away file's remainder, then
/// the new file's lines — each stripped of its trailing newline, in append
/// order, nothing lost, nothing repeated. The engine ends streaming the new
/// file, its cursor counting the new file alone.
pub proof fn lemma_whole_session_emits_exactly_the_appends(
    c: Chaser,
    n_absent: nat,
    id: FileId,
    skipped: Seq<RawLine>,
    chunks: Seq<Seq<RawLine>>,
    old_rest: Seq<RawLine>,
    new_id: FileId,
    new_lines: Seq<RawLine>,
)
    requires
        c.initial_no_file_attempts is None,
        c.line.0 == skipped.len(),
        new_id != id,
    ensures
        ({
            let t = run(
                initial_state(c),
                session_events(n_absent, id, skipped, chunks, old_rest, new_id, new_lines),
            );
            &&& t.emitted == stripped_chunks(chunks) + stripped(old_rest) + stripped(new_lines)
            &&& t.phase == Phase::Streaming
            &&& !t.draining
            &&& t.file_id == Some(new_id)
            &&& t.line == new_lines.len()
            &&& t.pos == bytes_total(new_lines)
        }),
{
    let s0 = initial_state(c);
    let opening = open_fail_cycles(n_absent) + seq![Ev::Opened(id)];
    let skip = skip_events(skipped);
    let polled = polled_appends(chunks, id);
    let rotation = rotation_events(old_rest, new_id, new_lines);
    let es = session_events(n_absent, id, skipped, chunks, old_rest, new_id, new_lines);
    assert(es =~= ((opening + skip) + polled) + rotation);
    lemma_run_concat(s0, (opening + skip) + polled, rotation);
    lemma_run_concat(s0, opening + skip, polled);
    lemma_run_concat(s0, opening, skip);
    assert(open_fail_cycles(n_absent).push(Ev::Opened(id)) =~= opening);
    lemma_absent_file_retries_without_emitting(s0, n_absent, id);
    let s1 = run(s0, opening);
    assert(s1.emitted =~= Seq::<Seq<char>>::empty());
    let s2 = run(s1, skip);
    if skipped.len() == 0 {
        assert(s1.phase == Phase::Streaming);
        assert(skip =~= Seq::<Ev>::empty());
        assert(s2 == s1);
    } else {
        assert(s1.phase == Phase::Skipping);
        lemma_skip_reaches_starting_line(s1, skipped);
    }
    lemma_no_rotation_emits_appends_in_order(s2, chunks, id);
    let s3 = run(s2, polled);
    assert(s3.emitted =~= stripped_chunks(chunks));
    lemma_rotation_loses_and_repeats_nothing(s3, old_rest, new_id, new_lines);
}

/// A sink verdict of `Stop` ends the run cleanly on the spot: the line the
/// sink just received is the last one recorded, the run's outcome carries no
/// error, and the engine is done — no event is admitted any more, so no
/// further read, probe or sleep can be requested.
pub proof fn lemma_stop_halts_cleanly(s: EngineState, l: Seq<char>)
    requires
        s.phase == Phase::Emitting,
        s.pending_line == Some(l),
    ensures
        next(s, Ev::SinkAck(Control::Stop)) == (EngineState {
            phase: Phase::Done,
            pending_line: None,
            pending_nbytes: 0,
            emitted: s.emitted.push(l),
            ..s
        }),
        next_action(s, Ev::SinkAck(Control::Stop)) == (Act::Finish {
            outcome: RunOutcome::Stopped,
        }),
        forall|e: Ev| !permits(next(s, Ev::SinkAck(Control::Stop)), e),
{
    assert(next(s, Ev::SinkAck(Control::Stop)) =~= (EngineState {
        phase: Phase::Done,
        pending_line: None,
        pending_nbytes: 0,
        emitted: s.emitted.push(l),
        ..s
    }));
}

} // verus!
