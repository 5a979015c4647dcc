//! Core data types: line counters, file identities, sink control signals,
//! the error taxonomy, and the `Chaser` configuration.

use vstd::prelude::*;

verus! {

/// Count of whole lines already consumed from the current file (0-based).
#[derive(Debug, Copy, Clone, PartialEq, Eq, PartialOrd, Ord, Structural)]
pub struct Line(pub usize);

/// Stable, equality-comparable identity of an open file's underlying storage
/// object. On POSIX systems the host fills `device`/`index` from the device
/// and inode numbers; on Windows from the volume serial number and the
/// 128-bit file id. Two handles on the same underlying file compare equal; a
/// handle opened after rotation compares unequal to the identity recorded
/// before rotation. No ordering is defined or needed.
#[derive(Debug, Copy, Clone, PartialEq, Eq, Structural)]
pub struct FileId {
    pub device: u64,
    pub index: u128,
}

/// The sink's verdict after each delivered line: keep running or end the run.
#[derive(Debug, Copy, Clone, PartialEq, Eq, Structural)]
pub enum Control {
    Continue,
    Stop,
}

/// The kinds of failure that can terminate a run. The host keeps the
/// underlying payload (such as the operating-system error) and attaches it
/// when surfacing the failure; the engine decides only the kind.
#[derive(Debug, Copy, Clone, PartialEq, Eq, Structural)]
pub enum ChaseError {
    /// A read or seek on an already-open handle failed mid-stream.
    Io,
    /// The sink's channel closed or the sink rejected delivery.
    Emission,
    /// A bounded retry budget ran out; the host holds the last I/O error.
    AttemptsExhausted,
    /// The sink callback aborted the run with an application-specific error.
    Custom,
}

/// How a whole run ended: cleanly (the sink said `Stop`) or with exactly one
/// terminal error.
#[derive(Debug, Copy, Clone, PartialEq, Eq, Structural)]
pub enum RunOutcome {
    Stopped,
    Failed(ChaseError),
}

/// Default wait between attempts of the initial open and of each
/// rotation-check open, in milliseconds.
pub const DEFAULT_ROTATION_CHECK_WAIT_MILLIS: u64 = 100;

/// Default wait before polling again after a probe found no rotation,
/// in milliseconds.
pub const DEFAULT_NOT_ROTATED_WAIT_MILLIS: u64 = 50;

/// Configuration for a chase plus the resumption cursor: the target path,
/// the starting line number, and the retry/wait policy knobs. After a run,
/// `line` holds the last consumed line number, so a fresh `Chaser` could
/// resume from there.
#[derive(Debug, Clone)]
pub struct Chaser {
    /// Starting line: how many complete lines present at open time to skip.
    pub line: Line,
    /// The path the host opens; the engine itself never touches the filesystem.
    pub path: String,
    /// Wait between attempts of the initial open, in milliseconds.
    pub initial_no_file_wait_millis: u64,
    /// Attempt budget for the initial open; `None` retries forever.
    pub initial_no_file_attempts: Option<usize>,
    /// Wait between attempts of each rotation-check open, in milliseconds.
    pub rotation_check_wait_millis: u64,
    /// Attempt budget for each rotation check; `None` retries forever.
    pub rotation_check_attempts: Option<usize>,
    /// Wait before polling again when a probe found no rotation, in milliseconds.
    pub not_rotated_wait_millis: u64,
}

impl Chaser {
    /// A chaser for `path` that skips the first `line` complete lines, with
    /// unbounded retries and the default waits.
    pub fn new(path: String, line: Line) -> (c: Chaser)
        ensures
            c.path@ == path@,
            c.line == line,
            c.initial_no_file_wait_millis == DEFAULT_ROTATION_CHECK_WAIT_MILLIS,
            c.initial_no_file_attempts is None,
            c.rotation_check_wait_millis == DEFAULT_ROTATION_CHECK_WAIT_MILLIS,
            c.rotation_check_attempts is None,
            c.not_rotated_wait_millis == DEFAULT_NOT_ROTATED_WAIT_MILLIS,
    {
        Chaser {
            line,
            path,
            initial_no_file_wait_millis: DEFAULT_ROTATION_CHECK_WAIT_MILLIS,
            initial_no_file_attempts: None,
            rotation_check_wait_millis: DEFAULT_ROTATION_CHECK_WAIT_MILLIS,
            rotation_check_attempts: None,
            not_rotated_wait_millis: DEFAULT_NOT_ROTATED_WAIT_MILLIS,
        }
    }
}

} // verus!
