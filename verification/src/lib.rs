//! A file-tailing engine: given a file path and a starting line number, it
//! decides how to continuously emit newly appended lines, detecting file
//! rotation (the path being replaced by a new underlying file) and resuming
//! after transient absence of the file.
//!
//! The engine itself performs no I/O. It is a state machine: the host feeds
//! it the outcome of each blocking operation (an open, a read, a sink send, a
//! sleep, a rotation probe, a handle swap) as an [`engine::Event`], and the
//! engine answers with the next [`engine::Action`] to perform. Every
//! decision — skipping to the starting line, byte-accurate position tracking,
//! rotation detection, draining the old handle, retry budgets — is made here
//! and verified. The [`laws`] module proves what whole runs emit: lines come
//! out exactly as appended, in order, none lost or repeated across a
//! rotation, none emitted while skipping or waiting for the file to appear.

use vstd::prelude::*;
use vstd::string::StringExecFns;

pub mod data;
pub mod engine;
pub mod laws;
pub mod position;
pub mod retry;
pub mod rotation;
pub mod text;

pub use data::ChaseError;
pub use data::Chaser;
pub use data::Control;
pub use data::FileId;
pub use data::Line;
pub use data::RunOutcome;
pub use engine::Action;
pub use engine::Engine;
pub use engine::Event;
pub use rotation::RotationOutcome;

verus! {

/// Name for a dedicated chasing thread, derived from the target path.
pub fn thread_namer(path: &str) -> (name: String)
    ensures
        name@ == "chase-thread-"@ + path@,
{
    let mut name = "chase-thread-".to_owned();
    name.append(path);
    name
}

} // verus!
