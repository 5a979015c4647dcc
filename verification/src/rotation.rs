//! Rotation detection: comparing the identity resolved from a fresh open of
//! the path against the identity of the handle currently being read decides
//! whether the path now refers to a different underlying file.

use vstd::prelude::*;
use crate::data::FileId;

verus! {

/// The result of a rotation probe. On `Rotated`, the host must keep the
/// freshly opened handle (whose identity is carried here) rather than reopen
/// later — reopening could itself race against another rotation.
#[derive(Debug, Copy, Clone, PartialEq, Eq, Structural)]
pub enum RotationOutcome {
    /// The path now refers to a different underlying file.
    Rotated { file_id: FileId },
    /// The path still refers to the file currently being read.
    NotRotated,
}

/// Decide whether a freshly probed identity means the path was rotated away
/// from the handle identified by `current`: equal means not rotated; unequal
/// means rotated, and the probed identity is the new file's.
pub fn rotation_outcome(current: FileId, probed: FileId) -> (r: RotationOutcome)
    ensures
        probed == current ==> r == RotationOutcome::NotRotated,
        probed != current ==> r == (RotationOutcome::Rotated { file_id: probed }),
{
    if probed == current {
        RotationOutcome::NotRotated
    } else {
        RotationOutcome::Rotated { file_id: probed }
    }
}

} // verus!
