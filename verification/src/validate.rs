//! The validation policy for candidate replay files. The checks themselves
//! are decisions over plain observations (a metadata lookup, an existence
//! probe); the host performs the lookups and the settle delay and hands the
//! observations here.

use vstd::prelude::*;
use vstd::string::StrSliceExecFns;
use crate::paths;

verus! {

/// Largest accepted replay file, in bytes (50 MiB).
pub const MAX_FILE_SIZE: u64 = 52428800;

/// Seconds the watcher waits after first seeing a candidate file, so that
/// slow writers can finish and short-lived temporary files can disappear.
pub const SETTLE_DELAY_SECS: u64 = 2;

/// What a metadata lookup observed about a path.
#[derive(Debug, Clone, Copy, PartialEq, Eq, Structural)]
pub struct FileMeta {
    /// The path names a regular file (not a directory).
    pub is_file: bool,
    /// Size in bytes.
    pub len: u64,
}

/// Accept a candidate file only if it is no larger than `MAX_FILE_SIZE`;
/// rejection is strictly-greater-than.
pub fn size_ok(size: u64) -> (r: bool)
    ensures
        r == (size <= MAX_FILE_SIZE),
{
    size <= MAX_FILE_SIZE
}

/// The checks made before the settle delay: replay extension, a metadata
/// lookup that succeeded, a regular file, and a size within the limit.
pub open spec fn spec_precheck(path: Seq<char>, meta: Option<FileMeta>) -> bool {
    &&& paths::spec_is_replay_path(path)
    &&& meta matches Some(m) && m.is_file && m.len <= MAX_FILE_SIZE
}

/// The checks made after the settle delay: the file still exists, its
/// metadata can still be read, and it is no longer empty.
pub open spec fn spec_postcheck(exists: bool, meta: Option<FileMeta>) -> bool {
    &&& exists
    &&& meta matches Some(m) && m.len != 0
}

/// The whole validation policy.
pub open spec fn spec_validation_passes(
    path: Seq<char>,
    meta: Option<FileMeta>,
    exists_after_delay: bool,
    meta_after_delay: Option<FileMeta>,
) -> bool {
    spec_precheck(path, meta) && spec_postcheck(exists_after_delay, meta_after_delay)
}

/// Decide the pre-delay checks from the first metadata observation.
pub fn validate_precheck(path: &str, meta: &Option<FileMeta>) -> (r: bool)
    ensures
        r == spec_precheck(path@, *meta),
{
    if !paths::is_replay_path(path) {
        return false;
    }
    match meta {
        Some(m) => m.is_file && size_ok(m.len),
        None => false,
    }
}

/// Decide the post-delay checks from the second observation.
pub fn validate_postcheck(exists: bool, meta_after_delay: &Option<FileMeta>) -> (r: bool)
    ensures
        r == spec_postcheck(exists, *meta_after_delay),
{
    if !exists {
        return false;
    }
    match meta_after_delay {
        Some(m) => m.len != 0,
        None => false,
    }
}

/// The full validation decision for one candidate path: `Some` carries the
/// validated path, `None` rejects it with no further action.
pub fn validate_file(
    path: &str,
    meta: &Option<FileMeta>,
    exists_after_delay: bool,
    meta_after_delay: &Option<FileMeta>,
) -> (r: Option<String>)
    ensures
        r is Some == spec_validation_passes(path@, *meta, exists_after_delay, *meta_after_delay),
        r matches Some(p) ==> p@ == path@,
{
    if validate_precheck(path, meta) && validate_postcheck(exists_after_delay, meta_after_delay) {
        Some(path.to_owned())
    } else {
        None
    }
}

} // verus!
