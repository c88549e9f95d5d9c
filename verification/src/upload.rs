//! The upload client's record lifecycle and bounded retry loop. The host
//! moves the bytes; every decision — how a record progresses, when a retry
//! happens, how long the backoff is, what the terminal record holds — is
//! made and proved here.

use vstd::prelude::*;
use crate::errors::UploadError;
use crate::errors::spec_message;
use crate::paths;
use crate::response;
use crate::time;
use crate::types::UploadRecord;
use crate::types::UploadStatus;

verus! {

/// Attempts per upload, in all.
pub const MAX_RETRIES: u32 = 3;

/// The fixed backoff table: seconds slept after the n-th failed attempt
/// (no sleep follows the final attempt).
pub open spec fn spec_backoff(attempt: int) -> int {
    if attempt == 1 {
        1
    } else if attempt == 2 {
        2
    } else {
        4
    }
}

/// Seconds to sleep after failed attempt number `attempt`.
pub fn backoff_secs(attempt: u32) -> (r: u64)
    requires
        1 <= attempt <= MAX_RETRIES,
    ensures
        r == spec_backoff(attempt as int),
{
    if attempt == 1 {
        1
    } else if attempt == 2 {
        2
    } else {
        4
    }
}

/// The display name of an uploaded file: the path's file name, or a fixed
/// placeholder when the path has none.
pub open spec fn spec_filename_for(path: Seq<char>) -> Seq<char> {
    if paths::file_name_seq(path).len() > 0 {
        paths::file_name_seq(path)
    } else {
        "unknown.replay"@
    }
}

/// Relies on uuid's `Uuid::new_v4` and its `Display`: a random version-4
/// UUID, rendered hyphenated as 36 characters. Nothing else is assumed of
/// the drawn value.
#[verifier::external_body]
fn fresh_upload_id() -> (r: String)
    ensures
        r@.len() == 36,
{
    uuid::Uuid::new_v4().to_string()
}

/// Build the initial record for one upload of `file_path`.
pub fn new_record(id: String, file_path: &str, created_at: String) -> (r: UploadRecord)
    ensures
        r.id == id,
        r.filename@ == spec_filename_for(file_path@),
        r.file_path@ == file_path@,
        r.status is Pending,
        r.replay_id is None,
        r.replay_url is None,
        r.error_message is None,
        r.attempts == 0,
        r.created_at == created_at,
        r.completed_at is None,
        r.file_size is None,
{
    let filename = match paths::file_name_of(file_path) {
        Some(n) => n,
        None => {
            let placeholder = "unknown.replay";
            placeholder.to_owned()
        },
    };
    UploadRecord {
        id,
        filename,
        file_path: file_path.to_owned(),
        status: UploadStatus::Pending,
        replay_id: None,
        replay_url: None,
        error_message: None,
        attempts: 0,
        created_at,
        completed_at: None,
        file_size: None,
    }
}

/// Build the initial record with a fresh identifier and the current time.
pub fn create_record(file_path: &str) -> (r: UploadRecord)
    ensures
        r.id@.len() == 36,
        r.filename@ == spec_filename_for(file_path@),
        r.file_path@ == file_path@,
        r.status is Pending,
        r.replay_id is None,
        r.replay_url is None,
        r.error_message is None,
        r.attempts == 0,
        r.completed_at is None,
        r.file_size is None,
{
    new_record(fresh_upload_id(), file_path, time::now_rfc3339())
}

/// Start the next attempt: the attempt counter advances and the record is
/// uploading. Terminal records are never begun again.
pub fn begin_attempt(rec: &mut UploadRecord)
    requires
        old(rec).attempts < MAX_RETRIES,
        old(rec).status is Pending || old(rec).status is Uploading,
    ensures
        final(rec).attempts == old(rec).attempts + 1,
        final(rec).status is Uploading,
        final(rec).status.rank() >= old(rec).status.rank(),
        final(rec).id == old(rec).id,
        final(rec).filename == old(rec).filename,
        final(rec).file_path == old(rec).file_path,
        final(rec).replay_id == old(rec).replay_id,
        final(rec).replay_url == old(rec).replay_url,
        final(rec).error_message == old(rec).error_message,
        final(rec).created_at == old(rec).created_at,
        final(rec).completed_at == old(rec).completed_at,
        final(rec).file_size == old(rec).file_size,
{
    rec.attempts = rec.attempts + 1;
    rec.status = UploadStatus::Uploading;
}

/// Conclude a successful attempt: the record completes with the replay's
/// identifier, its user-facing URL, and the completion timestamp.
pub fn record_attempt_success(rec: &mut UploadRecord, replay_id: String, completed_at: String)
    requires
        old(rec).status is Uploading,
    ensures
        final(rec).status is Completed,
        final(rec).status.rank() >= old(rec).status.rank(),
        final(rec).replay_id matches Some(rid) && rid == replay_id,
        final(rec).replay_url matches Some(url) && url@ == response::spec_replay_url(replay_id@),
        final(rec).completed_at matches Some(c) && c == completed_at,
        final(rec).error_message == old(rec).error_message,
        final(rec).attempts == old(rec).attempts,
        final(rec).id == old(rec).id,
        final(rec).filename == old(rec).filename,
        final(rec).file_path == old(rec).file_path,
        final(rec).created_at == old(rec).created_at,
        final(rec).file_size == old(rec).file_size,
{
    rec.replay_url = Some(response::replay_url_for(replay_id.as_str()));
    rec.replay_id = Some(replay_id);
    rec.completed_at = Some(completed_at);
    rec.status = UploadStatus::Completed;
}

/// Conclude a failed attempt. While attempts remain the record is left as
/// it stands and the backoff to sleep is returned; on the final attempt
/// the record fails, keeping only this last error's message.
pub fn record_attempt_failure(rec: &mut UploadRecord, error: &UploadError) -> (retry: Option<u64>)
    requires
        old(rec).status is Uploading,
        1 <= old(rec).attempts <= MAX_RETRIES,
    ensures
        old(rec).attempts < MAX_RETRIES ==> (retry matches Some(d) && d == spec_backoff(
            old(rec).attempts as int,
        ) && *final(rec) == *old(rec)),
        final(rec).status.rank() >= old(rec).status.rank(),
        old(rec).attempts == MAX_RETRIES ==> retry is None && final(rec).status is Failed && (
        final(rec).error_message matches Some(m) && m@ == spec_message(*error))
            && final(rec).attempts == old(rec).attempts && final(rec).id == old(rec).id
            && final(rec).filename == old(rec).filename && final(rec).file_path == old(
            rec,
        ).file_path && final(rec).replay_id == old(rec).replay_id && final(rec).replay_url == old(
            rec,
        ).replay_url && final(rec).created_at == old(rec).created_at && final(rec).completed_at
            == old(rec).completed_at && final(rec).file_size == old(rec).file_size,
{
    if rec.attempts < MAX_RETRIES {
        Some(backoff_secs(rec.attempts))
    } else {
        rec.status = UploadStatus::Failed;
        rec.error_message = Some(error.message());
        None
    }
}

/// The outcome the host observed for one attempt.
#[derive(Debug)]
pub enum AttemptOutcome {
    /// The transfer succeeded and the response yielded this replay
    /// identifier.
    Success(String),
    /// The attempt failed with this error.
    Failure(UploadError),
}

/// Which attempts succeed, in order.
pub open spec fn successes_of(outcomes: Seq<AttemptOutcome>) -> Seq<bool> {
    outcomes.map_values(|o: AttemptOutcome| o is Success)
}

/// How many attempts the retry loop makes: it stops at the first success,
/// and never tries more than `MAX_RETRIES` times.
pub open spec fn spec_attempts_used(succ: Seq<bool>) -> int
    recommends
        succ.len() >= MAX_RETRIES,
{
    if succ[0] {
        1
    } else if succ[1] {
        2
    } else {
        3
    }
}

/// Whether any of the first `MAX_RETRIES` attempts succeeds.
pub open spec fn spec_any_success(succ: Seq<bool>) -> bool
    recommends
        succ.len() >= MAX_RETRIES,
{
    succ[0] || succ[1] || succ[2]
}

/// The total backoff the loop sleeps: the table entries after each failed
/// non-final attempt, and nothing after the final attempt, successful or
/// not.
pub open spec fn spec_total_backoff(succ: Seq<bool>) -> int
    recommends
        succ.len() >= MAX_RETRIES,
{
    if succ[0] {
        0
    } else if succ[1] {
        spec_backoff(1)
    } else {
        spec_backoff(1) + spec_backoff(2)
    }
}

/// The whole retry loop, driven by a script of attempt outcomes: one
/// record accumulates all attempts; the loop stops at the first success or
/// after `MAX_RETRIES` failures; backoff is slept between attempts only.
///
/// Its contract is the retry policy's law: on the first success at attempt
/// `k <= 3` the record completes with `attempts == k` after `1 + 2 + ...`
/// seconds of backoff for the `k - 1` failures before it; with no success
/// in 3 attempts the record fails with `attempts == 3` after 3 seconds of
/// total backoff, keeping the last error's message.
pub fn run_upload(
    file_path: &str,
    outcomes: &Vec<AttemptOutcome>,
    id: String,
    created_at: String,
    completed_at: String,
) -> (r: (UploadRecord, u64))
    requires
        outcomes@.len() >= MAX_RETRIES,
    ensures
        ({
            let succ = successes_of(outcomes@);
            let rec = r.0;
            let used = spec_attempts_used(succ);
            &&& rec.attempts == used
            &&& r.1 == spec_total_backoff(succ)
            &&& rec.status is Completed <==> spec_any_success(succ)
            &&& !spec_any_success(succ) ==> rec.status is Failed && (outcomes@[2] matches
                AttemptOutcome::Failure(e) && (rec.error_message matches Some(m) && m@
                == spec_message(e))) && rec.replay_id is None && rec.replay_url is None
                && rec.completed_at is None
            &&& spec_any_success(succ) ==> (outcomes@[used - 1] matches AttemptOutcome::Success(
                rid,
            ) && rec.replay_id == Some(rid) && (rec.replay_url matches Some(u) && u@
                == response::spec_replay_url(rid@)) && rec.completed_at == Some(completed_at)
                && rec.error_message is None)
            &&& rec.id == id
            &&& rec.filename@ == spec_filename_for(file_path@)
            &&& rec.file_path@ == file_path@
            &&& rec.created_at == created_at
        }),
{
    let ghost succ = successes_of(outcomes@);
    let mut rec = new_record(id, file_path, created_at);
    let mut total_backoff: u64 = 0;
    let mut i: u32 = 0;
    while i < MAX_RETRIES
        invariant
            outcomes@.len() >= MAX_RETRIES,
            succ == successes_of(outcomes@),
            i < MAX_RETRIES,
            rec.attempts == i,
            i > 0 ==> rec.status is Uploading,
            i == 0 ==> rec.status is Pending,
            forall|j: int| 0 <= j < i ==> !succ[j],
            total_backoff == (if i == 0 {
                0int
            } else if i == 1 {
                spec_backoff(1)
            } else {
                spec_backoff(1) + spec_backoff(2)
            }),
            rec.id == id,
            rec.filename@ == spec_filename_for(file_path@),
            rec.file_path@ == file_path@,
            rec.created_at == created_at,
            rec.replay_id is None,
            rec.replay_url is None,
            rec.error_message is None,
            rec.completed_at is None,
        decreases MAX_RETRIES - i,
    {
        begin_attempt(&mut rec);
        i = i + 1;
        proof {
            assert(succ[i - 1] == (outcomes@[i - 1] is Success));
        }
        match &outcomes[(i - 1) as usize] {
            AttemptOutcome::Success(rid) => {
                record_attempt_success(&mut rec, rid.clone(), completed_at);
                proof {
                    assert(spec_attempts_used(succ) == i);
                }
                return (rec, total_backoff);
            },
            AttemptOutcome::Failure(e) => {
                match record_attempt_failure(&mut rec, e) {
                    Some(d) => {
                        total_backoff = total_backoff + d;
                    },
                    None => {
                        proof {
                            assert(!spec_any_success(succ));
                        }
                        return (rec, total_backoff);
                    },
                }
            },
        }
    }
    // the invariant keeps the counter below MAX_RETRIES, so the loop can
    // only end by returning from an attempt
    proof {
        assert(false);
    }
    (rec, total_backoff)
}

} // verus!
