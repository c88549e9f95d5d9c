//! The session manager: token-expiry policy and the cookie-refresh
//! protocol. The HTTP exchange itself is the host's; every decision about
//! it — when to refresh, what a response status means, which tokens the
//! `Set-Cookie` headers carry, what the stored session becomes — is made
//! and proved here.

use vstd::prelude::*;
use vstd::string::StrSliceExecFns;
use vstd::string::StringExecFns;
use crate::errors::UploadError;
use crate::text;
use crate::text::views_of;
use crate::time;
use crate::types::AuthSession;
use crate::types::dup_opt_string;

verus! {

/// A token expiring within this many seconds of now is treated as expired.
pub const REFRESH_BUFFER_SECS: i64 = 300;

/// Lifetime of a freshly refreshed access token.
pub const ACCESS_TTL_SECS: i64 = 1800;

/// Lifetime of a freshly refreshed refresh token.
pub const REFRESH_TTL_SECS: i64 = 604800;

/// The expiry policy: refresh exactly when the token expires at or before
/// now plus the buffer.
pub open spec fn spec_needs_refresh(expiry_secs: i64, now_secs: i64) -> bool {
    expiry_secs <= now_secs + REFRESH_BUFFER_SECS
}

/// Whether an access token expiring at `expiry_secs` must be refreshed.
pub fn needs_refresh(expiry_secs: i64, now_secs: i64) -> (r: bool)
    ensures
        r == spec_needs_refresh(expiry_secs, now_secs),
{
    (expiry_secs as i128) <= (now_secs as i128) + (REFRESH_BUFFER_SECS as i128)
}

/// What to do with a session before an upload attempt.
#[derive(Debug, Clone, PartialEq, Eq, Structural)]
pub enum SessionPlan {
    /// The access token is fresh enough to use as it stands.
    UseAsIs,
    /// The access token is expired or about to expire: refresh first.
    Refresh,
}

/// Decide whether the session can be used or must be refreshed; a session
/// whose stored expiry does not parse fails with the invalid-expiry
/// condition.
pub fn ensure_valid_plan(session: &AuthSession, now_secs: i64) -> (r: Result<
    SessionPlan,
    UploadError,
>)
    ensures
        match time::rfc3339_secs(session.access_token_expiry@) {
            None => r matches Err(e) && e is InvalidExpiry,
            Some(expiry) => r matches Ok(p) && (p is Refresh <==> spec_needs_refresh(
                expiry,
                now_secs,
            )),
        },
{
    match time::parse_rfc3339_secs(session.access_token_expiry.as_str()) {
        None => Err(UploadError::InvalidExpiry),
        Some(expiry) => {
            if needs_refresh(expiry, now_secs) {
                Ok(SessionPlan::Refresh)
            } else {
                Ok(SessionPlan::UseAsIs)
            }
        },
    }
}

/// The prefix of `s` before its first `';'` (all of `s` when there is
/// none).
pub open spec fn before_semi(s: Seq<char>) -> Seq<char>
    decreases s.len(),
{
    if s.len() == 0 {
        s
    } else if s[0] == ';' {
        Seq::empty()
    } else {
        seq![s[0]] + before_semi(s.skip(1))
    }
}

/// The token a `Set-Cookie` header carries for a cookie name: the text
/// after the literal prefix (e.g. `access_token=`) up to the first `';'`,
/// or nothing when the header is for another cookie.
pub open spec fn spec_cookie_value(cookie: Seq<char>, prefix: Seq<char>) -> Option<Seq<char>> {
    if text::has_prefix(cookie, prefix) {
        Some(before_semi(cookie.skip(prefix.len() as int)))
    } else {
        None
    }
}

proof fn lemma_before_semi(t: Seq<char>, j: int)
    requires
        0 <= j <= t.len(),
        forall|k: int| 0 <= k < j ==> t[k] != ';',
        j < t.len() ==> t[j] == ';',
    ensures
        before_semi(t) == t.take(j),
    decreases t.len(),
{
    if t.len() == 0 {
        assert(before_semi(t) =~= t.take(j));
    } else if j == 0 {
        assert(before_semi(t) =~= t.take(j));
    } else {
        lemma_before_semi(t.skip(1), j - 1);
        assert(before_semi(t) == seq![t[0]] + t.skip(1).take(j - 1));
        assert(seq![t[0]] + t.skip(1).take(j - 1) =~= t.take(j));
    }
}

/// Extract one cookie's value from one `Set-Cookie` header.
pub fn cookie_value(cookie: &str, prefix: &str) -> (r: Option<String>)
    ensures
        match spec_cookie_value(cookie@, prefix@) {
            Some(v) => r matches Some(s) && s@ == v,
            None => r is None,
        },
{
    if !text::starts_with_str(cookie, prefix) {
        return None;
    }
    let len = cookie.unicode_len();
    let p_len = prefix.unicode_len();
    let mut j: usize = p_len;
    let mut found = false;
    while !found && j < len
        invariant
            p_len <= j <= len,
            len == cookie@.len(),
            p_len == prefix@.len(),
            forall|k: int| p_len <= k < j ==> cookie@[k] != ';',
            found ==> j < len && cookie@[j as int] == ';',
        decreases len - j, (if found { 0int } else { 1int }),
    {
        if cookie.get_char(j) == ';' {
            found = true;
        } else {
            j += 1;
        }
    }
    proof {
        let t = cookie@.skip(p_len as int);
        assert forall|k: int| 0 <= k < j - p_len implies t[k] != ';' by {
            assert(t[k] == cookie@[p_len + k]);
        }
        if j < len {
            assert(t[j - p_len] == cookie@[j as int]);
        }
        lemma_before_semi(t, j - p_len);
        assert(t.take(j - p_len) =~= cookie@.subrange(p_len as int, j as int));
    }
    let v = cookie.substring_char(p_len, j);
    Some(v.to_owned())
}

/// The value the last matching `Set-Cookie` header assigns to a cookie
/// name; headers are scanned in order and a later one overwrites an
/// earlier one.
pub open spec fn spec_last_cookie(cookies: Seq<Seq<char>>, prefix: Seq<char>) -> Option<Seq<char>>
    decreases cookies.len(),
{
    if cookies.len() == 0 {
        None::<Seq<char>>
    } else {
        match spec_cookie_value(cookies.last(), prefix) {
            Some(v) => Some(v),
            None => spec_last_cookie(cookies.drop_last(), prefix),
        }
    }
}

/// Scan all `Set-Cookie` headers for a cookie's value.
pub fn last_cookie_value(cookies: &Vec<String>, prefix: &str) -> (r: Option<String>)
    ensures
        match spec_last_cookie(views_of(cookies@), prefix@) {
            Some(v) => r matches Some(s) && s@ == v,
            None => r is None,
        },
{
    let ghost t = views_of(cookies@);
    let mut cur: Option<String> = None;
    let mut i: usize = 0;
    let n = cookies.len();
    while i < n
        invariant
            i <= n,
            n == cookies@.len(),
            t == views_of(cookies@),
            match spec_last_cookie(t.take(i as int), prefix@) {
                Some(v) => cur matches Some(s) && s@ == v,
                None => cur is None,
            },
        decreases n - i,
    {
        proof {
            assert(t.take(i + 1).drop_last() =~= t.take(i as int));
            assert(t.take(i + 1).last() == t[i as int]);
            assert(t[i as int] == cookies@[i as int]@);
        }
        match cookie_value(cookies[i].as_str(), prefix) {
            Some(v) => {
                cur = Some(v);
            },
            None => {},
        }
        i += 1;
    }
    proof {
        assert(t.take(n as int) =~= t);
    }
    cur
}

/// What the refresh protocol concluded from the endpoint's response.
#[derive(Debug, Clone)]
pub enum RefreshOutcome {
    /// Success: the session to persist and use.
    Refreshed(AuthSession),
    /// The endpoint answered 401: the session is revoked and must be
    /// cleared; the user has to re-authorize.
    Revoked,
    /// Any other non-success status: a transient refresh failure, subject
    /// to the caller's retry policy.
    Failed(u16),
}

/// An HTTP success status.
pub open spec fn spec_is_success(status: u16) -> bool {
    200 <= status < 300
}

/// Interpret the refresh endpoint's response: status 401 is revocation,
/// distinct from every other failure; on success the new tokens come from
/// the `Set-Cookie` headers, each falling back to its previous value when
/// its cookie is absent, and the new expiries are fixed lifetimes from
/// now.
pub fn apply_refresh_response(
    session: &AuthSession,
    status: u16,
    set_cookies: &Vec<String>,
    now_secs: i64,
) -> (r: RefreshOutcome)
    requires
        0 <= now_secs,
        now_secs + REFRESH_TTL_SECS <= time::MAX_FORMAT_SECS,
    ensures
        status == 401 ==> r is Revoked,
        status != 401 && !spec_is_success(status) ==> (r matches RefreshOutcome::Failed(s) && s == status),
        spec_is_success(status) ==> (r matches RefreshOutcome::Refreshed(ns) && {
            &&& ns.access_token@ == (match spec_last_cookie(
                views_of(set_cookies@),
                "access_token="@,
            ) {
                Some(v) => v,
                None => session.access_token@,
            })
            &&& ns.refresh_token@ == (match spec_last_cookie(
                views_of(set_cookies@),
                "refresh_token="@,
            ) {
                Some(v) => v,
                None => session.refresh_token@,
            })
            &&& time::rfc3339_secs(ns.access_token_expiry@) == Some(
                (now_secs + ACCESS_TTL_SECS) as i64,
            )
            &&& time::rfc3339_secs(ns.refresh_token_expiry@) == Some(
                (now_secs + REFRESH_TTL_SECS) as i64,
            )
            &&& ns.user == session.user
            &&& ns.device_id == session.device_id
        }),
{
    if status == 401 {
        return RefreshOutcome::Revoked;
    }
    if status < 200 || status >= 300 {
        return RefreshOutcome::Failed(status);
    }
    let access_token = match last_cookie_value(set_cookies, "access_token=") {
        Some(v) => v,
        None => session.access_token.clone(),
    };
    let refresh_token = match last_cookie_value(set_cookies, "refresh_token=") {
        Some(v) => v,
        None => session.refresh_token.clone(),
    };
    let new_session = AuthSession {
        access_token,
        refresh_token,
        access_token_expiry: time::format_rfc3339_secs(now_secs + ACCESS_TTL_SECS),
        refresh_token_expiry: time::format_rfc3339_secs(now_secs + REFRESH_TTL_SECS),
        user: session.user.duplicate(),
        device_id: dup_opt_string(&session.device_id),
    };
    RefreshOutcome::Refreshed(new_session)
}

/// What the session store holds after a refresh outcome: revocation clears
/// the stored session; success replaces it; a transient failure keeps the
/// previous one.
pub fn stored_session_after(outcome: &RefreshOutcome, previous: &AuthSession) -> (r: Option<
    AuthSession,
>)
    ensures
        outcome matches RefreshOutcome::Refreshed(ns) ==> (r matches Some(s) && s == ns),
        outcome is Revoked ==> r is None,
        outcome is Failed ==> r == Some(*previous),
{
    match outcome {
        RefreshOutcome::Refreshed(ns) => Some(ns.duplicate()),
        RefreshOutcome::Revoked => None,
        RefreshOutcome::Failed(_) => Some(previous.duplicate()),
    }
}

/// The error a refresh outcome surfaces to the upload attempt, if any:
/// revocation is the distinct fatal kind, any other failure the generic
/// retryable one.
pub fn refresh_error(outcome: &RefreshOutcome) -> (r: Option<UploadError>)
    ensures
        outcome is Refreshed ==> r is None,
        outcome is Revoked ==> (r matches Some(e) && e is AuthRevoked),
        outcome matches RefreshOutcome::Failed(s) ==> (r matches Some(e) && e matches
            UploadError::RefreshFailed(f) && f == s),
{
    match outcome {
        RefreshOutcome::Refreshed(_) => None,
        RefreshOutcome::Revoked => Some(UploadError::AuthRevoked),
        RefreshOutcome::Failed(s) => Some(UploadError::RefreshFailed(*s)),
    }
}

} // verus!
