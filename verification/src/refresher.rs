//! The refresher: a long-lived loop that periodically exchanges the
//! application id/secret for a fresh access token and installs it into
//! the Credential Store. The exchange itself is a network call made by an
//! outer loop; each iteration's decision — install or skip, and when to
//! run next — is here.

use vstd::prelude::*;

use crate::credential::{BotState, CredentialStore, with_token};

verus! {

/// What the authentication provider answers a successful token exchange
/// with: the fresh token and its validity window in seconds.
pub struct TokenResponse {
    pub access_token: String,
    pub expires_in: u64,
}

/// What the refresher loop does after one iteration: whether to go on
/// (it always does — a failed exchange never terminates the loop) and how
/// many seconds to sleep before the next exchange.
pub struct RefresherDirective {
    pub keep_running: bool,
    pub next_delay_secs: u64,
}

/// Seconds to wait before retrying after a failed exchange.
pub const FAILED_REFRESH_RETRY_SECS: u64 = 60;

/// The sleep before the next refresh: half the token's validity window,
/// so the store is never left holding an expired token under normal
/// operation — the period is strictly shorter than the window.
pub fn refresh_delay(expires_in: u64) -> (r: u64)
    ensures
        r == expires_in / 2,
        expires_in >= 1 ==> r < expires_in,
{
    expires_in / 2
}

/// One refresher iteration over the credential state. A successful
/// exchange installs exactly the fresh token, keeps the API key, and
/// schedules the next refresh within the token's validity window; a
/// failed exchange leaves the state entirely unchanged — the stale token
/// is better than none — and schedules a retry. Either way the loop goes
/// on.
pub fn refresh_step(state: &mut BotState, result: Option<TokenResponse>) -> (r: RefresherDirective)
    ensures
        r.keep_running,
        result matches Some(t) ==> final(state)@ == with_token(old(state)@, t.access_token@)
            && r.next_delay_secs == t.expires_in / 2,
        result is None ==> final(state)@ == old(state)@
            && r.next_delay_secs == FAILED_REFRESH_RETRY_SECS,
{
    match result {
        Some(t) => {
            let next_delay_secs = refresh_delay(t.expires_in);
            state.install_token(t.access_token);
            RefresherDirective { keep_running: true, next_delay_secs }
        },
        None => RefresherDirective { keep_running: true, next_delay_secs: FAILED_REFRESH_RETRY_SECS },
    }
}

/// Apply one exchange outcome to the shared store: a fresh token is
/// installed under the write lock; a failed exchange is skipped without
/// ever taking the lock, so the stored token stays as it was. The loop is
/// never told to stop.
pub fn apply_refresh(store: &CredentialStore, result: Option<TokenResponse>) -> (r:
    RefresherDirective)
    ensures
        r.keep_running,
        result matches Some(t) ==> r.next_delay_secs == t.expires_in / 2,
        result is None ==> r.next_delay_secs == FAILED_REFRESH_RETRY_SECS,
{
    match result {
        Some(t) => {
            let next_delay_secs = refresh_delay(t.expires_in);
            store.write_token(t.access_token);
            RefresherDirective { keep_running: true, next_delay_secs }
        },
        None => RefresherDirective { keep_running: true, next_delay_secs: FAILED_REFRESH_RETRY_SECS },
    }
}

} // verus!
