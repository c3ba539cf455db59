//! Requests of the public that an administrator decides on.

use vstd::prelude::*;
use crate::text::clone_opt;

verus! {

/// The part of a request that decisions change.
pub struct ReviewState {
    pub status: String,
    pub admin_note: Option<String>,
    pub failure_reason: Option<String>,
    pub imported_account_name: Option<String>,
    pub issued_key_id: Option<String>,
    pub issued_key_name: Option<String>,
    pub updated_at_ms: i64,
    pub processed_at_ms: Option<i64>,
}

/// The account that a contribution offers, with its credentials.
pub struct ContributedAccount {
    pub account_id: Option<String>,
    pub id_token: String,
    pub access_token: String,
    pub refresh_token: String,
}

/// A decision.
pub struct AdminReviewQueueAction {
    pub admin_note: Option<String>,
    pub updated_at_ms: i64,
}

/// A key that was created for a request.
pub struct CreatedKey {
    pub id: String,
    pub name: String,
}

/// Whether a key is to be created: one is asked for and none was issued before.
pub fn creates_key(state: &ReviewState, key_wanted: bool) -> (result: bool)
    ensures
        result == (key_wanted && state.issued_key_id is None),
{
    key_wanted && state.issued_key_id.is_none()
}

/// Whether an account is to be created: one is given and none was imported before.
pub fn creates_account(state: &ReviewState, account_given: bool) -> (result: bool)
    ensures
        result == (account_given && state.imported_account_name is None),
{
    account_given && state.imported_account_name.is_none()
}

/// Whether a key goes to a group of accounts: only a new one.
pub fn routes_key_to_group(state: &ReviewState, key_wanted: bool, group_given: bool) -> (result: bool)
    ensures
        result == (key_wanted && state.issued_key_id is None && group_given),
{
    creates_key(state, key_wanted) && group_given
}

/// The key of a request once it is issued: the one issued before, else the new one.
pub open spec fn issued_key(state: ReviewState, created: Option<CreatedKey>) -> (
    Option<String>,
    Option<String>,
) {
    match state.issued_key_id {
        Some(id) => (Some(id), state.issued_key_name),
        None => match created {
            Some(key) => (Some(key.id), Some(key.name)),
            None => (None, None),
        },
    }
}

/// A request with a decision noted on it.
pub open spec fn decided(
    before: ReviewState,
    after: ReviewState,
    status: Seq<char>,
    failure_reason: Option<String>,
    action: AdminReviewQueueAction,
    processed_at_ms: Option<i64>,
) -> bool {
    &&& after == (ReviewState {
        status: after.status,
        admin_note: action.admin_note,
        failure_reason,
        updated_at_ms: action.updated_at_ms,
        processed_at_ms,
        ..before
    })
    &&& after.status@ == status
}

fn decide(
    state: &mut ReviewState,
    status: &str,
    failure_reason: Option<String>,
    action: &AdminReviewQueueAction,
    processed_at_ms: Option<i64>,
)
    ensures
        decided(*old(state), *final(state), status@, failure_reason, *action, processed_at_ms),
{
    state.status = status.to_owned();
    state.admin_note = clone_opt(&action.admin_note);
    state.failure_reason = failure_reason;
    state.updated_at_ms = action.updated_at_ms;
    state.processed_at_ms = processed_at_ms;
}

/// Issues a token request. `created` is the key that was created for it.
pub fn issue_admin_token_request(
    state: &mut ReviewState,
    created: Option<CreatedKey>,
    action: &AdminReviewQueueAction,
)
    ensures
        decided(
            ReviewState {
                issued_key_id: issued_key(*old(state), created).0,
                issued_key_name: issued_key(*old(state), created).1,
                ..*old(state)
            },
            *final(state),
            "issued"@,
            None,
            *action,
            Some(action.updated_at_ms),
        ),
{
    if state.issued_key_id.is_none() {
        match created {
            Some(key) => {
                state.issued_key_id = Some(key.id);
                state.issued_key_name = Some(key.name);
            },
            None => {
                state.issued_key_name = None;
            },
        }
    }
    decide(state, "issued", None, action, Some(action.updated_at_ms));
}

/// Rejects a token request. Gives the key that is to be disabled.
pub fn reject_admin_token_request(state: &mut ReviewState, action: &AdminReviewQueueAction) -> (key:
    Option<String>)
    ensures
        decided(
            *old(state),
            *final(state),
            "rejected"@,
            None,
            *action,
            Some(action.updated_at_ms),
        ),
        key == old(state).issued_key_id,
{
    decide(state, "rejected", None, action, Some(action.updated_at_ms));
    clone_opt(&state.issued_key_id)
}

/// Issues a contribution. `account` is the account that was created for it.
pub fn issue_admin_account_contribution_request(
    state: &mut ReviewState,
    account: Option<String>,
    created: Option<CreatedKey>,
    action: &AdminReviewQueueAction,
)
    ensures
        decided(
            ReviewState {
                imported_account_name: match old(state).imported_account_name {
                    Some(name) => Some(name),
                    None => account,
                },
                issued_key_id: issued_key(*old(state), created).0,
                issued_key_name: issued_key(*old(state), created).1,
                ..*old(state)
            },
            *final(state),
            "issued"@,
            None,
            *action,
            Some(action.updated_at_ms),
        ),
{
    if state.imported_account_name.is_none() {
        state.imported_account_name = account;
    }
    issue_admin_token_request(state, created, action);
}

/// Marks a contribution as one whose credentials work, and keeps the account as it was
/// `checked`. It waits for a decision again. `validated` is the status of such contributions.
pub fn validate_admin_account_contribution_request(
    state: &mut ReviewState,
    account: &mut ContributedAccount,
    checked: ContributedAccount,
    validated: &str,
    action: &AdminReviewQueueAction,
)
    ensures
        decided(*old(state), *final(state), validated@, None, *action, None),
        *final(account) == checked,
{
    *account = checked;
    decide(state, validated, None, action, None);
}

/// Marks a contribution as one whose credentials do not work.
pub fn fail_admin_account_contribution_request(
    state: &mut ReviewState,
    failure_reason: String,
    action: &AdminReviewQueueAction,
)
    ensures
        decided(*old(state), *final(state), "failed"@, Some(failure_reason), *action, None),
{
    decide(state, "failed", Some(failure_reason), action, None);
}

/// Rejects a contribution. Gives the key that is to be disabled and the account that is to
/// be deleted.
pub fn reject_admin_account_contribution_request(
    state: &mut ReviewState,
    action: &AdminReviewQueueAction,
) -> (revoked: (Option<String>, Option<String>))
    ensures
        decided(
            *old(state),
            *final(state),
            "rejected"@,
            None,
            *action,
            Some(action.updated_at_ms),
        ),
        revoked == (old(state).issued_key_id, old(state).imported_account_name),
{
    let key = reject_admin_token_request(state, action);
    (key, clone_opt(&state.imported_account_name))
}

/// Approves a sponsor.
pub fn approve_admin_sponsor_request(state: &mut ReviewState, action: &AdminReviewQueueAction)
    ensures
        decided(
            *old(state),
            *final(state),
            "approved"@,
            None,
            *action,
            Some(action.updated_at_ms),
        ),
{
    decide(state, "approved", None, action, Some(action.updated_at_ms));
}

/// How far a sponsor request has come.
#[derive(Debug, Clone, Copy, PartialEq, Eq, Structural)]
pub enum SponsorStatus {
    Submitted,
    PaymentEmailSent,
}

/// What is noted after the payment mail was sent, or was not: the status, and when it was
/// set.
pub fn record_public_sponsor_payment_email_result(sent_at_ms: Option<i64>, now_ms: i64) -> (result: (
    SponsorStatus,
    i64,
))
    ensures
        result == match sent_at_ms {
            Some(at) => (SponsorStatus::PaymentEmailSent, at),
            None => (SponsorStatus::Submitted, now_ms),
        },
{
    match sent_at_ms {
        Some(at) => (SponsorStatus::PaymentEmailSent, at),
        None => (SponsorStatus::Submitted, now_ms),
    }
}

// ---------------------------------------------------------------------------
// Pages
// ---------------------------------------------------------------------------

/// Whether a page lies past the end of the list: nothing is read for it.
pub fn page_is_empty(total: usize, offset: usize) -> (result: bool)
    ensures
        result == (total == 0 || offset >= total),
{
    total == 0 || offset >= total
}

/// Whether there is more after a page of `returned` entries.
pub fn page_has_more(total: usize, offset: usize, returned: usize) -> (result: bool)
    ensures
        result == (offset + returned < total),
{
    match offset.checked_add(returned) {
        Some(end) => end < total,
        None => false,
    }
}

// ---------------------------------------------------------------------------
// Laws
// ---------------------------------------------------------------------------

/// A request gets one key at most: once a key is issued, issuing again keeps it, whatever
/// other key comes along.
pub proof fn law_one_key_per_request(
    before: ReviewState,
    after: ReviewState,
    first: CreatedKey,
    second: Option<CreatedKey>,
    action: AdminReviewQueueAction,
)
    requires
        decided(
            ReviewState {
                issued_key_id: issued_key(before, Some(first)).0,
                issued_key_name: issued_key(before, Some(first)).1,
                ..before
            },
            after,
            "issued"@,
            None,
            action,
            Some(action.updated_at_ms),
        ),
    ensures
        after.issued_key_id is Some,
        issued_key(after, second) == (after.issued_key_id, after.issued_key_name),
{
}

/// The pages of a list follow one another: there is more after a page exactly where the
/// next one is not empty.
pub proof fn law_more_means_another_page(total: usize, offset: usize, returned: usize)
    requires
        offset + returned <= usize::MAX,
    ensures
        (offset + returned < total) == !(total == 0 || (offset + returned) as usize >= total),
{
}

} // verus!
