use vstd::prelude::*;

use crate::account::{Model, RegisterParams, TokenPurpose};
use crate::lifecycle::{consumed_at, issued_fresh};
use crate::table::{email_taken, is_fresh_row, rows_wf, token_taken};

verus! {

/// Once registration has stored an account for `params`, its email is taken,
/// so registering the same email again fails with `UniquenessViolation`.
pub proof fn lemma_email_registered_once(before: Seq<Model>, after: Seq<Model>, params: RegisterParams, k: int)
    requires
        k == before.len(),
        after == before.push(after[k]),
        is_fresh_row(after[k], params, after[k].password@, after[k].pid->Some_0@, after[k].created_at, k + 1),
    ensures
        email_taken(after, params.email@),
{
    assert(after[k].email@ == params.email@);
}

/// Issuing a new token for a purpose supersedes the one issued before: no
/// account holds the old token any more, so looking it up finds nothing.
pub proof fn lemma_reissue_supersedes(before: Seq<Model>, after: Seq<Model>, row: int, purpose: TokenPurpose, old_token: Seq<char>)
    requires
        rows_wf(before),
        issued_fresh(before, after, row, purpose),
        before[row].holds_token(purpose, old_token),
    ensures
        !after[row].holds_token(purpose, old_token),
        !token_taken(after, purpose, old_token),
{
    assert forall|i: int| 0 <= i < after.len() implies !(#[trigger] after[i]).holds_token(purpose, old_token) by {
        if i != row {
            assert(before[row].token_for(purpose) is Some);
            assert(after[i] == before[i]);
        } else {
            assert(!before[row].holds_token(purpose, after[row].token_for(purpose)->Some_0@));
        }
    }
}

/// Consuming a magic-link token clears it and leaves the email verified,
/// keeping an earlier verification time; no account holds the token
/// afterwards, so consuming it a second time fails with `NotFound`.
pub proof fn lemma_magic_link_single_use(before: Seq<Model>, after: Seq<Model>, token: Seq<char>, k: int)
    requires
        rows_wf(before),
        consumed_at(before, after, TokenPurpose::MagicLink, token, k),
    ensures
        after[k].magic_link_token is None,
        after[k].email_verified_at is Some,
        before[k].email_verified_at is Some ==> after[k].email_verified_at == before[k].email_verified_at,
        !token_taken(after, TokenPurpose::MagicLink, token),
{
    assert forall|i: int| 0 <= i < after.len() implies !(#[trigger] after[i]).holds_token(TokenPurpose::MagicLink, token) by {
        if i != k {
            assert(before[k].token_for(TokenPurpose::MagicLink) is Some);
            assert(after[i] == before[i]);
        }
    }
}

} // verus!
