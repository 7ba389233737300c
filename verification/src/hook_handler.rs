//! Webhook envelopes: the action that a delivery announces, and the branch
//! that a status delivery is about.

use vstd::prelude::*;
use vstd::string::*;
use crate::builder::Build;
use crate::search::{first_index, lemma_first_index_absent, lemma_first_index_found};

verus! {

/// A webhook delivery: the action it announces and what it carries.
pub struct GithubWebhook<T> {
    pub action: String,
    pub payload: T,
}

/// The payload of a status delivery.
pub struct StatusPayload {
    pub sha: String,
    pub name: String,
    pub state: String,
    pub branches: Vec<Branch>,
}

/// A branch that a delivery lists, with the commit at its head.
#[derive(Debug, PartialEq)]
pub struct Branch {
    pub name: String,
    pub commit: Commit,
}

/// A commit, known by its hash.
#[derive(Debug, PartialEq)]
pub struct Commit {
    pub sha: String,
}

/// The hashes of the commits at the heads of the branches, in order.
pub open spec fn head_shas(branches: Seq<Branch>) -> Seq<Seq<char>> {
    branches.map_values(|b: Branch| b.commit.sha@)
}

/// Whether a hash is `sha`.
pub open spec fn is_sha(sha: Seq<char>) -> spec_fn(Seq<char>) -> bool {
    |s: Seq<char>| s == sha
}

/// The action of a status delivery.
pub open spec fn status_action() -> Seq<char> {
    "status"@
}

/// Says whether a delivery is one to act on: `Some(true)` for a status
/// delivery, `None` for any other.
pub fn process_payload(payload: GithubWebhook<StatusPayload>, builds: Vec<Build>) -> (r: Option<
    bool,
>)
    ensures
        r == if payload.action@ == status_action() {
            Some(true)
        } else {
            None
        },
{
    if payload.action == String::from_str("status") {
        Some(true)
    } else {
        None
    }
}

/// Finds the branch that a status is about: the first one in the list whose
/// head is `target_sha`.
pub fn determine_hook_branch(target_sha: String, branches: &Vec<Branch>) -> (r: Option<&Branch>)
    ensures
        match first_index(head_shas(branches@), is_sha(target_sha@)) {
            Some(i) => 0 <= i < branches@.len() && r == Some(&branches@[i]),
            None => r is None,
        },
{
    let ghost shas = head_shas(branches@);
    let ghost p = is_sha(target_sha@);
    let mut i: usize = 0;
    while i < branches.len()
        invariant
            i <= branches.len(),
            shas == head_shas(branches@),
            p == is_sha(target_sha@),
            forall|j: int| 0 <= j < i ==> !#[trigger] p(shas[j]),
        decreases branches.len() - i,
    {
        if branches[i].commit.sha == target_sha {
            proof {
                lemma_first_index_found(shas, p, i as int);
            }
            return Some(&branches[i]);
        }
        i += 1;
    }
    proof {
        lemma_first_index_absent(shas, p);
    }
    None
}

} // verus!
