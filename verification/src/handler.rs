//! The webhook handler: resolves the branch that a status notification is
//! about, selects the targets that fire for it, and queues their jobs.

use vstd::prelude::*;
use vstd::string::*;
use crate::config::{target_views, Target, TargetView};
use crate::job::{job_for, spec_job, JobView};
use crate::queue::Queue;
use crate::search::{first_index, is_first, lemma_first_index_absent, lemma_first_index_found,
    lemma_first_index_sound};
use crate::signature::{authentic, fits_hmac, secret_view, GithubSignature};
use crate::status::Status;

verus! {

/// A commit-status notification.
#[derive(Clone, Debug, PartialEq)]
pub struct StatusPayload {
    pub sha: String,
    pub name: String,
    pub state: String,
    pub branches: Vec<Branch>,
}

/// A branch that a notification lists, with the commit at its head.
#[derive(Clone, Debug, PartialEq)]
pub struct Branch {
    pub name: String,
    pub commit: Commit,
}

/// A commit, known by its hash.
#[derive(Clone, Debug, PartialEq)]
pub struct Commit {
    pub sha: String,
}

/// A commit as a plain sequence of characters.
pub struct CommitView {
    pub sha: Seq<char>,
}

/// A branch as plain sequences of characters.
pub struct BranchView {
    pub name: Seq<char>,
    pub commit: CommitView,
}

/// A notification as plain sequences.
pub struct StatusPayloadView {
    pub sha: Seq<char>,
    pub name: Seq<char>,
    pub state: Seq<char>,
    pub branches: Seq<BranchView>,
}

impl View for Commit {
    type V = CommitView;

    open spec fn view(&self) -> CommitView {
        CommitView { sha: self.sha@ }
    }
}

impl View for Branch {
    type V = BranchView;

    open spec fn view(&self) -> BranchView {
        BranchView { name: self.name@, commit: self.commit@ }
    }
}

/// The branches that a vector holds, in order.
pub open spec fn branch_views(v: Seq<Branch>) -> Seq<BranchView> {
    v.map_values(|b: Branch| b@)
}

impl View for StatusPayload {
    type V = StatusPayloadView;

    open spec fn view(&self) -> StatusPayloadView {
        StatusPayloadView {
            sha: self.sha@,
            name: self.name@,
            state: self.state@,
            branches: branch_views(self.branches@),
        }
    }
}

/// Whether a branch's head is the commit `sha`.
pub open spec fn points_at(sha: Seq<char>) -> spec_fn(BranchView) -> bool {
    |b: BranchView| b.commit.sha == sha
}

/// Whether a target belongs to the repository `repo`.
pub open spec fn in_repository(repo: Seq<char>) -> spec_fn(TargetView) -> bool {
    |t: TargetView| t.repository == repo
}

/// Whether a target fires for the branch `branch` of the repository `repo`.
pub open spec fn fires_for(repo: Seq<char>, branch: Seq<char>) -> spec_fn(TargetView) -> bool {
    |t: TargetView| t.repository == repo && t.branch == branch
}

/// The position of the branch that a notification is about: the first one
/// listed whose head is the notification's commit.
pub open spec fn resolved_index(sha: Seq<char>, branches: Seq<BranchView>) -> Option<int> {
    first_index(branches, points_at(sha))
}

/// The targets that fire for a branch of a repository, in configured order.
pub open spec fn matching_targets(
    repo: Seq<char>,
    branch: Seq<char>,
    targets: Seq<TargetView>,
) -> Seq<TargetView> {
    targets.filter(fires_for(repo, branch))
}

/// The state that lets targets fire.
pub open spec fn success() -> Seq<char> {
    "success"@
}

/// The outcome of a notification against the configured targets.
///
/// An unresolvable commit is an internal fault. Otherwise an unknown
/// repository, then a branch without targets, then a state other than
/// success each end the handling, in this order.
pub open spec fn spec_status(payload: StatusPayloadView, targets: Seq<TargetView>) -> Status {
    match resolved_index(payload.sha, payload.branches) {
        None => Status::InternalServerError,
        Some(i) => if first_index(targets, in_repository(payload.name)) is None {
            Status::NotFound
        } else if matching_targets(payload.name, payload.branches[i].name, targets).len() == 0 {
            Status::NoContent
        } else if payload.state != success() {
            Status::Accepted
        } else {
            Status::Success
        },
    }
}

/// The jobs that a notification puts into the queue: one for each target
/// that fires, in configured order, and none unless the outcome is `Success`.
pub open spec fn spec_jobs(payload: StatusPayloadView, targets: Seq<TargetView>) -> Seq<JobView> {
    match resolved_index(payload.sha, payload.branches) {
        Some(i) if spec_status(payload, targets) == Status::Success => matching_targets(
            payload.name,
            payload.branches[i].name,
            targets,
        ).map_values(|t: TargetView| spec_job(t)),
        _ => Seq::empty(),
    }
}

/// Finds the branch that a status is about: the first one in the list whose
/// head is `target_sha`.
pub fn determine_hook_branch(target_sha: String, branches: &Vec<Branch>) -> (r: Option<&Branch>)
    ensures
        match resolved_index(target_sha@, branch_views(branches@)) {
            Some(i) => 0 <= i < branches@.len() && r == Some(&branches@[i]),
            None => r is None,
        },
{
    let ghost views = branch_views(branches@);
    let ghost p = points_at(target_sha@);
    let mut i: usize = 0;
    while i < branches.len()
        invariant
            i <= branches.len(),
            views == branch_views(branches@),
            p == points_at(target_sha@),
            forall|j: int| 0 <= j < i ==> !#[trigger] p(views[j]),
        decreases branches.len() - i,
    {
        if branches[i].commit.sha == target_sha {
            proof {
                lemma_first_index_found(views, p, i as int);
            }
            return Some(&branches[i]);
        }
        i += 1;
    }
    proof {
        lemma_first_index_absent(views, p);
    }
    None
}

/// Finds a target of the repository `repo`: the first one configured.
pub fn repo_found(repo: String, targets: &Vec<Target>) -> (r: Option<&Target>)
    ensures
        match first_index(target_views(targets@), in_repository(repo@)) {
            Some(i) => 0 <= i < targets@.len() && r == Some(&targets@[i]),
            None => r is None,
        },
{
    let ghost views = target_views(targets@);
    let ghost p = in_repository(repo@);
    let mut i: usize = 0;
    while i < targets.len()
        invariant
            i <= targets.len(),
            views == target_views(targets@),
            p == in_repository(repo@),
            forall|j: int| 0 <= j < i ==> !#[trigger] p(views[j]),
        decreases targets.len() - i,
    {
        if targets[i].repository == repo {
            proof {
                lemma_first_index_found(views, p, i as int);
            }
            return Some(&targets[i]);
        }
        i += 1;
    }
    proof {
        lemma_first_index_absent(views, p);
    }
    None
}

/// Selects every target configured for the branch `branch_name` of the
/// repository `repo`, in configured order.
pub fn targets_for_branch(repo: String, branch_name: &str, targets: &Vec<Target>) -> (r: Vec<
    Target,
>)
    ensures
        target_views(r@) == matching_targets(repo@, branch_name@, target_views(targets@)),
{
    let branch = String::from_str(branch_name);
    let ghost views = target_views(targets@);
    let ghost p = fires_for(repo@, branch_name@);
    let mut out: Vec<Target> = Vec::new();
    let mut i: usize = 0;
    while i < targets.len()
        invariant
            i <= targets.len(),
            branch@ == branch_name@,
            views == target_views(targets@),
            p == fires_for(repo@, branch_name@),
            target_views(out@) == views.take(i as int).filter(p),
        decreases targets.len() - i,
    {
        let target = &targets[i];
        let hit = target.repository == repo && target.branch == branch;
        if hit {
            out.push(target.duplicate());
        }
        proof {
            reveal(Seq::filter);
            let next = views.take(i + 1);
            assert(next.drop_last() =~= views.take(i as int));
        }
        i += 1;
    }
    assert(views.take(i as int) =~= views);
    out
}

/// Handles an authenticated notification: queues one job for each target
/// that fires and says what became of the notification.
pub fn process_payload(queue: &mut Queue, payload: StatusPayload, targets: &Vec<Target>) -> (r:
    Status)
    ensures
        r == spec_status(payload@, target_views(targets@)),
        final(queue)@ == old(queue)@ + spec_jobs(payload@, target_views(targets@)),
{
    let ghost views = target_views(targets@);
    let branch = match determine_hook_branch(payload.sha.clone(), &payload.branches) {
        Some(branch) => branch,
        None => {
            return Status::InternalServerError;
        },
    };
    if repo_found(payload.name.clone(), targets).is_none() {
        return Status::NotFound;
    }
    let matched = targets_for_branch(payload.name.clone(), branch.name.as_str(), targets);
    let ghost firing = matching_targets(payload@.name, branch@.name, views);
    if matched.len() == 0 {
        return Status::NoContent;
    }
    if payload.state != String::from_str("success") {
        return Status::Accepted;
    }
    let ghost jobs = firing.map_values(|t: TargetView| spec_job(t));
    let mut i: usize = 0;
    while i < matched.len()
        invariant
            i <= matched.len(),
            target_views(matched@) == firing,
            jobs == firing.map_values(|t: TargetView| spec_job(t)),
            queue@ == old(queue)@ + jobs.take(i as int),
        decreases matched.len() - i,
    {
        let job = job_for(&matched[i]);
        let _ = queue.add(job);
        i += 1;
    }
    Status::Success
}

/// The notification that a request is handled as, if it gets that far: the
/// body must have parsed, and the request must be authentic.
pub open spec fn admitted(
    secret: Option<Seq<char>>,
    signature: Seq<char>,
    body: Seq<char>,
    parsed: Option<StatusPayloadView>,
) -> Option<StatusPayloadView> {
    match parsed {
        Some(payload) if authentic(secret, signature, body) => Some(payload),
        _ => None,
    }
}

/// The outcome of a request: a body that did not parse is unprocessable,
/// a request that is not authentic is unauthorized, and an admitted
/// notification has the outcome of its matching.
pub open spec fn spec_hook_status(
    secret: Option<Seq<char>>,
    signature: Seq<char>,
    body: Seq<char>,
    parsed: Option<StatusPayloadView>,
    targets: Seq<TargetView>,
) -> Status {
    match parsed {
        None => Status::UnprocessableEntity,
        Some(payload) => if authentic(secret, signature, body) {
            spec_status(payload, targets)
        } else {
            Status::Unauthorized
        },
    }
}

/// The jobs that a request puts into the queue: those of its notification
/// if it is admitted, none otherwise.
pub open spec fn spec_hook_jobs(
    secret: Option<Seq<char>>,
    signature: Seq<char>,
    body: Seq<char>,
    parsed: Option<StatusPayloadView>,
    targets: Seq<TargetView>,
) -> Seq<JobView> {
    match admitted(secret, signature, body, parsed) {
        Some(payload) => spec_jobs(payload, targets),
        None => Seq::empty(),
    }
}

/// A parsed body as plain sequences, if it parsed.
pub open spec fn parsed_payload_view(parsed: Option<StatusPayload>) -> Option<StatusPayloadView> {
    match parsed {
        Some(p) => Some(p@),
        None => None,
    }
}

/// Answers one request: `raw_hook` is the body as received, `parsed` the
/// notification read from it, or `None` if it is none; `secret` is the
/// shared secret, if one is configured.
pub fn hook(
    targets: &Vec<Target>,
    queue: &mut Queue,
    secret: Option<String>,
    signature: &GithubSignature,
    raw_hook: &str,
    parsed: Option<StatusPayload>,
) -> (r: Status)
    requires
        secret is Some ==> fits_hmac(secret->Some_0@),
        secret is Some ==> fits_hmac(raw_hook@),
    ensures
        r == spec_hook_status(
            secret_view(secret),
            signature.0@,
            raw_hook@,
            parsed_payload_view(parsed),
            target_views(targets@),
        ),
        final(queue)@ == old(queue)@ + spec_hook_jobs(
            secret_view(secret),
            signature.0@,
            raw_hook@,
            parsed_payload_view(parsed),
            target_views(targets@),
        ),
{
    match parsed {
        None => Status::UnprocessableEntity,
        Some(payload) => match signature.check(secret, raw_hook) {
            Ok(()) => process_payload(queue, payload, targets),
            Err(e) => e.status(),
        },
    }
}

/// A notification whose commit none of its own branches points at is an
/// internal fault, whatever its state and whatever is configured, and
/// queues nothing.
pub proof fn lemma_unlisted_commit_is_fault(payload: StatusPayloadView, targets: Seq<TargetView>)
    requires
        forall|i: int| 0 <= i < payload.branches.len() ==> payload.branches[i].commit.sha != payload.sha,
    ensures
        spec_status(payload, targets) == Status::InternalServerError,
        spec_jobs(payload, targets) == Seq::<JobView>::empty(),
{
    assert forall|j: int| 0 <= j < payload.branches.len() implies !#[trigger] points_at(
        payload.sha,
    )(payload.branches[j]) by {}
    lemma_first_index_absent(payload.branches, points_at(payload.sha));
}

/// A notification whose state is not a success queues nothing, whatever
/// the state says and whatever else holds of it.
pub proof fn lemma_unsuccessful_queues_nothing(payload: StatusPayloadView, targets: Seq<TargetView>)
    requires
        payload.state != success(),
    ensures
        spec_status(payload, targets) != Status::Success,
        spec_jobs(payload, targets) == Seq::<JobView>::empty(),
{
}

/// A notification whose state is not a success, whose commit one of its
/// branches points at, and for whose branch a target is configured, is
/// accepted and queues nothing, whatever the state says.
pub proof fn lemma_unsuccessful_is_accepted(
    payload: StatusPayloadView,
    targets: Seq<TargetView>,
    i: int,
)
    requires
        payload.state != success(),
        is_first(payload.branches, points_at(payload.sha), i),
        matching_targets(payload.name, payload.branches[i].name, targets).len() > 0,
    ensures
        spec_status(payload, targets) == Status::Accepted,
        spec_jobs(payload, targets) == Seq::<JobView>::empty(),
{
    lemma_first_index_found(payload.branches, points_at(payload.sha), i);
    lemma_firing_target_is_known(payload.name, payload.branches[i].name, targets);
}

/// Where a target fires for a branch of a repository, the repository is a
/// configured one.
pub proof fn lemma_firing_target_is_known(
    repo: Seq<char>,
    branch: Seq<char>,
    targets: Seq<TargetView>,
)
    requires
        matching_targets(repo, branch, targets).len() > 0,
    ensures
        first_index(targets, in_repository(repo)) is Some,
{
    let firing = matching_targets(repo, branch, targets);
    targets.lemma_filter_pred(fires_for(repo, branch), 0);
    targets.lemma_filter_contains_rev(fires_for(repo, branch), firing[0]);
    let j = choose|j: int| 0 <= j < targets.len() && targets[j] == firing[0];
    assert(in_repository(repo)(targets[j]));
    lemma_first_index_sound(targets, in_repository(repo));
}

/// Selection is exact: a target fires for a branch of a repository if and
/// only if it is configured and names both.
pub proof fn lemma_selection_is_exact(
    repo: Seq<char>,
    branch: Seq<char>,
    targets: Seq<TargetView>,
    target: TargetView,
)
    ensures
        matching_targets(repo, branch, targets).contains(target) <==> targets.contains(target)
            && target.repository == repo && target.branch == branch,
{
    let p = fires_for(repo, branch);
    let firing = matching_targets(repo, branch, targets);
    if firing.contains(target) {
        let k = choose|k: int| 0 <= k < firing.len() && firing[k] == target;
        targets.lemma_filter_pred(p, k);
        targets.lemma_filter_contains_rev(p, target);
    }
    if targets.contains(target) && p(target) {
        let k = choose|k: int| 0 <= k < targets.len() && targets[k] == target;
        targets.lemma_filter_contains(p, k);
    }
}

/// Targets that share a repository and a branch all fire for it, each once
/// and in configured order: none stands for another.
pub proof fn lemma_all_matching_fire(repo: Seq<char>, branch: Seq<char>, targets: Seq<TargetView>)
    requires
        forall|i: int|
            0 <= i < targets.len() ==> (#[trigger] targets[i]).repository == repo
                && targets[i].branch == branch,
    ensures
        matching_targets(repo, branch, targets) == targets,
    decreases targets.len(),
{
    reveal(Seq::filter);
    if targets.len() > 0 {
        lemma_all_matching_fire(repo, branch, targets.drop_last());
        assert(fires_for(repo, branch)(targets.last()));
        assert(targets.drop_last().push(targets.last()) =~= targets);
    }
}

} // verus!
