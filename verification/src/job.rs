//! Jobs: the executable units of work that targets resolve to.

use vstd::prelude::*;
use vstd::string::*;
use crate::config::{texts, Target, TargetView};

verus! {

/// A queued unit of work: a label and one shell command.
#[derive(Clone, Debug, PartialEq)]
pub struct Job {
    pub id: String,
    pub command: String,
}

/// A job as plain sequences of characters.
pub struct JobView {
    pub id: Seq<char>,
    pub command: Seq<char>,
}

impl View for Job {
    type V = JobView;

    open spec fn view(&self) -> JobView {
        JobView { id: self.id@, command: self.command@ }
    }
}

/// The steps of a pipeline, each followed by a semicolon.
pub open spec fn spec_steps(steps: Seq<Seq<char>>) -> Seq<char>
    decreases steps.len(),
{
    if steps.len() == 0 {
        Seq::empty()
    } else {
        spec_steps(steps.drop_last()) + steps.last() + seq![';']
    }
}

/// The shell command of a target: change into its directory, then run each
/// step in order.
pub open spec fn spec_command(directory: Seq<char>, steps: Seq<Seq<char>>) -> Seq<char> {
    seq!['c', 'd', ' '] + directory + seq![';'] + spec_steps(steps)
}

/// The label of a target's job: repository, a space, branch.
pub open spec fn spec_job_id(repository: Seq<char>, branch: Seq<char>) -> Seq<char> {
    repository + seq![' '] + branch
}

/// The job that a target resolves to.
pub open spec fn spec_job(target: TargetView) -> JobView {
    JobView {
        id: spec_job_id(target.repository, target.branch),
        command: spec_command(target.directory, target.steps),
    }
}

/// Synthesizes the single shell command that runs a target's steps in its
/// directory.
pub fn build_command_string(target: &Target) -> (r: String)
    ensures
        r@ == spec_command(target@.directory, target@.steps),
{
    proof {
        reveal_strlit("cd ");
        reveal_strlit(";");
    }
    let mut command = String::from_str("cd ");
    command.append(target.directory.as_str());
    command.append(";");
    let ghost steps = texts(target.steps@);
    let ghost base = command@;
    let mut i: usize = 0;
    while i < target.steps.len()
        invariant
            i <= target.steps.len(),
            steps == texts(target.steps@),
            ";"@ == seq![';'],
            command@ == base + spec_steps(steps.take(i as int)),
        decreases target.steps.len() - i,
    {
        command.append(target.steps[i].as_str());
        command.append(";");
        proof {
            let next = steps.take(i + 1);
            assert(next.drop_last() =~= steps.take(i as int));
        }
        i += 1;
    }
    assert(steps.take(i as int) =~= steps);
    command
}

/// The job that runs a target, made without taking the target.
pub fn job_for(target: &Target) -> (r: Job)
    ensures
        r@ == spec_job(target@),
{
    proof {
        reveal_strlit(" ");
    }
    let mut id = target.repository.clone();
    id.append(" ");
    id.append(target.branch.as_str());
    assert(" "@ =~= seq![' ']);
    Job { id, command: build_command_string(target) }
}

/// Resolves a target into the job that runs it.
pub fn convert_target_to_job(target: Target) -> (r: Job)
    ensures
        r@ == spec_job(target@),
{
    job_for(&target)
}

} // verus!
