use hooked::config::Target;
use hooked::handler::{
    determine_hook_branch, hook, process_payload, repo_found, targets_for_branch, Branch, Commit,
    StatusPayload,
};
use hooked::job::Job;
use hooked::queue::Queue;
use hooked::signature::GithubSignature;
use hooked::status::Status;

fn branch(name: &str, sha: &str) -> Branch {
    Branch { name: name.to_owned(), commit: Commit { sha: sha.to_owned() } }
}

fn target(repository: &str, branch: &str, directory: &str, steps: &[&str]) -> Target {
    Target {
        repository: repository.to_owned(),
        branch: branch.to_owned(),
        directory: directory.to_owned(),
        steps: steps.iter().map(|s| s.to_string()).collect(),
    }
}

fn payload(sha: &str, name: &str, state: &str, branches: Vec<Branch>) -> StatusPayload {
    StatusPayload { sha: sha.to_owned(), name: name.to_owned(), state: state.to_owned(), branches }
}

fn drain(queue: &mut Queue) -> Vec<Job> {
    let mut jobs = Vec::new();
    while let Some(job) = queue.get_job() {
        jobs.push(job);
    }
    jobs
}

#[test]
fn handler_determine_branch_returns_correct_branch() {
    let mut branches = Vec::new();
    branches.push(Branch {
        name: "master".to_owned(),
        commit: Commit {
            sha: "1234".to_owned(),
        },
    });
    branches.push(Branch {
        name: "develop".to_owned(),
        commit: Commit {
            sha: "5678".to_owned(),
        },
    });

    assert_eq!(
        determine_hook_branch("1234".to_owned(), &branches).unwrap(),
        &branches[0]
    );
}

#[test]
fn handler_determine_branch_returns_correct_none() {
    let mut branches = Vec::new();
    branches.push(Branch {
        name: "master".to_owned(),
        commit: Commit {
            sha: "1234".to_owned(),
        },
    });

    assert_eq!(
        determine_hook_branch("5".to_owned(), &branches).is_none(),
        true
    );
}

#[test]
fn two_branches_at_one_commit_resolve_to_the_first() {
    let branches = vec![branch("a", "1"), branch("main", "abc"), branch("release", "abc")];
    let found = determine_hook_branch("abc".to_owned(), &branches).unwrap();
    assert_eq!(found.name, "main");
}

#[test]
fn repo_found_gives_the_first_target_of_the_repository() {
    let targets = vec![
        target("r2", "b1", "/0", &[]),
        target("r1", "b1", "/1", &[]),
        target("r1", "b2", "/2", &[]),
    ];
    assert_eq!(repo_found("r1".to_owned(), &targets), Some(&targets[1]));
    assert_eq!(repo_found("r3".to_owned(), &targets), None);
    assert_eq!(repo_found("R1".to_owned(), &targets), None);
}

#[test]
fn one_of_three_targets_is_selected() {
    let targets = vec![
        target("R1", "B1", "/a", &["x"]),
        target("R1", "B2", "/b", &["y"]),
        target("R2", "B1", "/c", &["z"]),
    ];
    let selected = targets_for_branch("R1".to_owned(), "B1", &targets);
    assert_eq!(selected, vec![targets[0].clone()]);
}

#[test]
fn two_targets_for_one_branch_are_both_selected() {
    let targets = vec![target("R1", "B1", "/a", &["x"]), target("R1", "B1", "/b", &["y"])];
    let selected = targets_for_branch("R1".to_owned(), "B1", &targets);
    assert_eq!(selected, targets);

    let mut queue = Queue::new();
    let status =
        process_payload(&mut queue, payload("s", "R1", "success", vec![branch("B1", "s")]), &targets);
    assert_eq!(status, Status::Success);
    assert_eq!(
        drain(&mut queue),
        vec![
            Job { id: "R1 B1".to_owned(), command: "cd /a;x;".to_owned() },
            Job { id: "R1 B1".to_owned(), command: "cd /b;y;".to_owned() },
        ]
    );
}

#[test]
fn selection_compares_whole_strings_exactly() {
    let targets = vec![target("R1", "B1", "/a", &[])];
    assert!(targets_for_branch("r1".to_owned(), "B1", &targets).is_empty());
    assert!(targets_for_branch("R1".to_owned(), "B", &targets).is_empty());
    assert!(targets_for_branch("R1".to_owned(), "B11", &targets).is_empty());
}

#[test]
fn a_success_for_a_configured_branch_queues_its_job() {
    let targets = vec![target("org/repo", "main", "/x", &["echo hi"])];
    let mut queue = Queue::new();
    let status = process_payload(
        &mut queue,
        payload("abc", "org/repo", "success", vec![branch("main", "abc")]),
        &targets,
    );
    assert_eq!(status, Status::Success);
    assert_eq!(status.code(), 200);
    assert_eq!(queue.length().unwrap(), 1);
    let job = queue.get_job().unwrap();
    assert_eq!(job.command, "cd /x;echo hi;");
    assert_eq!(job.id, "org/repo main");
}

#[test]
fn any_other_state_is_accepted_and_queues_nothing() {
    let targets = vec![target("org/repo", "main", "/x", &["echo hi"])];
    for state in ["pending", "failure", "error", "", "Success", "SUCCESS", "success "] {
        let mut queue = Queue::new();
        let status = process_payload(
            &mut queue,
            payload("abc", "org/repo", state, vec![branch("main", "abc")]),
            &targets,
        );
        assert_eq!(status, Status::Accepted);
        assert_eq!(queue.length().unwrap(), 0);
    }
}

#[test]
fn a_commit_that_no_branch_points_at_is_an_internal_fault() {
    let targets = vec![target("org/repo", "main", "/x", &["echo hi"])];
    for state in ["success", "pending"] {
        let mut queue = Queue::new();
        let status = process_payload(
            &mut queue,
            payload("abc", "org/repo", state, vec![branch("main", "abd")]),
            &targets,
        );
        assert_eq!(status, Status::InternalServerError);
        assert_eq!(queue.length().unwrap(), 0);
    }
    let mut queue = Queue::new();
    let status = process_payload(&mut queue, payload("abc", "org/repo", "success", vec![]), &targets);
    assert_eq!(status, Status::InternalServerError);
    let status = process_payload(&mut queue, payload("abc", "nowhere", "success", vec![]), &targets);
    assert_eq!(status, Status::InternalServerError);
}

#[test]
fn an_unknown_repository_is_not_found() {
    let targets = vec![target("org/repo", "main", "/x", &["echo hi"])];
    for state in ["success", "pending"] {
        let mut queue = Queue::new();
        let status = process_payload(
            &mut queue,
            payload("abc", "org/other", state, vec![branch("main", "abc")]),
            &targets,
        );
        assert_eq!(status, Status::NotFound);
        assert_eq!(queue.length().unwrap(), 0);
    }
}

#[test]
fn a_branch_without_targets_has_no_content() {
    let targets = vec![target("org/repo", "main", "/x", &["echo hi"])];
    for state in ["success", "failure"] {
        let mut queue = Queue::new();
        let status = process_payload(
            &mut queue,
            payload("abc", "org/repo", state, vec![branch("develop", "abc")]),
            &targets,
        );
        assert_eq!(status, Status::NoContent);
        assert_eq!(queue.length().unwrap(), 0);
    }
}

#[test]
fn jobs_join_behind_those_that_wait() {
    let targets = vec![target("org/repo", "main", "/x", &["echo hi"])];
    let mut queue = Queue::new();
    let waiting = Job { id: "w".to_owned(), command: "true;".to_owned() };
    queue.add(waiting.clone()).unwrap();
    let status = process_payload(
        &mut queue,
        payload("abc", "org/repo", "success", vec![branch("dev", "x"), branch("main", "abc")]),
        &targets,
    );
    assert_eq!(status, Status::Success);
    assert_eq!(
        drain(&mut queue),
        vec![waiting, Job { id: "org/repo main".to_owned(), command: "cd /x;echo hi;".to_owned() }]
    );
}

const BODY: &str = "what do ya want for nothing?";
const DIGEST: &str = "sha1=effcdf6ae5eb2fa2d27416d5f184df9c259a7c79";

fn parsed() -> Option<StatusPayload> {
    Some(payload("abc", "org/repo", "success", vec![branch("main", "abc")]))
}

#[test]
fn a_body_that_is_no_notification_is_unprocessable() {
    let targets = vec![target("org/repo", "main", "/x", &["echo hi"])];
    let mut queue = Queue::new();
    let signature = GithubSignature(DIGEST.to_owned());
    let status = hook(&targets, &mut queue, Some("Jefe".to_owned()), &signature, BODY, None);
    assert_eq!(status, Status::UnprocessableEntity);
    let status = hook(&targets, &mut queue, None, &signature, BODY, None);
    assert_eq!(status, Status::UnprocessableEntity);
    assert_eq!(queue.length().unwrap(), 0);
}

#[test]
fn a_wrong_signature_is_unauthorized_and_queues_nothing() {
    let targets = vec![target("org/repo", "main", "/x", &["echo hi"])];
    let mut queue = Queue::new();
    let signature = GithubSignature("sha1=0000000000000000000000000000000000000000".to_owned());
    let status = hook(&targets, &mut queue, Some("Jefe".to_owned()), &signature, BODY, parsed());
    assert_eq!(status, Status::Unauthorized);
    assert_eq!(status.code(), 401);
    let empty = GithubSignature(String::new());
    let status = hook(&targets, &mut queue, Some("Jefe".to_owned()), &empty, BODY, parsed());
    assert_eq!(status, Status::Unauthorized);
    assert_eq!(queue.length().unwrap(), 0);
}

#[test]
fn a_matching_signature_lets_the_notification_through() {
    let targets = vec![target("org/repo", "main", "/x", &["echo hi"])];
    let mut queue = Queue::new();
    let signature = GithubSignature(DIGEST.to_owned());
    let status = hook(&targets, &mut queue, Some("Jefe".to_owned()), &signature, BODY, parsed());
    assert_eq!(status, Status::Success);
    assert_eq!(
        drain(&mut queue),
        vec![Job { id: "org/repo main".to_owned(), command: "cd /x;echo hi;".to_owned() }]
    );
}

#[test]
fn without_a_secret_nothing_is_checked() {
    let targets = vec![target("org/repo", "main", "/x", &["echo hi"])];
    let mut queue = Queue::new();
    let signature = GithubSignature("anything".to_owned());
    let status = hook(&targets, &mut queue, None, &signature, BODY, parsed());
    assert_eq!(status, Status::Success);
    assert_eq!(queue.length().unwrap(), 1);
}
