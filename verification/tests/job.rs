use hooked::config::Target;
use hooked::job::{build_command_string, convert_target_to_job, job_for, Job};

#[test]
fn build_command_string_correctly() {
    let expected_string = format!("cd /var/www;ls stat;echo hello;");
    let target = Target {
        repository: "unused".to_owned(),
        branch: "unused".to_owned(),
        directory: "/var/www".to_owned(),
        steps: vec!["ls stat".to_owned(), "echo hello".to_owned()],
    };

    assert_eq!(build_command_string(&target), expected_string);
}

#[test]
fn command_for_two_build_steps() {
    let target = Target {
        repository: "org/app".to_owned(),
        branch: "main".to_owned(),
        directory: "/srv/app".to_owned(),
        steps: vec!["npm ci".to_owned(), "npm run build".to_owned()],
    };
    assert_eq!(build_command_string(&target), "cd /srv/app;npm ci;npm run build;");
}

#[test]
fn command_without_steps_only_changes_directory() {
    let target = Target {
        repository: "r".to_owned(),
        branch: "b".to_owned(),
        directory: "/tmp".to_owned(),
        steps: vec![],
    };
    assert_eq!(build_command_string(&target), "cd /tmp;");
}

#[test]
fn job_is_labelled_by_repository_and_branch() {
    let target = Target {
        repository: "org/repo".to_owned(),
        branch: "main".to_owned(),
        directory: "/x".to_owned(),
        steps: vec!["echo hi".to_owned()],
    };
    let expected = Job { id: "org/repo main".to_owned(), command: "cd /x;echo hi;".to_owned() };
    assert_eq!(job_for(&target), expected);
    assert_eq!(convert_target_to_job(target), expected);
}

#[test]
fn a_duplicate_equals_the_target_it_was_made_from() {
    let target = Target {
        repository: "org/repo".to_owned(),
        branch: "main".to_owned(),
        directory: "/x".to_owned(),
        steps: vec!["a".to_owned(), "b".to_owned()],
    };
    assert_eq!(target.duplicate(), target);
}
