use github_merge_bot::{
    begin, begin_with, Action, JobRegistry, JobStatus, Phase, Repository, TryMergeRun,
    STATUS_DELAY_SECS,
};

fn widgets() -> Repository {
    Repository {
        id: 7,
        name: "widgets".to_string(),
        full_name: "acme/widgets".to_string(),
        owner: "acme".to_string(),
        default_branch: "main".to_string(),
    }
}

fn start(registry: &mut JobRegistry, pr: i32, command: &str) -> TryMergeRun {
    let (run, action) = begin_with(registry, &widgets(), pr, command, 99, 1000).unwrap();
    assert!(matches!(action, Action::CreateRecord));
    run
}

/// Drives a run from the store write up to the status poll.
fn run_to_polling(run: &mut TryMergeRun) {
    match run.advance(Ok(String::new()), 1001) {
        Action::FetchPullRequest { repo, number } => {
            assert_eq!(repo, "acme/widgets");
            assert_eq!(number, 42);
        }
        other => panic!("unexpected {:?}", other),
    }
    match run.advance(Ok("feature-x".to_string()), 1002) {
        Action::FetchBranchSha { repo, branch } => {
            assert_eq!(repo, "acme/widgets");
            assert_eq!(branch, "main");
        }
        other => panic!("unexpected {:?}", other),
    }
    match run.advance(Ok("basesha".to_string()), 1003) {
        Action::FetchBranchSha { branch, .. } => assert_eq!(branch, "feature-x"),
        other => panic!("unexpected {:?}", other),
    }
    match run.advance(Ok("headsha".to_string()), 1004) {
        Action::DeleteBranch { branch, .. } => assert_eq!(branch, "automation/bot/try/42"),
        other => panic!("unexpected {:?}", other),
    }
    match run.advance(Err("404 Not Found".to_string()), 1005) {
        Action::CreateBranch { branch, sha, .. } => {
            assert_eq!(branch, "automation/bot/try/42");
            assert_eq!(sha, "basesha");
        }
        other => panic!("unexpected {:?}", other),
    }
    match run.advance(Ok(String::new()), 1006) {
        Action::MergeBranch { base, head, message, .. } => {
            assert_eq!(base, "automation/bot/try/42");
            assert_eq!(head, "headsha");
            assert_eq!(message, "Try merge into automation/bot/try/42");
        }
        other => panic!("unexpected {:?}", other),
    }
    match run.advance(Ok(String::new()), 1007) {
        Action::Wait { seconds } => assert_eq!(seconds, STATUS_DELAY_SECS),
        other => panic!("unexpected {:?}", other),
    }
    match run.advance(Ok(String::new()), 1008) {
        Action::PollStatus { branch, .. } => assert_eq!(branch, "automation/bot/try/42"),
        other => panic!("unexpected {:?}", other),
    }
    assert_eq!(run.phase, Phase::Polling);
    assert_eq!(run.job.status, JobStatus::Running);
}

#[test]
fn try_comment_success_completes_job() {
    let mut registry = JobRegistry::new();
    let mut run = start(&mut registry, 42, "try");
    assert_eq!(run.job.branch_name, "automation/bot/try/42");
    assert_eq!(run.job.status, JobStatus::Running);
    assert_eq!(run.job.repository_id, 7);
    assert_eq!(run.job.id, 99);
    assert_eq!(run.job.created_at, 1000);
    run_to_polling(&mut run);
    assert!(matches!(run.advance(Ok("success".to_string()), 2000), Action::UpdateRecord));
    assert_eq!(run.job.status, JobStatus::Completed);
    assert_eq!(run.job.error_message, None);
    assert_eq!(run.job.updated_at, 2000);
    match run.advance(Ok(String::new()), 2001) {
        Action::Release { key, error } => {
            assert_eq!(key, "acme/widgets#42");
            assert_eq!(error, None);
        }
        other => panic!("unexpected {:?}", other),
    }
    assert!(run.is_done());
}

#[test]
fn try_comment_failure_status_fails_job() {
    let mut registry = JobRegistry::new();
    let mut run = start(&mut registry, 42, "try");
    run_to_polling(&mut run);
    assert!(matches!(run.advance(Ok("failure".to_string()), 2000), Action::UpdateRecord));
    assert_eq!(run.job.status, JobStatus::Failed);
    let message = run.job.error_message.clone().unwrap();
    assert!(message.contains("failure"));
    assert_eq!(message, "Try merge failed with status: failure");
}

#[test]
fn any_status_but_success_fails_job() {
    for state in ["pending", "", "error", "unknown", "Success"] {
        let mut registry = JobRegistry::new();
        let mut run = start(&mut registry, 42, "try");
        run_to_polling(&mut run);
        run.advance(Ok(state.to_string()), 2000);
        assert_eq!(run.job.status, JobStatus::Failed);
        let message = run.job.error_message.clone().unwrap();
        assert!(message.ends_with(state));
    }
}

#[test]
fn failed_branch_creation_skips_merge() {
    let mut registry = JobRegistry::new();
    let mut run = start(&mut registry, 42, "try");
    run.advance(Ok(String::new()), 1);
    run.advance(Ok("feature-x".to_string()), 2);
    run.advance(Ok("basesha".to_string()), 3);
    run.advance(Ok("headsha".to_string()), 4);
    assert!(matches!(run.advance(Ok(String::new()), 5), Action::CreateBranch { .. }));
    let next = run.advance(Err("Failed to create branch: 422".to_string()), 6);
    assert!(matches!(next, Action::UpdateRecord));
    assert_eq!(run.job.status, JobStatus::Failed);
    assert_eq!(run.job.error_message.as_deref(), Some("Failed to create branch: 422"));
    assert!(matches!(run.advance(Ok(String::new()), 7), Action::Release { .. }));
}

#[test]
fn fetch_failure_with_empty_cause_still_has_message() {
    let mut registry = JobRegistry::new();
    let mut run = start(&mut registry, 42, "try");
    run.advance(Ok(String::new()), 1);
    run.advance(Err(String::new()), 2);
    assert_eq!(run.job.status, JobStatus::Failed);
    assert_eq!(run.job.error_message.as_deref(), Some("unknown failure"));
}

#[test]
fn store_failure_on_create_releases_with_error() {
    let mut registry = JobRegistry::new();
    let mut run = start(&mut registry, 42, "try");
    match run.advance(Err("connection refused".to_string()), 1) {
        Action::Release { key, error } => {
            assert_eq!(key, "acme/widgets#42");
            assert_eq!(error.as_deref(), Some("connection refused"));
        }
        other => panic!("unexpected {:?}", other),
    }
    assert!(run.is_done());
}

#[test]
fn second_dispatch_for_same_pr_is_noop() {
    let mut registry = JobRegistry::new();
    let first = begin_with(&mut registry, &widgets(), 42, "try", 1, 10);
    assert!(first.is_some());
    let second = begin_with(&mut registry, &widgets(), 42, "try", 2, 11);
    assert!(second.is_none());
    let third = begin_with(&mut registry, &widgets(), 42, "try-merge", 3, 12);
    assert!(third.is_none());
    assert!(registry.contains("acme/widgets#42"));
}

#[test]
fn many_dispatches_start_one_run() {
    let mut registry = JobRegistry::new();
    let started = (0..10)
        .filter(|i| begin_with(&mut registry, &widgets(), 42, "try", *i as u128, 0).is_some())
        .count();
    assert_eq!(started, 1);
}

#[test]
fn distinct_pull_requests_do_not_block_each_other() {
    let mut registry = JobRegistry::new();
    assert!(begin_with(&mut registry, &widgets(), 42, "try", 1, 0).is_some());
    assert!(begin_with(&mut registry, &widgets(), 43, "try", 2, 0).is_some());
    let mut other = widgets();
    other.full_name = "acme/gadgets".to_string();
    assert!(begin_with(&mut registry, &other, 42, "try", 3, 0).is_some());
}

#[test]
fn unknown_command_creates_nothing() {
    let mut registry = JobRegistry::new();
    assert!(begin_with(&mut registry, &widgets(), 42, "deploy", 1, 0).is_none());
    assert!(begin_with(&mut registry, &widgets(), 42, "", 1, 0).is_none());
    assert!(!registry.contains("acme/widgets#42"));
    assert!(begin_with(&mut registry, &widgets(), 42, "try", 1, 0).is_some());
}

#[test]
fn finished_run_frees_slot() {
    let mut registry = JobRegistry::new();
    let mut run = start(&mut registry, 42, "try");
    run.advance(Ok(String::new()), 1);
    run.advance(Err("Failed to get PR: 404".to_string()), 2);
    let key = match run.advance(Ok(String::new()), 3) {
        Action::Release { key, .. } => key,
        other => panic!("unexpected {:?}", other),
    };
    registry.release(&key);
    assert!(!registry.contains("acme/widgets#42"));
    assert!(begin_with(&mut registry, &widgets(), 42, "try", 5, 4).is_some());
}

#[test]
fn same_pr_and_command_give_same_branch() {
    let mut a = JobRegistry::new();
    let mut b = JobRegistry::new();
    let ra = begin_with(&mut a, &widgets(), 42, "try-merge", 1, 0).unwrap();
    let rb = begin_with(&mut b, &widgets(), 42, "try-merge", 2, 5).unwrap();
    assert_eq!(ra.0.job.branch_name, "automation/bot/try-merge/42");
    assert_eq!(ra.0.job.branch_name, rb.0.job.branch_name);
    assert_ne!(ra.0.job.id, rb.0.job.id);
}

#[test]
fn error_message_present_exactly_when_failed() {
    let mut registry = JobRegistry::new();
    let mut ok = start(&mut registry, 42, "try");
    assert!(ok.job.error_message.is_none());
    run_to_polling(&mut ok);
    ok.advance(Ok("success".to_string()), 9);
    assert!(ok.job.error_message.is_none());
    let mut registry = JobRegistry::new();
    let mut bad = start(&mut registry, 42, "try");
    run_to_polling(&mut bad);
    bad.advance(Err("timeout".to_string()), 9);
    assert_eq!(bad.job.status, JobStatus::Failed);
    assert!(!bad.job.error_message.unwrap().is_empty());
}

#[test]
fn begin_uses_fresh_identity_and_clock() {
    let mut registry = JobRegistry::new();
    let (run, _) = begin(&mut registry, &widgets(), 42, "try").unwrap();
    assert!(run.job.created_at > 0);
    assert_eq!(run.job.created_at, run.job.updated_at);
    let mut other = JobRegistry::new();
    let (again, _) = begin(&mut other, &widgets(), 42, "try").unwrap();
    assert_ne!(run.job.id, again.job.id);
}

#[test]
fn advance_now_stamps_terminal_state() {
    let mut registry = JobRegistry::new();
    let mut run = start(&mut registry, 42, "try");
    run_to_polling(&mut run);
    run.advance_now(Ok("success".to_string()));
    assert_eq!(run.job.status, JobStatus::Completed);
    assert!(run.job.updated_at > 1000);
}

#[test]
fn refused_status_poll_records_upstream_error() {
    let mut registry = JobRegistry::new();
    let mut run = start(&mut registry, 42, "try");
    run_to_polling(&mut run);
    let polled = github_merge_bot::combined_state(403, None);
    assert!(matches!(run.advance(polled, 2000), Action::UpdateRecord));
    assert_eq!(run.job.status, JobStatus::Failed);
    assert_eq!(
        run.job.error_message.as_deref(),
        Some("Failed to get combined status: 403")
    );
}

#[test]
fn try_merge_comment_selects_try_merge_branch() {
    let processor = github_merge_bot::CommandProcessor::new();
    let command = processor.parse_command("@bot try-merge").unwrap();
    let mut registry = JobRegistry::new();
    let run = start(&mut registry, 42, &command);
    assert_eq!(run.job.branch_name, "automation/bot/try-merge/42");
}
