use ferrflow::git::retry::{
    is_push_rejected_error, is_transient_git_error, mentions_http_status, retry_start, retry_step,
    retry_warning, success_note, AttemptOutcome, ErrorChain, RetryAction, MAX_ATTEMPTS,
};

fn chain(causes: &[&str]) -> ErrorChain {
    ErrorChain { causes: causes.iter().map(|s| s.to_string()).collect() }
}

#[test]
fn terminal_phrases_win_over_transient_ones() {
    assert!(!is_transient_git_error(&chain(&[
        "push failed",
        "Connection reset by peer; ! [rejected] main -> main (non-fast-forward)"
    ])));
    assert!(!is_transient_git_error(&chain(&["remote: Repository not found. timed out"])));
}

#[test]
fn transient_phrases_are_found_in_any_cause_and_case() {
    assert!(is_transient_git_error(&chain(&["git push failed", "Could Not Resolve Host: github.com"])));
    assert!(is_transient_git_error(&chain(&["fatal: the remote end hung up unexpectedly"])));
    assert!(!is_transient_git_error(&chain(&["push to acme/network-api failed"])));
}

#[test]
fn a_status_counts_only_where_one_is_reported() {
    assert!(is_transient_git_error(&chain(&["The requested URL returned error: 503"])));
    assert!(is_transient_git_error(&chain(&["HTTP 502 from proxy"])));
    assert!(!is_transient_git_error(&chain(&["failed to push tag v1.503.0"])));
    assert!(mentions_http_status("status code 504", "504"));
    assert!(!mentions_http_status("v1.504.0", "504"));
}

#[test]
fn push_rejection_is_recognised() {
    assert!(is_push_rejected_error(&chain(&["GIT_PUSH_REJECTED"]), "GIT_PUSH_REJECTED"));
    assert!(is_push_rejected_error(
        &chain(&["push failed", "Updates were rejected (fetch first)"]),
        "GIT_PUSH_REJECTED"
    ));
    assert!(is_push_rejected_error(&chain(&["Stale Info"]), "E1"));
    assert!(!is_push_rejected_error(&chain(&["GIT_PUSH_BRANCH"]), "GIT_PUSH_REJECTED"));
    assert!(!is_push_rejected_error(&chain(&[]), "E1"));
}

#[test]
fn a_transient_failure_waits_with_doubling_delays_then_gives_up() {
    let mut state = retry_start();
    let mut waits = Vec::new();
    let transient = AttemptOutcome::Failed(chain(&["connection reset"]));
    loop {
        let (next, action) = retry_step(state, &transient);
        match action {
            RetryAction::Wait { secs } => waits.push(secs),
            RetryAction::GiveUp => break,
            RetryAction::Finish { .. } => panic!("a failure never finishes"),
        }
        state = next;
    }
    assert_eq!(waits, vec![1, 2, 4]);
    assert_eq!(waits.len() as u32 + 1, MAX_ATTEMPTS);
}

#[test]
fn a_permanent_failure_gives_up_at_once() {
    let (_, action) = retry_step(retry_start(), &AttemptOutcome::Failed(chain(&["permission denied"])));
    assert!(matches!(action, RetryAction::GiveUp));
}

#[test]
fn success_reports_whether_it_was_retried() {
    let (_, first) = retry_step(retry_start(), &AttemptOutcome::Succeeded);
    assert!(matches!(first, RetryAction::Finish { retried: false }));
    let (second_state, _) =
        retry_step(retry_start(), &AttemptOutcome::Failed(chain(&["timed out"])));
    let (_, second) = retry_step(second_state, &AttemptOutcome::Succeeded);
    assert!(matches!(second, RetryAction::Finish { retried: true }));
}

#[test]
fn retry_lines_read_in_full() {
    assert_eq!(success_note("push", 2), "  ✓ push succeeded on attempt 2/4");
    assert_eq!(
        retry_warning("push", 1, "early EOF", 1),
        "  ⚠ push attempt 1/4 failed (transient): early EOF; retrying in 1s"
    );
}
