use subgraph_provider::provider::SubgraphAssignmentProvider;
use subgraph_provider::resolver::{FetchFailure, NextStep, ResolveFailure, RetryPolicy};
use subgraph_provider::types::{DeploymentId, SubgraphAssignmentProviderEvent, SubgraphManifest};

fn resolve(policy: &RetryPolicy, answers: Vec<Result<Vec<u8>, FetchFailure>>) -> (Result<Vec<u8>, ResolveFailure>, u32) {
    let mut made: u32 = 0;
    for answer in answers {
        made += 1;
        match policy.after_attempt(made, answer) {
            NextStep::Done(bytes) => return (Ok(bytes), made),
            NextStep::GiveUp(e) => return (Err(e), made),
            NextStep::RetryAfter(ms) => assert_eq!(ms, policy.backoff_ms),
        }
    }
    panic!("the adapter asked for more attempts than there are answers");
}

#[test]
fn policy_keeps_its_constants() {
    let p = RetryPolicy::new(60_000, 3, 250);
    assert_eq!(p, RetryPolicy { timeout_ms: 60_000, max_attempts: 3, backoff_ms: 250 });
}

#[test]
fn fetched_bytes_end_the_resolution() {
    let p = RetryPolicy::new(60_000, 3, 250);
    assert_eq!(p.after_attempt(1, Ok(vec![1, 2, 3])), NextStep::Done(vec![1, 2, 3]));
    assert_eq!(p.after_attempt(7, Ok(vec![])), NextStep::Done(vec![]));
}

#[test]
fn transient_failures_are_retried_within_budget() {
    let p = RetryPolicy::new(60_000, 3, 250);
    assert_eq!(p.after_attempt(1, Err(FetchFailure::Transient("a".to_string()))), NextStep::RetryAfter(250));
    assert_eq!(p.after_attempt(2, Err(FetchFailure::TimedOut)), NextStep::RetryAfter(250));
    assert_eq!(
        p.after_attempt(3, Err(FetchFailure::Transient("c".to_string()))),
        NextStep::GiveUp(ResolveFailure::ResolveError("c".to_string()))
    );
    assert_eq!(p.after_attempt(3, Err(FetchFailure::TimedOut)), NextStep::GiveUp(ResolveFailure::ResolveTimeout));
    assert_eq!(p.after_attempt(4, Err(FetchFailure::TimedOut)), NextStep::GiveUp(ResolveFailure::ResolveTimeout));
}

#[test]
fn permanent_failure_is_not_retried() {
    let p = RetryPolicy::new(60_000, 3, 250);
    assert_eq!(
        p.after_attempt(1, Err(FetchFailure::Permanent("bad link".to_string()))),
        NextStep::GiveUp(ResolveFailure::ResolveError("bad link".to_string()))
    );
}

#[test]
fn zero_attempts_budget_gives_up_at_once() {
    let p = RetryPolicy::new(1, 0, 0);
    assert_eq!(p.after_attempt(1, Err(FetchFailure::TimedOut)), NextStep::GiveUp(ResolveFailure::ResolveTimeout));
}

#[test]
fn resolver_failing_twice_then_succeeding_starts_the_deployment() {
    let policy = RetryPolicy::new(60_000, 3, 250);
    let answers = vec![
        Err(FetchFailure::Transient("connection reset".to_string())),
        Err(FetchFailure::TimedOut),
        Ok(b"manifest".to_vec()),
    ];
    let (fetched, made) = resolve(&policy, answers);
    assert_eq!(made, 3);
    assert_eq!(fetched, Ok(b"manifest".to_vec()));
    let sg1 = DeploymentId::new("sg1".to_string());
    let parsed = fetched
        .map(|_bytes| SubgraphManifest { id: sg1.clone(), schema: String::new(), data_sources: vec![] })
        .map_err(|e| format!("{:?}", e));
    let mut p = SubgraphAssignmentProvider::new();
    let out = p.start(&sg1, parsed, Ok(vec![]), Ok(()));
    assert_eq!(out.result, Ok(()));
    assert!(matches!(out.event, Some(SubgraphAssignmentProviderEvent::SubgraphStart(_))));
    assert_eq!(out.failure_marker, None);
}

#[test]
fn resolver_failing_beyond_budget_gives_up() {
    let policy = RetryPolicy::new(60_000, 2, 250);
    let answers = vec![
        Err(FetchFailure::TimedOut),
        Err(FetchFailure::TimedOut),
        Ok(b"too late".to_vec()),
    ];
    let (fetched, made) = resolve(&policy, answers);
    assert_eq!(made, 2);
    assert_eq!(fetched, Err(ResolveFailure::ResolveTimeout));
}
