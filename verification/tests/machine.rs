use futures::Stream;
use subgraph_provider::machine::{StartAction, StartAnswer, StartState};
use subgraph_provider::provider::SubgraphAssignmentProvider;
use subgraph_provider::resolver::{FetchFailure, NextStep, ResolveFailure, RetryPolicy};
use subgraph_provider::types::{
    DataSource, DeploymentId, Link, SubgraphAssignmentProviderError, SubgraphAssignmentProviderEvent,
    SubgraphManifest,
};

fn dep_id(s: &str) -> DeploymentId {
    DeploymentId::new(s.to_string())
}

fn plain_manifest(s: &str) -> SubgraphManifest {
    SubgraphManifest {
        id: dep_id(s),
        schema: "type Token @entity { id: ID! }".to_string(),
        data_sources: vec![DataSource { kind: "ethereum/contract".to_string(), name: "factory".to_string() }],
    }
}

/// Collaborators with scripted answers, and a record of what was asked of them.
struct World {
    fetches: Vec<Result<Vec<u8>, FetchFailure>>,
    dynamic: Result<Vec<DataSource>, String>,
    index_build: Result<(), String>,
    marker_write: Result<(), String>,
    policy: RetryPolicy,
    fetched_links: Vec<String>,
    loads: Vec<DeploymentId>,
    index_requests: Vec<(DeploymentId, String)>,
    markers: Vec<DeploymentId>,
    sent: usize,
}

impl World {
    fn new(fetches: Vec<Result<Vec<u8>, FetchFailure>>) -> World {
        World {
            fetches,
            dynamic: Ok(vec![]),
            index_build: Ok(()),
            marker_write: Ok(()),
            policy: RetryPolicy::new(60_000, 3, 250),
            fetched_links: vec![],
            loads: vec![],
            index_requests: vec![],
            markers: vec![],
            sent: 0,
        }
    }

    fn resolve(&mut self, link: &Link, id: &DeploymentId) -> Result<SubgraphManifest, String> {
        let mut made: u32 = 0;
        loop {
            made += 1;
            self.fetched_links.push(link.link.clone());
            let answer = self.fetches.remove(0);
            match self.policy.after_attempt(made, answer) {
                NextStep::Done(_bytes) => return Ok(plain_manifest(&id.id)),
                NextStep::GiveUp(ResolveFailure::ResolveTimeout) => return Err("timed out".to_string()),
                NextStep::GiveUp(ResolveFailure::ResolveError(m)) => return Err(m),
                NextStep::RetryAfter(_) => {},
            }
        }
    }

    fn start(
        &mut self,
        p: &mut SubgraphAssignmentProvider,
        id: &DeploymentId,
    ) -> Result<(), SubgraphAssignmentProviderError> {
        let mut sink = p.event_sink().clone();
        let (mut state, mut action) = SubgraphAssignmentProvider::begin_start(id);
        loop {
            let answer = match action {
                StartAction::Resolve(link) => StartAnswer::Resolved(self.resolve(&link, id)),
                StartAction::LoadDynamicDataSources(which) => {
                    self.loads.push(which);
                    StartAnswer::Loaded(self.dynamic.clone())
                },
                StartAction::BuildIndexes(which, schema) => {
                    self.index_requests.push((which, schema));
                    StartAnswer::Indexed(self.index_build.clone())
                },
                StartAction::Send(event) => {
                    sink.try_send(event).unwrap();
                    self.sent += 1;
                    StartAnswer::Sent
                },
                StartAction::MarkFailed(which) => {
                    self.markers.push(which);
                    StartAnswer::Reported(self.marker_write.clone())
                },
                StartAction::Return(result) => return result,
            };
            let (next_state, next_action) = p.step(id, state, answer);
            state = next_state;
            action = next_action.expect("the answer is the one that the state waits for");
        }
    }
}

#[test]
fn begin_start_asks_for_the_manifest() {
    let (state, action) = SubgraphAssignmentProvider::begin_start(&dep_id("sg1"));
    assert!(matches!(state, StartState::Resolving));
    match action {
        StartAction::Resolve(link) => assert_eq!(link.link, "/ipfs/sg1"),
        other => panic!("unexpected action: {:?}", other),
    }
}

#[test]
fn resolver_fails_twice_then_succeeds() {
    let mut p = SubgraphAssignmentProvider::new();
    let stream = p.take_event_stream().unwrap();
    let mut world = World::new(vec![
        Err(FetchFailure::Transient("connection reset".to_string())),
        Err(FetchFailure::TimedOut),
        Ok(b"manifest".to_vec()),
    ]);
    let result = world.start(&mut p, &dep_id("sg1"));
    assert_eq!(result, Ok(()));
    assert_eq!(world.fetched_links, vec!["/ipfs/sg1", "/ipfs/sg1", "/ipfs/sg1"]);
    assert_eq!(world.sent, 1);
    assert!(world.markers.is_empty());
    assert_eq!(world.loads, vec![dep_id("sg1")]);
    assert_eq!(world.index_requests, vec![(dep_id("sg1"), "type Token @entity { id: ID! }".to_string())]);
    assert!(p.is_running(&dep_id("sg1")));
    let mut seen = stream.wait();
    assert_eq!(seen.next(), Some(Ok(SubgraphAssignmentProviderEvent::SubgraphStart(plain_manifest("sg1")))));
}

#[test]
fn resolver_out_of_budget_marks_the_deployment_failed() {
    let mut p = SubgraphAssignmentProvider::new();
    let mut world = World::new(vec![
        Err(FetchFailure::TimedOut),
        Err(FetchFailure::TimedOut),
        Err(FetchFailure::Transient("still down".to_string())),
    ]);
    world.marker_write = Err("store down".to_string());
    let result = world.start(&mut p, &dep_id("sg1"));
    assert_eq!(result, Err(SubgraphAssignmentProviderError::ResolveError("still down".to_string())));
    assert_eq!(world.markers, vec![dep_id("sg1")]);
    assert_eq!(world.sent, 0);
    assert!(world.loads.is_empty());
    assert!(world.index_requests.is_empty());
    assert!(!p.is_running(&dep_id("sg1")));
}

#[test]
fn two_starts_of_one_deployment_both_resolved() {
    let mut p = SubgraphAssignmentProvider::new();
    let sg1 = dep_id("sg1");
    // Both starts resolve and load before either reaches the running set.
    let (s1, _) = SubgraphAssignmentProvider::begin_start(&sg1);
    let (s2, _) = SubgraphAssignmentProvider::begin_start(&sg1);
    let (s1, _) = p.step(&sg1, s1, StartAnswer::Resolved(Ok(plain_manifest("sg1"))));
    let (s2, _) = p.step(&sg1, s2, StartAnswer::Resolved(Ok(plain_manifest("sg1"))));
    let (s2, a2) = p.step(&sg1, s2, StartAnswer::Loaded(Ok(vec![])));
    let (s1, a1) = p.step(&sg1, s1, StartAnswer::Loaded(Ok(vec![])));
    assert!(matches!(a2, Some(StartAction::BuildIndexes(_, _))));
    assert!(matches!(a1, Some(StartAction::MarkFailed(_))));
    let (s2, a2) = p.step(&sg1, s2, StartAnswer::Indexed(Ok(())));
    assert!(matches!(a2, Some(StartAction::Send(SubgraphAssignmentProviderEvent::SubgraphStart(_)))));
    let (s2, a2) = p.step(&sg1, s2, StartAnswer::Sent);
    let (s1, a1) = p.step(&sg1, s1, StartAnswer::Reported(Ok(())));
    assert!(matches!(s1, StartState::Finished));
    assert!(matches!(s2, StartState::Finished));
    match (a1, a2) {
        (Some(StartAction::Return(r1)), Some(StartAction::Return(r2))) => {
            assert_eq!(r2, Ok(()));
            assert_eq!(r1, Err(SubgraphAssignmentProviderError::AlreadyRunning(dep_id("sg1"))));
        },
        other => panic!("unexpected actions: {:?}", other),
    }
    assert!(p.is_running(&sg1));
}

#[test]
fn index_build_failure_is_swallowed_by_the_machine() {
    let mut p = SubgraphAssignmentProvider::new();
    let _stream = p.take_event_stream().unwrap();
    let mut world = World::new(vec![Ok(vec![])]);
    world.index_build = Err("index build failed".to_string());
    assert_eq!(world.start(&mut p, &dep_id("sg1")), Ok(()));
    assert_eq!(world.sent, 1);
    assert!(world.markers.is_empty());
}

#[test]
fn dynamic_load_failure_marks_failed_and_inserts_nothing() {
    let mut p = SubgraphAssignmentProvider::new();
    let mut world = World::new(vec![Ok(vec![])]);
    world.dynamic = Err("store down".to_string());
    let result = world.start(&mut p, &dep_id("sg1"));
    assert_eq!(result, Err(SubgraphAssignmentProviderError::DynamicDataSourcesError("store down".to_string())));
    assert_eq!(world.markers, vec![dep_id("sg1")]);
    assert_eq!(world.sent, 0);
    assert!(!p.is_running(&dep_id("sg1")));
}

#[test]
fn already_running_marks_failed_and_sends_nothing() {
    let mut p = SubgraphAssignmentProvider::new();
    let _stream = p.take_event_stream().unwrap();
    let mut world = World::new(vec![Ok(vec![]), Ok(vec![])]);
    assert_eq!(world.start(&mut p, &dep_id("sg1")), Ok(()));
    let second = world.start(&mut p, &dep_id("sg1"));
    assert_eq!(second, Err(SubgraphAssignmentProviderError::AlreadyRunning(dep_id("sg1"))));
    assert_eq!(world.markers, vec![dep_id("sg1")]);
    assert_eq!(world.sent, 1);
    assert!(p.is_running(&dep_id("sg1")));
}

#[test]
fn answer_out_of_turn_changes_nothing() {
    let mut p = SubgraphAssignmentProvider::new();
    let sg1 = dep_id("sg1");
    let (state, action) = p.step(&sg1, StartState::Resolving, StartAnswer::Sent);
    assert!(matches!(state, StartState::Resolving));
    assert!(action.is_none());
    let (state, action) = p.step(&sg1, StartState::Loading(plain_manifest("sg1")), StartAnswer::Indexed(Ok(())));
    assert!(matches!(state, StartState::Loading(_)));
    assert!(action.is_none());
    let (state, action) = p.step(&sg1, StartState::Finished, StartAnswer::Reported(Ok(())));
    assert!(matches!(state, StartState::Finished));
    assert!(action.is_none());
    assert!(!p.is_running(&sg1));
}

#[test]
fn machine_events_keep_the_order_of_the_starts() {
    let mut p = SubgraphAssignmentProvider::new();
    let stream = p.take_event_stream().unwrap();
    let mut world = World::new(vec![Ok(vec![]), Ok(vec![])]);
    assert_eq!(world.start(&mut p, &dep_id("A")), Ok(()));
    assert_eq!(world.start(&mut p, &dep_id("B")), Ok(()));
    let mut seen = stream.wait();
    assert_eq!(seen.next(), Some(Ok(SubgraphAssignmentProviderEvent::SubgraphStart(plain_manifest("A")))));
    assert_eq!(seen.next(), Some(Ok(SubgraphAssignmentProviderEvent::SubgraphStart(plain_manifest("B")))));
}
