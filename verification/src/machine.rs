//! A start as a state machine. The caller performs each action that the
//! machine asks for (a fetch, a load, a write, a send) and hands the answer
//! back; the machine decides what follows.

use vstd::prelude::*;
use crate::provider::{try_start_spec, ProviderView, SubgraphAssignmentProvider};
use crate::types::{
    DataSource, DeploymentId, ErrorView, EventView, Link, ManifestView, SubgraphAssignmentProviderError,
    SubgraphAssignmentProviderEvent, SubgraphManifest,
};

verus! {

/// Where a start stands.
#[derive(Debug)]
pub enum StartState {
    /// The manifest is being fetched and parsed.
    Resolving,
    /// The dynamic data sources of the resolved manifest are being loaded.
    Loading(SubgraphManifest),
    /// The deployment was admitted and its attribute indexes are being built.
    Indexing(SubgraphAssignmentProviderEvent),
    /// The start event is on its way into the channel.
    Sending,
    /// The start failed and the failure marker is being written.
    Reporting(SubgraphAssignmentProviderError),
    /// The caller has its result.
    Finished,
}

/// What came back from the action that the machine asked for.
#[derive(Debug)]
pub enum StartAnswer {
    Resolved(Result<SubgraphManifest, String>),
    Loaded(Result<Vec<DataSource>, String>),
    Indexed(Result<(), String>),
    Sent,
    Reported(Result<(), String>),
}

/// What the machine asks its caller to do next.
#[derive(Debug)]
pub enum StartAction {
    /// Fetch and parse the manifest under this link.
    Resolve(Link),
    /// Load the dynamic data sources of this deployment.
    LoadDynamicDataSources(DeploymentId),
    /// Build the attribute indexes that this schema asks for, for this deployment.
    BuildIndexes(DeploymentId, String),
    /// Put this event on the channel, waiting for room if there is none.
    Send(SubgraphAssignmentProviderEvent),
    /// Mark this deployment as failed.
    MarkFailed(DeploymentId),
    /// Return this to the caller of the start.
    Return(Result<(), SubgraphAssignmentProviderError>),
}

/// What a state is: the same cases over the views of what they hold.
pub enum StateView {
    Resolving,
    Loading(ManifestView),
    Indexing(EventView),
    Sending,
    Reporting(ErrorView),
    Finished,
}

/// What an answer is.
pub enum AnswerView {
    Resolved(Result<ManifestView, Seq<char>>),
    Loaded(Result<Seq<DataSource>, Seq<char>>),
    Indexed(Result<(), Seq<char>>),
    Sent,
    Reported(Result<(), Seq<char>>),
}

/// What an action is.
pub enum ActionView {
    Resolve(Seq<char>),
    LoadDynamicDataSources(Seq<char>),
    BuildIndexes(Seq<char>, Seq<char>),
    Send(EventView),
    MarkFailed(Seq<char>),
    Return(Result<(), ErrorView>),
}

impl View for StartState {
    type V = StateView;

    open spec fn view(&self) -> StateView {
        match self {
            StartState::Resolving => StateView::Resolving,
            StartState::Loading(m) => StateView::Loading(m@),
            StartState::Indexing(ev) => StateView::Indexing(ev@),
            StartState::Sending => StateView::Sending,
            StartState::Reporting(e) => StateView::Reporting(e@),
            StartState::Finished => StateView::Finished,
        }
    }
}

/// What came back from a write to the store.
pub open spec fn outcome_view(r: Result<(), String>) -> Result<(), Seq<char>> {
    match r {
        Ok(_) => Ok(()),
        Err(e) => Err(e@),
    }
}

impl View for StartAnswer {
    type V = AnswerView;

    open spec fn view(&self) -> AnswerView {
        match self {
            StartAnswer::Resolved(r) => AnswerView::Resolved(crate::provider::resolved_view(*r)),
            StartAnswer::Loaded(r) => AnswerView::Loaded(crate::provider::loaded_view(*r)),
            StartAnswer::Indexed(r) => AnswerView::Indexed(outcome_view(*r)),
            StartAnswer::Sent => AnswerView::Sent,
            StartAnswer::Reported(r) => AnswerView::Reported(outcome_view(*r)),
        }
    }
}

impl View for StartAction {
    type V = ActionView;

    open spec fn view(&self) -> ActionView {
        match self {
            StartAction::Resolve(link) => ActionView::Resolve(link@),
            StartAction::LoadDynamicDataSources(id) => ActionView::LoadDynamicDataSources(id@),
            StartAction::BuildIndexes(id, schema) => ActionView::BuildIndexes(id@, schema@),
            StartAction::Send(ev) => ActionView::Send(ev@),
            StartAction::MarkFailed(id) => ActionView::MarkFailed(id@),
            StartAction::Return(r) => ActionView::Return(
                match r {
                    Ok(_) => Ok(()),
                    Err(e) => Err(e@),
                },
            ),
        }
    }
}

/// What an action is, where there is one.
pub open spec fn action_view(action: Option<StartAction>) -> Option<ActionView> {
    match action {
        Some(a) => Some(a@),
        None => None,
    }
}

/// What the answer makes of a start of `id` in the given state, on the given
/// provider: the provider afterwards, the next state, and the action to
/// perform. An answer that the state does not wait for changes nothing and
/// asks for nothing.
pub open spec fn step_spec(s: ProviderView, id: Seq<char>, state: StateView, answer: AnswerView) -> (
    ProviderView,
    StateView,
    Option<ActionView>,
) {
    match (state, answer) {
        (StateView::Resolving, AnswerView::Resolved(Ok(m))) => (
            s,
            StateView::Loading(m),
            Some(ActionView::LoadDynamicDataSources(id)),
        ),
        (StateView::Resolving, AnswerView::Resolved(Err(e))) => (
            s,
            StateView::Reporting(ErrorView::ResolveError(e)),
            Some(ActionView::MarkFailed(id)),
        ),
        (StateView::Loading(m), AnswerView::Loaded(Err(e))) => (
            s,
            StateView::Reporting(ErrorView::DynamicDataSourcesError(e)),
            Some(ActionView::MarkFailed(id)),
        ),
        (StateView::Loading(m), AnswerView::Loaded(Ok(ds))) => {
            let full = m.with_dynamic(ds);
            match try_start_spec(s, full).1 {
                Ok(ev) => (
                    try_start_spec(s, full).0,
                    StateView::Indexing(ev),
                    Some(ActionView::BuildIndexes(full.id, full.schema)),
                ),
                Err(e) => (try_start_spec(s, full).0, StateView::Reporting(e), Some(ActionView::MarkFailed(id))),
            }
        },
        (StateView::Indexing(ev), AnswerView::Indexed(_)) => (s, StateView::Sending, Some(ActionView::Send(ev))),
        (StateView::Sending, AnswerView::Sent) => (s, StateView::Finished, Some(ActionView::Return(Ok(())))),
        (StateView::Reporting(e), AnswerView::Reported(_)) => (
            s,
            StateView::Finished,
            Some(ActionView::Return(Err(e))),
        ),
        _ => (s, state, None),
    }
}

impl SubgraphAssignmentProvider {
    /// Begins a start of `id`: the manifest is to be resolved under the
    /// deployment's link.
    pub fn begin_start(id: &DeploymentId) -> (r: (StartState, StartAction))
        ensures
            r.0@ == StateView::Resolving,
            r.1@ == ActionView::Resolve(crate::provider::link_of(id@)),
    {
        (StartState::Resolving, StartAction::Resolve(Self::manifest_link(id)))
    }

    /// Takes the answer to the last action and says what follows.
    pub fn step(&mut self, id: &DeploymentId, state: StartState, answer: StartAnswer) -> (r: (
        StartState,
        Option<StartAction>,
    ))
        requires
            old(self).wf(),
        ensures
            final(self).wf() && final(self).sink_end() == old(self).sink_end(),
            final(self)@ == step_spec(old(self)@, id@, state@, answer@).0,
            r.0@ == step_spec(old(self)@, id@, state@, answer@).1,
            action_view(r.1) == step_spec(old(self)@, id@, state@, answer@).2,
    {
        match (state, answer) {
            (StartState::Resolving, StartAnswer::Resolved(resolved)) => {
                match Self::manifest_resolved(resolved) {
                    Ok(manifest) => (
                        StartState::Loading(manifest),
                        Some(StartAction::LoadDynamicDataSources(id.duplicate())),
                    ),
                    Err(e) => (StartState::Reporting(e), Some(StartAction::MarkFailed(id.duplicate()))),
                }
            },
            (StartState::Loading(manifest), StartAnswer::Loaded(loaded)) => {
                match Self::add_dynamic_data_sources(manifest, loaded) {
                    Err(e) => (StartState::Reporting(e), Some(StartAction::MarkFailed(id.duplicate()))),
                    Ok(full) => {
                        let deployment = full.id.duplicate();
                        let schema = full.schema.clone();
                        match self.try_start(full) {
                            Ok(event) => (
                                StartState::Indexing(event),
                                Some(StartAction::BuildIndexes(deployment, schema)),
                            ),
                            Err(e) => (StartState::Reporting(e), Some(StartAction::MarkFailed(id.duplicate()))),
                        }
                    },
                }
            },
            // Indexes only make queries faster: the start goes on without them.
            (StartState::Indexing(event), StartAnswer::Indexed(_)) => (
                StartState::Sending,
                Some(StartAction::Send(event)),
            ),
            (StartState::Sending, StartAnswer::Sent) => (StartState::Finished, Some(StartAction::Return(Ok(())))),
            // A marker that could not be written never stands in for the error.
            (StartState::Reporting(error), StartAnswer::Reported(_)) => (
                StartState::Finished,
                Some(StartAction::Return(Err(error))),
            ),
            (state, _) => (state, None),
        }
    }
}

} // verus!
