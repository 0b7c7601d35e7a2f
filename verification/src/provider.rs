//! The provider: what starting and stopping a deployment decide, step by step,
//! between the calls to the resolver, the loader, the store and the channel.

use vstd::prelude::*;
use vstd::string::StringExecFns;
use futures::sync::mpsc::{Receiver, Sender};
use crate::channel::{event_channel, EVENT_CHANNEL_CAPACITY};
use crate::running::{admits, RunningSet};
use crate::types::{
    DataSource, DeploymentId, ErrorView, EventView, Link, ManifestView, SubgraphAssignmentProviderError,
    SubgraphAssignmentProviderEvent, SubgraphManifest,
};

verus! {

/// The text that every manifest link starts with.
pub open spec fn link_prefix() -> Seq<char> {
    seq!['/', 'i', 'p', 'f', 's', '/']
}

/// The link under which the manifest of a deployment is fetched.
pub open spec fn link_of(id: Seq<char>) -> Seq<char> {
    link_prefix() + id
}

/// What a provider is: the deployments that are running, the events it has
/// handed out for the channel so far, oldest first, and whether the receiving
/// end of the channel is still to be taken.
pub struct ProviderView {
    pub running: Set<Seq<char>>,
    pub events: Seq<EventView>,
    pub stream_available: bool,
}

/// What came back from fetching and parsing the manifest.
pub open spec fn resolved_view(resolved: Result<SubgraphManifest, String>) -> Result<ManifestView, Seq<char>> {
    match resolved {
        Ok(m) => Ok(m@),
        Err(e) => Err(e@),
    }
}

/// What came back from loading the dynamic data sources.
pub open spec fn loaded_view(loaded: Result<Vec<DataSource>, String>) -> Result<Seq<DataSource>, Seq<char>> {
    match loaded {
        Ok(ds) => Ok(ds@),
        Err(e) => Err(e@),
    }
}

/// The manifest that a start goes on with: the resolved one with the dynamic
/// data sources behind its own, or the error of the first step that failed.
pub open spec fn resolution(
    resolved: Result<ManifestView, Seq<char>>,
    loaded: Result<Seq<DataSource>, Seq<char>>,
) -> Result<ManifestView, ErrorView> {
    match resolved {
        Err(e) => Err(ErrorView::ResolveError(e)),
        Ok(m) => match loaded {
            Err(e) => Err(ErrorView::DynamicDataSourcesError(e)),
            Ok(ds) => Ok(m.with_dynamic(ds)),
        },
    }
}

/// Admission of a resolved manifest: a deployment that is not running enters
/// the running set and its start event is handed out; one that is running
/// leaves everything as it was.
pub open spec fn try_start_spec(s: ProviderView, m: ManifestView) -> (ProviderView, Result<EventView, ErrorView>) {
    if admits(s.running, m.id) {
        (
            ProviderView {
                running: s.running.insert(m.id),
                events: s.events.push(EventView::Start(m)),
                stream_available: s.stream_available,
            },
            Ok(EventView::Start(m)),
        )
    } else {
        (s, Err(ErrorView::AlreadyRunning(m.id)))
    }
}

/// A whole start: resolution, then admission. An error before admission
/// leaves the provider as it was.
pub open spec fn start_spec(
    s: ProviderView,
    resolved: Result<ManifestView, Seq<char>>,
    loaded: Result<Seq<DataSource>, Seq<char>>,
) -> (ProviderView, Result<EventView, ErrorView>) {
    match resolution(resolved, loaded) {
        Err(e) => (s, Err(e)),
        Ok(m) => try_start_spec(s, m),
    }
}

/// A stop: a running deployment leaves the running set and its stop event is
/// handed out; for any other nothing changes.
pub open spec fn stop_spec(s: ProviderView, id: Seq<char>) -> (ProviderView, Result<EventView, ErrorView>) {
    if s.running.contains(id) {
        (
            ProviderView {
                running: s.running.remove(id),
                events: s.events.push(EventView::Stop(id)),
                stream_available: s.stream_available,
            },
            Ok(EventView::Stop(id)),
        )
    } else {
        (s, Err(ErrorView::NotRunning(id)))
    }
}

/// How a start ended: what the caller gets, the event that goes on the
/// channel before the call returns, and the deployment to mark as failed.
#[derive(Debug)]
pub struct StartOutcome {
    pub result: Result<(), SubgraphAssignmentProviderError>,
    pub event: Option<SubgraphAssignmentProviderEvent>,
    pub failure_marker: Option<DeploymentId>,
}

impl StartOutcome {
    /// Whether this outcome is the one that a start with the given result for
    /// the deployment `id` has: on success the event and no marker, on an
    /// error the error and the marker for `id`.
    pub open spec fn reports(&self, id: Seq<char>, outcome: Result<EventView, ErrorView>) -> bool {
        match outcome {
            Ok(ev) => {
                &&& self.result is Ok
                &&& self.event matches Some(e) && e@ == ev
                &&& self.failure_marker is None
            },
            Err(err) => {
                &&& self.result matches Err(e) && e@ == err
                &&& self.event is None
                &&& self.failure_marker matches Some(f) && f@ == id
            },
        }
    }
}

pub struct SubgraphAssignmentProvider {
    event_stream: Option<Receiver<SubgraphAssignmentProviderEvent>>,
    event_sink: Sender<SubgraphAssignmentProviderEvent>,
    subgraphs_running: RunningSet,
    handed_out: Ghost<Seq<EventView>>,
}

impl View for SubgraphAssignmentProvider {
    type V = ProviderView;

    closed spec fn view(&self) -> ProviderView {
        ProviderView {
            running: self.subgraphs_running@,
            events: self.handed_out@,
            stream_available: self.event_stream is Some,
        }
    }
}

impl SubgraphAssignmentProvider {
    /// The running set is well formed. Every provider that `new` makes has
    /// this, and every method keeps it.
    pub closed spec fn wf(&self) -> bool {
        self.subgraphs_running.wf()
    }

    /// A provider with nothing running, no event handed out, and a fresh
    /// channel whose receiving end is still to be taken.
    pub fn new() -> (p: Self)
        ensures
            p.wf(),
            p@.running == Set::<Seq<char>>::empty(),
            p@.events == Seq::<EventView>::empty(),
            p@.stream_available,
    {
        let (event_sink, event_stream) = event_channel(EVENT_CHANNEL_CAPACITY);
        SubgraphAssignmentProvider {
            event_stream: Some(event_stream),
            event_sink,
            subgraphs_running: RunningSet::new(),
            handed_out: Ghost(Seq::empty()),
        }
    }

    /// The link under which the manifest of `id` is fetched.
    pub fn manifest_link(id: &DeploymentId) -> (link: Link)
        ensures
            link@ == link_of(id@),
    {
        proof {
            reveal_strlit("/ipfs/");
            assert("/ipfs/"@ =~= link_prefix());
        }
        Link { link: String::from_str("/ipfs/").concat(id.id.as_str()) }
    }

    /// What fetching the manifest means for the start: the manifest, or a
    /// resolve error with the resolver's message.
    pub fn manifest_resolved(resolved: Result<SubgraphManifest, String>) -> (r: Result<
        SubgraphManifest,
        SubgraphAssignmentProviderError,
    >)
        ensures
            match resolved {
                Ok(m) => r == Ok::<SubgraphManifest, SubgraphAssignmentProviderError>(m),
                Err(e) => r == Err::<SubgraphManifest, SubgraphAssignmentProviderError>(
                    SubgraphAssignmentProviderError::ResolveError(e),
                ),
            },
    {
        match resolved {
            Ok(m) => Ok(m),
            Err(e) => Err(SubgraphAssignmentProviderError::ResolveError(e)),
        }
    }

    /// Puts the dynamic data sources behind the manifest's own, in the order
    /// in which they were loaded; a failed load ends the start.
    pub fn add_dynamic_data_sources(manifest: SubgraphManifest, loaded: Result<Vec<DataSource>, String>) -> (r:
        Result<SubgraphManifest, SubgraphAssignmentProviderError>)
        ensures
            match loaded {
                Ok(ds) => r matches Ok(m) && m.id == manifest.id && m.schema == manifest.schema
                    && m@ == manifest@.with_dynamic(ds@),
                Err(e) => r == Err::<SubgraphManifest, SubgraphAssignmentProviderError>(
                    SubgraphAssignmentProviderError::DynamicDataSourcesError(e),
                ),
            },
    {
        match loaded {
            Ok(ds) => {
                let mut manifest = manifest;
                let mut ds = ds;
                manifest.data_sources.append(&mut ds);
                Ok(manifest)
            },
            Err(e) => Err(SubgraphAssignmentProviderError::DynamicDataSourcesError(e)),
        }
    }

    /// Admits the deployment of a resolved manifest. If it is not running, it
    /// enters the running set and the start event to put on the channel comes
    /// back. If it is running, nothing changes and the error names it.
    pub fn try_start(&mut self, manifest: SubgraphManifest) -> (r: Result<
        SubgraphAssignmentProviderEvent,
        SubgraphAssignmentProviderError,
    >)
        requires
            old(self).wf(),
        ensures
            final(self).wf() && final(self).sink_end() == old(self).sink_end(),
            final(self)@ == try_start_spec(old(self)@, manifest@).0,
            match r {
                Ok(ev) => ev == SubgraphAssignmentProviderEvent::SubgraphStart(manifest)
                    && try_start_spec(old(self)@, manifest@).1 == Ok::<EventView, ErrorView>(ev@),
                Err(e) => e == SubgraphAssignmentProviderError::AlreadyRunning(manifest.id)
                    && try_start_spec(old(self)@, manifest@).1 == Err::<EventView, ErrorView>(e@),
            },
    {
        if self.subgraphs_running.try_start(manifest.id.duplicate()) {
            self.handed_out = Ghost(self.handed_out@.push(EventView::Start(manifest@)));
            Ok(SubgraphAssignmentProviderEvent::SubgraphStart(manifest))
        } else {
            assert(self.subgraphs_running@ =~= old(self).subgraphs_running@);
            Err(SubgraphAssignmentProviderError::AlreadyRunning(manifest.id))
        }
    }

    /// A whole start of the deployment `id`, given what the resolver, the
    /// loader and the store answer. Outcomes of steps that the start does not
    /// reach are not looked at, and whether the attribute indexes could be
    /// built makes no difference. The running set goes by the deployment that
    /// the manifest names; the failure marker is for `id`.
    pub fn start(
        &mut self,
        id: &DeploymentId,
        resolved: Result<SubgraphManifest, String>,
        loaded: Result<Vec<DataSource>, String>,
        indexed: Result<(), String>,
    ) -> (out: StartOutcome)
        requires
            old(self).wf(),
        ensures
            final(self).wf() && final(self).sink_end() == old(self).sink_end(),
            final(self)@ == start_spec(old(self)@, resolved_view(resolved), loaded_view(loaded)).0,
            out.reports(id@, start_spec(old(self)@, resolved_view(resolved), loaded_view(loaded)).1),
    {
        let admitted = match Self::manifest_resolved(resolved) {
            Err(e) => Err(e),
            Ok(manifest) => match Self::add_dynamic_data_sources(manifest, loaded) {
                Err(e) => Err(e),
                Ok(full) => self.try_start(full),
            },
        };
        match admitted {
            Ok(event) => StartOutcome {
                result: Ok(()),
                event: Some(event),
                failure_marker: None,
            },
            Err(e) => StartOutcome { result: Err(e), event: None, failure_marker: Some(id.duplicate()) },
        }
    }

    /// Stops a deployment. If it is running, it leaves the running set and the
    /// stop event to put on the channel comes back. If it is not, nothing
    /// changes and the error names it.
    pub fn stop(&mut self, id: DeploymentId) -> (r: Result<
        SubgraphAssignmentProviderEvent,
        SubgraphAssignmentProviderError,
    >)
        requires
            old(self).wf(),
        ensures
            final(self).wf() && final(self).sink_end() == old(self).sink_end(),
            final(self)@ == stop_spec(old(self)@, id@).0,
            match r {
                Ok(ev) => ev == SubgraphAssignmentProviderEvent::SubgraphStop(id)
                    && stop_spec(old(self)@, id@).1 == Ok::<EventView, ErrorView>(ev@),
                Err(e) => e == SubgraphAssignmentProviderError::NotRunning(id)
                    && stop_spec(old(self)@, id@).1 == Err::<EventView, ErrorView>(e@),
            },
    {
        if self.subgraphs_running.stop(&id) {
            self.handed_out = Ghost(self.handed_out@.push(EventView::Stop(id@)));
            Ok(SubgraphAssignmentProviderEvent::SubgraphStop(id))
        } else {
            assert(self.subgraphs_running@ =~= old(self).subgraphs_running@);
            Err(SubgraphAssignmentProviderError::NotRunning(id))
        }
    }

    /// Hands out the receiving end of the channel: once, and never again.
    pub fn take_event_stream(&mut self) -> (stream: Option<Receiver<SubgraphAssignmentProviderEvent>>)
        ensures
            stream is Some == old(self)@.stream_available,
            !final(self)@.stream_available,
            final(self)@.running == old(self)@.running,
            final(self)@.events == old(self)@.events && final(self).sink_end() == old(self).sink_end(),
            old(self).wf() ==> final(self).wf(),
    {
        self.event_stream.take()
    }

    /// The sending end of the channel, through which the events that `try_start`
    /// and `stop` hand out are sent.
    pub fn event_sink(&self) -> (sink: &Sender<SubgraphAssignmentProviderEvent>)
        ensures
            *sink == self.sink_end(),
    {
        &self.event_sink
    }

    /// Whether the deployment is running.
    pub fn is_running(&self, id: &DeploymentId) -> (b: bool)
        ensures
            b == self@.running.contains(id@),
    {
        self.subgraphs_running.contains(id)
    }

    /// The sending end of the channel that this provider was made with. No
    /// method puts another in its place.
    pub closed spec fn sink_end(&self) -> Sender<SubgraphAssignmentProviderEvent> {
        self.event_sink
    }
}

} // verus!
