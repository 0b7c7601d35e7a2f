//! The plain data that the orchestrator moves around, each with its view.

use vstd::prelude::*;

verus! {

/// Identifier of a deployment. Two identifiers name the same deployment exactly
/// when their text is equal.
#[derive(Debug, Clone, PartialEq, Eq)]
pub struct DeploymentId {
    pub id: String,
}

impl View for DeploymentId {
    type V = Seq<char>;

    open spec fn view(&self) -> Seq<char> {
        self.id@
    }
}

impl DeploymentId {
    pub fn new(id: String) -> (r: Self)
        ensures
            r.id == id,
            r@ == id@,
    {
        DeploymentId { id }
    }

    /// Whether both identifiers name the same deployment.
    pub fn same(&self, other: &DeploymentId) -> (b: bool)
        ensures
            b == (self@ == other@),
    {
        self.id.eq(&other.id)
    }

    /// A second copy of this identifier.
    pub fn duplicate(&self) -> (r: Self)
        ensures
            r == *self,
    {
        DeploymentId { id: self.id.clone() }
    }
}

/// Content address under which a deployment's manifest is fetched.
#[derive(Debug, Clone, PartialEq, Eq)]
pub struct Link {
    pub link: String,
}

impl View for Link {
    type V = Seq<char>;

    open spec fn view(&self) -> Seq<char> {
        self.link@
    }
}

/// One data source of a deployment: what it watches, and its configuration.
#[derive(Debug, Clone, PartialEq, Eq)]
pub struct DataSource {
    pub kind: String,
    pub name: String,
}

/// A resolved deployment definition.
#[derive(Debug, Clone, PartialEq, Eq)]
pub struct SubgraphManifest {
    pub id: DeploymentId,
    pub schema: String,
    pub data_sources: Vec<DataSource>,
}

/// What a manifest is: its deployment, its schema document and its data
/// sources in order, static ones first.
pub struct ManifestView {
    pub id: Seq<char>,
    pub schema: Seq<char>,
    pub data_sources: Seq<DataSource>,
}

impl View for SubgraphManifest {
    type V = ManifestView;

    open spec fn view(&self) -> ManifestView {
        ManifestView { id: self.id@, schema: self.schema@, data_sources: self.data_sources@ }
    }
}

impl ManifestView {
    /// This manifest with further data sources appended behind its own.
    pub open spec fn with_dynamic(self, dynamic: Seq<DataSource>) -> ManifestView {
        ManifestView { id: self.id, schema: self.schema, data_sources: self.data_sources + dynamic }
    }
}

/// A lifecycle notification for the consumer that runs deployments.
#[derive(Debug, Clone, PartialEq, Eq)]
pub enum SubgraphAssignmentProviderEvent {
    SubgraphStart(SubgraphManifest),
    SubgraphStop(DeploymentId),
}

/// What an event is: the manifest that starts, or the deployment that stops.
pub enum EventView {
    Start(ManifestView),
    Stop(Seq<char>),
}

impl View for SubgraphAssignmentProviderEvent {
    type V = EventView;

    open spec fn view(&self) -> EventView {
        match self {
            SubgraphAssignmentProviderEvent::SubgraphStart(m) => EventView::Start(m@),
            SubgraphAssignmentProviderEvent::SubgraphStop(id) => EventView::Stop(id@),
        }
    }
}

/// Why a start or a stop did not go through.
#[derive(Debug, Clone, PartialEq, Eq)]
pub enum SubgraphAssignmentProviderError {
    /// The manifest could not be fetched or parsed.
    ResolveError(String),
    /// The dynamic data sources could not be loaded.
    DynamicDataSourcesError(String),
    /// The deployment is running already.
    AlreadyRunning(DeploymentId),
    /// The deployment is not running.
    NotRunning(DeploymentId),
}

/// What an error is: its case, with the message or the deployment it names.
pub enum ErrorView {
    ResolveError(Seq<char>),
    DynamicDataSourcesError(Seq<char>),
    AlreadyRunning(Seq<char>),
    NotRunning(Seq<char>),
}

impl View for SubgraphAssignmentProviderError {
    type V = ErrorView;

    open spec fn view(&self) -> ErrorView {
        match self {
            SubgraphAssignmentProviderError::ResolveError(m) => ErrorView::ResolveError(m@),
            SubgraphAssignmentProviderError::DynamicDataSourcesError(m) => ErrorView::DynamicDataSourcesError(m@),
            SubgraphAssignmentProviderError::AlreadyRunning(id) => ErrorView::AlreadyRunning(id@),
            SubgraphAssignmentProviderError::NotRunning(id) => ErrorView::NotRunning(id@),
        }
    }
}

} // verus!
