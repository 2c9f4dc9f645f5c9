//! Plain data carried between the router, the manager and the components.
use vstd::prelude::*;

verus! {

/// Identity of a component on this node: the owning user and repository.
#[derive(Clone, Debug)]
pub struct ComponentPath {
    pub user: String,
    pub repo: String,
}

impl View for ComponentPath {
    type V = (Seq<char>, Seq<char>);

    open spec fn view(&self) -> (Seq<char>, Seq<char>) {
        (self.user@, self.repo@)
    }
}

impl ComponentPath {
    pub fn new(user: String, repo: String) -> (r: Self)
        ensures
            r.user@ == user@,
            r.repo@ == repo@,
    {
        Self { user, repo }
    }

    /// Two paths name the same component when user and repository agree.
    pub fn same_as(&self, other: &ComponentPath) -> (r: bool)
        ensures
            r == (self@ == other@),
    {
        self.user == other.user && self.repo == other.repo
    }

    pub fn duplicate(&self) -> (r: Self)
        ensures
            r@ == self@,
    {
        Self { user: self.user.clone(), repo: self.repo.clone() }
    }
}

/// A component path together with the content hash it was activated with.
#[derive(Clone, Debug)]
pub struct ComponentId {
    pub path: ComponentPath,
    pub hash: String,
}

impl ComponentId {
    pub fn duplicate(&self) -> (r: Self)
        ensures
            r.path@ == self.path@,
            r.hash@ == self.hash@,
    {
        Self { path: self.path.duplicate(), hash: self.hash.clone() }
    }
}

/// The isolation backend a component runs in.
#[derive(Clone, Copy, Debug, PartialEq, Eq, Structural)]
pub enum ExecutionMethod {
    DockerArchive,
    PythonUnsafe,
    ContainerizedScript,
}

#[derive(Clone, Copy, Debug, PartialEq, Eq, Structural)]
pub enum ActivationStatus {
    ActivationSuccessful,
    AlreadyRunning,
    FailedToStart,
    InvalidRequest,
}

#[derive(Clone, Debug)]
pub struct ActivateRequest {
    pub id: ComponentId,
    pub executable_file: String,
    pub execution_method: ExecutionMethod,
}

#[derive(Clone, Debug)]
pub struct ActivateResponse {
    pub result: ActivationStatus,
    pub dbg_message: String,
}

#[derive(Clone, Copy, Debug, PartialEq, Eq, Structural)]
pub enum DeactivationStatus {
    ComponentNotFound,
    DeactivationSuccessful,
    InvalidRequest,
}

#[derive(Clone, Debug)]
pub struct DeactivateRequest {
    pub id: ComponentId,
}

#[derive(Clone, Debug)]
pub struct DeactivateResponse {
    pub result: DeactivationStatus,
    pub dbg_message: String,
}

/// Last seen outcome of a component call, for dashboards.
#[derive(Clone, Copy, Debug, PartialEq, Eq, Structural)]
pub enum StatusColor {
    Green,
    Orange,
    Red,
}

/// One latency bucket: the sum of its durations and how many it holds.
#[derive(Clone, Copy, Debug, PartialEq, Eq, Structural)]
pub struct LatencyBucket {
    pub total_ms: u128,
    pub count: u64,
}

/// Statistics of one component over its window, kept as exact sums: a mean is
/// a total divided by `hits`, a percentile a bucket total divided by its count.
#[derive(Clone, Debug)]
pub struct ComponentStats {
    pub stat_window_seconds: u64,
    pub hits: u64,
    pub total_response_bytes: u128,
    pub total_ms_latency: u128,
    pub ms_latency_percentiles: Vec<LatencyBucket>,
}

#[derive(Clone, Debug)]
pub struct ComponentStatus {
    pub id: ComponentId,
    pub component_stats: ComponentStats,
}

#[derive(Clone, Debug)]
pub struct ComponentLog {
    pub id: ComponentId,
    pub dedup_number: u64,
    pub log: Option<String>,
    pub error: Option<String>,
}

#[derive(Clone, Debug)]
pub struct LogResponse {
    pub logs: Vec<ComponentLog>,
}

/// What the worker sends to a component for one call.
#[derive(Clone, Debug)]
pub struct ComponentRequest {
    pub called_function: String,
    pub http_method: String,
    pub path: String,
    pub request_arguments: String,
    pub request_body: String,
}

/// What a component answers to one call.
#[derive(Clone, Debug)]
pub struct ComponentResponse {
    pub response_body: String,
    pub http_response_code: u32,
    pub error_message: Option<String>,
}

} // verus!
