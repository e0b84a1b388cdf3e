//! Requests and responses of the `/api/query` endpoint, and the decisions
//! around a query: whom it is for, which reconciler run it starts, and what
//! the caller gets back.

use vstd::prelude::*;

use crate::config::{verify_outcome, AuthError, Config};
use crate::reconcile::{
    ensure_start, status_start, stop_start, ClusterRequest, EnsureStage, RequestModel,
    StatusStage, Step, StopStage,
};
use crate::workspace::{
    first_node_port, node_ip_of, workspace_name_of, PodSnapshot,
    WorkspacePhase,
};

verus! {

#[derive(Clone, Debug)]
pub struct PodStartRequest {
    pub username: String,
    pub ssh_public_key: String,
}

#[derive(Clone, Debug)]
pub struct PodStatusRequest {
    pub username: String,
    pub ssh_public_key: String,
}

#[derive(Clone, Debug)]
pub struct PodStopRequest {
    pub username: String,
    pub ssh_public_key: String,
}

/// A query to the operator.
#[derive(Clone, Debug)]
pub enum Query {
    PodStart(PodStartRequest),
    PodStatus(PodStatusRequest),
    PodStop(PodStopRequest),
}

/// Where a workspace's SSH server listens.
#[derive(Clone, Debug)]
pub struct SshAddress {
    pub address: String,
    pub port: i32,
}

/// The workspace container's image and limits.
#[derive(Clone, Debug)]
pub struct WorkspaceInfo {
    pub image: String,
    pub memory_limit: Option<String>,
    pub cpu_limit: Option<String>,
}

/// A workspace's status as reported to the user.
#[derive(Clone, Debug)]
pub struct WorkspaceStatus {
    pub username: String,
    pub phase: WorkspacePhase,
    pub ssh_address: Option<SshAddress>,
    pub info: Option<WorkspaceInfo>,
}

/// The answer to a query.
#[derive(Clone, Debug)]
pub enum QueryOutput {
    PodStart(WorkspaceStatus),
    PodStatus(WorkspaceStatus),
    PodStop,
}

/// Response envelope.
#[derive(Clone, Debug)]
pub enum ApiResult<T> {
    Success(T),
    Error { message: String },
}

/// What to do for a query once its user is checked.
#[derive(Debug)]
pub enum QueryPlan {
    /// Authentication failed; nothing is asked of the cluster.
    Rejected { message: String },
    Start { user: usize, stage: EnsureStage, request: ClusterRequest },
    Status { user: usize, stage: StatusStage, request: ClusterRequest },
    Stop { user: usize, stage: StopStage, request: ClusterRequest },
}

pub open spec fn auth_message(e: AuthError) -> Seq<char> {
    match e {
        AuthError::UnknownUser => "Username not found"@,
        AuthError::KeyMismatch => "Invalid/unknown ssh public key"@,
    }
}

impl AuthError {
    /// The message reported to the caller.
    pub fn message(&self) -> (r: String)
        ensures
            r@ == auth_message(*self),
    {
        match self {
            AuthError::UnknownUser => String::from_str("Username not found"),
            AuthError::KeyMismatch => String::from_str("Invalid/unknown ssh public key"),
        }
    }
}

impl Query {
    pub open spec fn credentials(self) -> (Seq<char>, Seq<char>) {
        match self {
            Query::PodStart(q) => (q.username@, q.ssh_public_key@),
            Query::PodStatus(q) => (q.username@, q.ssh_public_key@),
            Query::PodStop(q) => (q.username@, q.ssh_public_key@),
        }
    }
}

/// Check the query's user, then start the run it asks for: `ensure` for a
/// start, `status` for a status, a stop for a stop. A user that fails the
/// check gets an error and no cluster request is made.
pub fn begin_query(config: &Config, query: &Query) -> (r: QueryPlan)
    ensures
        match verify_outcome(config.users@, query.credentials().0, query.credentials().1) {
            Err(e) => r matches QueryPlan::Rejected { message } && message@ == auth_message(e),
            Ok(i) => {
                let w = workspace_name_of(config.users@[i].username@);
                match query {
                    Query::PodStart(_) => r matches QueryPlan::Start { user, stage, request } && user
                        == i && stage == EnsureStage::VolumeLookup && request@
                        == RequestModel::GetVolumeClaim(w),
                    Query::PodStatus(_) => r matches QueryPlan::Status { user, stage, request }
                        && user == i && stage == StatusStage::ServiceLookup && request@
                        == RequestModel::GetService(w),
                    Query::PodStop(_) => r matches QueryPlan::Stop { user, stage, request } && user
                        == i && stage == StopStage::PodLookup && request@ == RequestModel::GetPod(w),
                }
            },
        },
{
    let (name, key) = match query {
        Query::PodStart(q) => (q.username.as_str(), q.ssh_public_key.as_str()),
        Query::PodStatus(q) => (q.username.as_str(), q.ssh_public_key.as_str()),
        Query::PodStop(q) => (q.username.as_str(), q.ssh_public_key.as_str()),
    };
    match config.verify_user_index(name, key) {
        Err(e) => QueryPlan::Rejected { message: e.message() },
        Ok(idx) => {
            let user = &config.users[idx];
            match query {
                Query::PodStart(_) => {
                    let (stage, request) = ensure_start(user);
                    QueryPlan::Start { user: idx, stage, request }
                },
                Query::PodStatus(_) => {
                    let (stage, request) = status_start(user);
                    QueryPlan::Status { user: idx, stage, request }
                },
                Query::PodStop(_) => {
                    let (stage, request) = stop_start(user);
                    QueryPlan::Stop { user: idx, stage, request }
                },
            }
        },
    }
}

/// The image and limits of a pod's first container; the image reads
/// `<unknown>` when there is none.
pub open spec fn info_of(pod: PodSnapshot, r: WorkspaceInfo) -> bool {
    match pod.first_container {
        None => r.image@ == "<unknown>"@ && r.memory_limit is None && r.cpu_limit is None,
        Some(c) => {
            &&& match c.image {
                None => r.image@ == "<unknown>"@,
                Some(i) => r.image@ == i@,
            }
            &&& opt_text_eq(r.memory_limit, c.memory_limit)
            &&& opt_text_eq(r.cpu_limit, c.cpu_limit)
        },
    }
}

pub open spec fn opt_text_eq(a: Option<String>, b: Option<String>) -> bool {
    match (a, b) {
        (None, None) => true,
        (Some(x), Some(y)) => x@ == y@,
        _ => false,
    }
}

fn clone_opt(a: &Option<String>) -> (r: Option<String>)
    ensures
        opt_text_eq(r, *a),
{
    match a {
        None => None,
        Some(x) => Some(x.clone()),
    }
}

impl WorkspaceInfo {
    /// The image and limits of the pod's first container.
    pub fn from_pod(pod: &PodSnapshot) -> (r: WorkspaceInfo)
        ensures
            info_of(*pod, r),
    {
        match &pod.first_container {
            None => WorkspaceInfo {
                image: String::from_str("<unknown>"),
                memory_limit: None,
                cpu_limit: None,
            },
            Some(c) => WorkspaceInfo {
                image: match &c.image {
                    None => String::from_str("<unknown>"),
                    Some(i) => i.clone(),
                },
                memory_limit: clone_opt(&c.memory_limit),
                cpu_limit: clone_opt(&c.cpu_limit),
            },
        }
    }
}

/// The user-facing report of a workspace: its phase, the SSH address when
/// both the node's internal IP and the Service's node port are known, and the
/// pod's container info.
pub open spec fn report_of(
    username: Seq<char>,
    s: crate::workspace::WorkspaceStatus,
    r: WorkspaceStatus,
) -> bool {
    let addr = match s.node {
        None => None,
        Some(n) => node_ip_of(n),
    };
    let port = match s.service {
        None => None,
        Some(v) => first_node_port(v),
    };
    &&& r.username@ == username
    &&& r.phase == s.phase
    &&& match (addr, port) {
        (Some(a), Some(p)) => r.ssh_address matches Some(x) && x.address@ == a && x.port == p,
        _ => r.ssh_address is None,
    }
    &&& match s.pod {
        None => r.info is None,
        Some(p) => r.info matches Some(i) && info_of(p, i),
    }
}

/// Build the user-facing report of a workspace.
pub fn report(username: &String, status: &crate::workspace::WorkspaceStatus) -> (r: WorkspaceStatus)
    ensures
        report_of(username@, *status, r),
{
    let addr = status.public_address();
    let port = status.ssh_port();
    let ssh_address = match (addr, port) {
        (Some(address), Some(port)) => Some(SshAddress { address, port }),
        _ => None,
    };
    let info = match &status.pod {
        None => None,
        Some(p) => Some(WorkspaceInfo::from_pod(p)),
    };
    WorkspaceStatus { username: username.clone(), phase: status.phase, ssh_address, info }
}

/// The response to a query whose run has ended with `outcome`.
pub fn query_response(query: &Query, username: &String, outcome: Step) -> (r: ApiResult<
    QueryOutput,
>)
    ensures
        match outcome {
            Step::Failed(m) => r matches ApiResult::Error { message } && message@ == m@,
            Step::Finished(s) => match query {
                Query::PodStart(_) => r matches ApiResult::Success(QueryOutput::PodStart(w))
                    && report_of(username@, s, w),
                Query::PodStatus(_) => r matches ApiResult::Success(QueryOutput::PodStatus(w))
                    && report_of(username@, s, w),
                Query::PodStop(_) => r is Error,
            },
            Step::Stopped => match query {
                Query::PodStop(_) => r matches ApiResult::Success(QueryOutput::PodStop),
                _ => r is Error,
            },
            Step::Request(_) => r is Error,
        },
{
    match outcome {
        Step::Failed(m) => ApiResult::Error { message: m },
        Step::Finished(s) => match query {
            Query::PodStart(_) => ApiResult::Success(QueryOutput::PodStart(report(username, &s))),
            Query::PodStatus(_) => ApiResult::Success(QueryOutput::PodStatus(report(username, &s))),
            Query::PodStop(_) => ApiResult::Error { message: String::from_str("unexpected outcome") },
        },
        Step::Stopped => match query {
            Query::PodStop(_) => ApiResult::Success(QueryOutput::PodStop),
            _ => ApiResult::Error { message: String::from_str("unexpected outcome") },
        },
        Step::Request(_) => ApiResult::Error { message: String::from_str("query did not finish") },
    }
}

} // verus!
