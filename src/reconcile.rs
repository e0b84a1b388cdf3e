//! The workspace reconciler as a state machine. Each step takes the
//! cluster's reply to the previous request and yields the next request, or
//! the final outcome. The caller performs the requests.

use vstd::prelude::*;

use crate::config::{Config, User};
use crate::render::{
    pod_plan, service_plan, setup_script_of, volume_claim_plan, PodPlan, ServicePlan,
    VolumeClaimPlan, POD_MAIN_CONTAINER_NAME, WORKSPACE_POD_LABEL, WORKSPACE_POD_LABEL_VALUE, WORKSPACE_USER_LABEL,
};
use crate::workspace::{
    phase_of, user_home_volume_name, user_pod_name, user_service_name, workspace_name_of, NodeSnapshot, PodSnapshot,
    ServiceSnapshot, WorkspacePhase, WorkspaceStatus,
};

verus! {

/// One cluster operation.
#[derive(Debug)]
pub enum ClusterRequest {
    /// Look a claim up; the reply is `VolumeClaim` or `Missing`.
    GetVolumeClaim { name: String },
    CreateVolumeClaim(VolumeClaimPlan),
    /// Look a Service up; the reply is `Service` or `Missing`.
    GetService { name: String },
    CreateService(ServicePlan),
    /// Look a Pod up; the reply is `Pod` or `Missing`.
    GetPod { name: String },
    CreatePod(PodPlan),
    /// Fetch a Node; absence is a failure.
    GetNode { name: String },
    DeletePod { name: String },
    DeleteService { name: String },
}

/// The cluster's answer to a request.
#[derive(Debug)]
pub enum ClusterReply {
    /// The object does not exist.
    Missing,
    /// The claim exists (found or created).
    VolumeClaim,
    Service(ServiceSnapshot),
    Pod(PodSnapshot),
    Node(NodeSnapshot),
    /// The deletion went through.
    Deleted,
    /// The API call failed.
    Failed(String),
}

/// What to do next.
#[derive(Debug)]
pub enum Step {
    Request(ClusterRequest),
    Finished(WorkspaceStatus),
    Stopped,
    Failed(String),
}

/// Kind of a request, with the name of the object it is about.
pub enum RequestModel {
    GetVolumeClaim(Seq<char>),
    CreateVolumeClaim(Seq<char>),
    GetService(Seq<char>),
    CreateService(Seq<char>),
    GetPod(Seq<char>),
    CreatePod(Seq<char>),
    GetNode(Seq<char>),
    DeletePod(Seq<char>),
    DeleteService(Seq<char>),
}

impl View for ClusterRequest {
    type V = RequestModel;

    open spec fn view(&self) -> RequestModel {
        match self {
            ClusterRequest::GetVolumeClaim { name } => RequestModel::GetVolumeClaim(name@),
            ClusterRequest::CreateVolumeClaim(p) => RequestModel::CreateVolumeClaim(p.name@),
            ClusterRequest::GetService { name } => RequestModel::GetService(name@),
            ClusterRequest::CreateService(p) => RequestModel::CreateService(p.name@),
            ClusterRequest::GetPod { name } => RequestModel::GetPod(name@),
            ClusterRequest::CreatePod(p) => RequestModel::CreatePod(p.name@),
            ClusterRequest::GetNode { name } => RequestModel::GetNode(name@),
            ClusterRequest::DeletePod { name } => RequestModel::DeletePod(name@),
            ClusterRequest::DeleteService { name } => RequestModel::DeleteService(name@),
        }
    }
}

/// The names of the workspace objects present in the namespace.
pub struct ClusterModel {
    pub volumes: Set<Seq<char>>,
    pub services: Set<Seq<char>>,
    pub pods: Set<Seq<char>>,
}

impl ClusterModel {
    /// Every pod has its Service, and every Service its home volume.
    pub open spec fn ordered(self) -> bool {
        &&& forall|n: Seq<char>| #[trigger] self.pods.contains(n) ==> self.services.contains(n)
        &&& forall|n: Seq<char>| #[trigger] self.services.contains(n) ==> self.volumes.contains(n)
    }

    /// The namespace after a request.
    pub open spec fn apply(self, q: RequestModel) -> ClusterModel {
        match q {
            RequestModel::CreateVolumeClaim(n) => ClusterModel {
                volumes: self.volumes.insert(n),
                ..self
            },
            RequestModel::CreateService(n) => ClusterModel {
                services: self.services.insert(n),
                ..self
            },
            RequestModel::CreatePod(n) => ClusterModel { pods: self.pods.insert(n), ..self },
            RequestModel::DeletePod(n) => ClusterModel { pods: self.pods.remove(n), ..self },
            RequestModel::DeleteService(n) => ClusterModel {
                services: self.services.remove(n),
                ..self
            },
            _ => self,
        }
    }
}

/// Progress of `ensure_workspace`.
#[derive(Debug)]
pub enum EnsureStage {
    VolumeLookup,
    VolumeCreate,
    ServiceLookup,
    ServiceCreate,
    PodLookup(ServiceSnapshot),
    PodCreate(ServiceSnapshot),
    NodeLookup(ServiceSnapshot, PodSnapshot),
    Done,
}

/// What a stage of `ensure_workspace` has established about the cluster.
pub open spec fn ensure_stage_holds(c: ClusterModel, s: EnsureStage, w: Seq<char>) -> bool {
    match s {
        EnsureStage::ServiceLookup | EnsureStage::ServiceCreate => c.volumes.contains(w),
        EnsureStage::PodLookup(_) | EnsureStage::PodCreate(_) | EnsureStage::NodeLookup(_, _) => {
            c.volumes.contains(w) && c.services.contains(w)
        },
        _ => true,
    }
}

/// A reply that reports an object reports one that exists.
pub open spec fn reply_truthful(c: ClusterModel, s: EnsureStage, r: ClusterReply, w: Seq<char>) -> bool {
    match s {
        EnsureStage::VolumeLookup | EnsureStage::VolumeCreate => r is VolumeClaim ==> c.volumes.contains(w),
        EnsureStage::ServiceLookup | EnsureStage::ServiceCreate => r is Service ==> c.services.contains(w),
        _ => true,
    }
}

pub open spec fn volume_claim_plan_for(p: VolumeClaimPlan, user: User, config: Config) -> bool {
    &&& p.name@ == workspace_name_of(user.username@)
    &&& p.namespace@ == config.namespace@
    &&& p.storage_class == config.storage_class
    &&& p.access_mode@ == "ReadWriteOnce"@
    &&& p.storage_request@ == config.max_home_volume_size@
}

pub open spec fn service_plan_for(p: ServicePlan, user: User, config: Config) -> bool {
    &&& p.name@ == workspace_name_of(user.username@)
    &&& p.namespace@ == config.namespace@
    &&& p.selector_key@ == WORKSPACE_USER_LABEL@
    &&& p.selector_value@ == user.username@
    &&& p.port_name@ == "ssh"@
    &&& p.port == 22
    &&& p.target_port_name@ == "ssh"@
    &&& p.service_type@ == "NodePort"@
}

pub open spec fn pod_plan_for(p: PodPlan, user: User, config: Config) -> bool {
    &&& p.name@ == workspace_name_of(user.username@)
    &&& p.namespace@ == config.namespace@
    &&& p.labels@.len() == 2
    &&& p.labels@[0].0@ == WORKSPACE_POD_LABEL@
    &&& p.labels@[0].1@ == WORKSPACE_POD_LABEL_VALUE@
    &&& p.labels@[1].0@ == WORKSPACE_USER_LABEL@
    &&& p.labels@[1].1@ == user.username@
    &&& p.container_name@ == POD_MAIN_CONTAINER_NAME@
    &&& p.default_image@ == "ubuntu"@
    &&& p.command@.len() == 3
    &&& p.command@[0]@ == "bash"@
    &&& p.command@[1]@ == "-c"@
    &&& p.command@[2]@ == setup_script_of(user.username@, user.ssh_public_key@)
    &&& p.volume_name@ == "home"@
    &&& p.mount_path@ == "/home/"@ + user.username@
    &&& p.container_port == 22
    &&& p.container_port_name@ == "ssh"@
    &&& p.readiness_probe.port_name@ == "ssh"@
    &&& p.readiness_probe.initial_delay_seconds == 60
    &&& p.readiness_probe.period_seconds == 30
    &&& p.readiness_probe.timeout_seconds == 3
    &&& p.claim_name@ == workspace_name_of(user.username@)
}

/// The step is a request of this kind and name.
pub open spec fn requests(st: Step, m: RequestModel) -> bool {
    st matches Step::Request(q) && q@ == m
}

pub open spec fn creates_volume_claim(st: Step, user: User, config: Config) -> bool {
    st matches Step::Request(ClusterRequest::CreateVolumeClaim(p)) && volume_claim_plan_for(
        p,
        user,
        config,
    )
}

pub open spec fn creates_service(st: Step, user: User, config: Config) -> bool {
    st matches Step::Request(ClusterRequest::CreateService(p)) && service_plan_for(p, user, config)
}

pub open spec fn creates_pod(st: Step, user: User, config: Config) -> bool {
    st matches Step::Request(ClusterRequest::CreatePod(p)) && pod_plan_for(p, user, config)
}

/// The step after the pod is known: fetch its node, if it has one.
pub open spec fn after_pod(s: ServiceSnapshot, p: PodSnapshot, r: (EnsureStage, Step)) -> bool {
    match p.node_name {
        Some(n) => r.0 == EnsureStage::NodeLookup(s, p) && requests(r.1, RequestModel::GetNode(n@)),
        None => r.0 == EnsureStage::Done && r.1 == Step::Finished(
            WorkspaceStatus { phase: phase_of(p), service: Some(s), pod: Some(p), node: None },
        ),
    }
}

/// Transitions of `ensure_workspace`.
pub open spec fn ensure_transition(
    user: User,
    config: Config,
    stage: EnsureStage,
    reply: ClusterReply,
    r: (EnsureStage, Step),
) -> bool {
    let w = workspace_name_of(user.username@);
    match reply {
        ClusterReply::Failed(m) => r.0 == EnsureStage::Done && r.1 == Step::Failed(m),
        _ => match stage {
            EnsureStage::VolumeLookup => match reply {
                ClusterReply::Missing => r.0 == EnsureStage::VolumeCreate && creates_volume_claim(r.1, user, config),
                ClusterReply::VolumeClaim => r.0 == EnsureStage::ServiceLookup && requests(r.1, RequestModel::GetService(w)),
                _ => r.0 == EnsureStage::Done && r.1 is Failed,
            },
            EnsureStage::VolumeCreate => match reply {
                ClusterReply::VolumeClaim => r.0 == EnsureStage::ServiceLookup && requests(r.1, RequestModel::GetService(w)),
                _ => r.0 == EnsureStage::Done && r.1 is Failed,
            },
            EnsureStage::ServiceLookup => match reply {
                ClusterReply::Missing => r.0 == EnsureStage::ServiceCreate && creates_service(r.1, user, config),
                ClusterReply::Service(s) => r.0 == EnsureStage::PodLookup(s) && requests(r.1, RequestModel::GetPod(w)),
                _ => r.0 == EnsureStage::Done && r.1 is Failed,
            },
            EnsureStage::ServiceCreate => match reply {
                ClusterReply::Service(s) => r.0 == EnsureStage::PodLookup(s) && requests(r.1, RequestModel::GetPod(w)),
                _ => r.0 == EnsureStage::Done && r.1 is Failed,
            },
            EnsureStage::PodLookup(s) => match reply {
                ClusterReply::Missing => r.0 == EnsureStage::PodCreate(s) && creates_pod(r.1, user, config),
                ClusterReply::Pod(p) => after_pod(s, p, r),
                _ => r.0 == EnsureStage::Done && r.1 is Failed,
            },
            EnsureStage::PodCreate(s) => match reply {
                ClusterReply::Pod(p) => after_pod(s, p, r),
                _ => r.0 == EnsureStage::Done && r.1 is Failed,
            },
            EnsureStage::NodeLookup(s, p) => match reply {
                ClusterReply::Node(n) => r.0 == EnsureStage::Done && r.1 == Step::Finished(
                    WorkspaceStatus {
                        phase: phase_of(p),
                        service: Some(s),
                        pod: Some(p),
                        node: Some(n),
                    },
                ),
                _ => r.0 == EnsureStage::Done && r.1 is Failed,
            },
            EnsureStage::Done => r.0 == EnsureStage::Done && r.1 is Failed,
        },
    }
}

fn unexpected() -> (r: Step)
    ensures
        r is Failed,
{
    Step::Failed(String::from_str("unexpected reply from the cluster"))
}

fn pod_known(s: ServiceSnapshot, p: PodSnapshot) -> (r: (EnsureStage, Step))
    ensures
        after_pod(s, p, r),
{
    match &p.node_name {
        Some(n) => {
            let name = n.clone();
            (EnsureStage::NodeLookup(s, p), Step::Request(ClusterRequest::GetNode { name }))
        },
        None => {
            let phase = WorkspacePhase::from_pod(&p);
            (
                EnsureStage::Done,
                Step::Finished(
                    WorkspaceStatus { phase, service: Some(s), pod: Some(p), node: None },
                ),
            )
        },
    }
}

/// First request of `ensure_workspace`: look the home volume claim up.
pub fn ensure_start(user: &User) -> (r: (EnsureStage, ClusterRequest))
    ensures
        r.0 == EnsureStage::VolumeLookup,
        r.1@ == RequestModel::GetVolumeClaim(workspace_name_of(user.username@)),
{
    (
        EnsureStage::VolumeLookup,
        ClusterRequest::GetVolumeClaim { name: user_home_volume_name(user) },
    )
}

/// One step of `ensure_workspace`: home volume, then Service, then Pod, each
/// created only when the lookup finds none; then the pod's node, if it is
/// scheduled. Any failure ends the run. From a cluster whose pods have their
/// Services and whose Services have their volumes, a step never issues a
/// request that breaks this.
pub fn ensure_step(user: &User, config: &Config, stage: EnsureStage, reply: ClusterReply) -> (r: (
    EnsureStage,
    Step,
))
    ensures
        ensure_transition(*user, *config, stage, reply, r),
        forall|c: ClusterModel|
            #![trigger c.ordered(), ensure_stage_holds(c, stage, workspace_name_of(user.username@))]
            c.ordered() && ensure_stage_holds(c, stage, workspace_name_of(user.username@))
                && reply_truthful(c, stage, reply, workspace_name_of(user.username@))
                ==> match r.1 {
                Step::Request(q) => c.apply(q@).ordered() && ensure_stage_holds(
                    c.apply(q@),
                    r.0,
                    workspace_name_of(user.username@),
                ),
                _ => true,
            },
{
    let ghost w = workspace_name_of(user.username@);
    let ghost stage0 = stage;
    let ghost reply0 = reply;
    let r = match reply {
        ClusterReply::Failed(m) => (EnsureStage::Done, Step::Failed(m)),
        _ => match stage {
            EnsureStage::VolumeLookup => match reply {
                ClusterReply::Missing => (
                    EnsureStage::VolumeCreate,
                    Step::Request(ClusterRequest::CreateVolumeClaim(volume_claim_plan(user, config))),
                ),
                ClusterReply::VolumeClaim => (
                    EnsureStage::ServiceLookup,
                    Step::Request(ClusterRequest::GetService { name: user_service_name(user) }),
                ),
                _ => (EnsureStage::Done, unexpected()),
            },
            EnsureStage::VolumeCreate => match reply {
                ClusterReply::VolumeClaim => (
                    EnsureStage::ServiceLookup,
                    Step::Request(ClusterRequest::GetService { name: user_service_name(user) }),
                ),
                _ => (EnsureStage::Done, unexpected()),
            },
            EnsureStage::ServiceLookup => match reply {
                ClusterReply::Missing => (
                    EnsureStage::ServiceCreate,
                    Step::Request(
                        ClusterRequest::CreateService(service_plan(user, &config.namespace)),
                    ),
                ),
                ClusterReply::Service(s) => (
                    EnsureStage::PodLookup(s),
                    Step::Request(ClusterRequest::GetPod { name: user_pod_name(user) }),
                ),
                _ => (EnsureStage::Done, unexpected()),
            },
            EnsureStage::ServiceCreate => match reply {
                ClusterReply::Service(s) => (
                    EnsureStage::PodLookup(s),
                    Step::Request(ClusterRequest::GetPod { name: user_pod_name(user) }),
                ),
                _ => (EnsureStage::Done, unexpected()),
            },
            EnsureStage::PodLookup(s) => match reply {
                ClusterReply::Missing => (
                    EnsureStage::PodCreate(s),
                    Step::Request(ClusterRequest::CreatePod(pod_plan(user, &config.namespace))),
                ),
                ClusterReply::Pod(p) => pod_known(s, p),
                _ => (EnsureStage::Done, unexpected()),
            },
            EnsureStage::PodCreate(s) => match reply {
                ClusterReply::Pod(p) => pod_known(s, p),
                _ => (EnsureStage::Done, unexpected()),
            },
            EnsureStage::NodeLookup(s, p) => match reply {
                ClusterReply::Node(n) => {
                    let phase = WorkspacePhase::from_pod(&p);
                    (
                        EnsureStage::Done,
                        Step::Finished(
                            WorkspaceStatus { phase, service: Some(s), pod: Some(p), node: Some(n) },
                        ),
                    )
                },
                _ => (EnsureStage::Done, unexpected()),
            },
            EnsureStage::Done => (EnsureStage::Done, unexpected()),
        },
    };
    assert forall|c: ClusterModel|
        #![trigger c.ordered(), ensure_stage_holds(c, stage0, w)]
        c.ordered() && ensure_stage_holds(c, stage0, w) && reply_truthful(c, stage0, reply0, w)
            implies match r.1 {
            Step::Request(q) => c.apply(q@).ordered() && ensure_stage_holds(c.apply(q@), r.0, w),
            _ => true,
        } by {
        match r.1 {
            Step::Request(q) => {
                let c2 = c.apply(q@);
                assert forall|n: Seq<char>| #[trigger] c2.pods.contains(n) implies c2.services.contains(n) by {
                    assert(c.pods.contains(n) || n == w);
                }
                assert forall|n: Seq<char>| #[trigger] c2.services.contains(n) implies c2.volumes.contains(n) by {
                    assert(c.services.contains(n) || n == w);
                }
            },
            _ => {},
        }
    }
    r
}

/// Progress of `workspace_status`.
#[derive(Debug)]
pub enum StatusStage {
    ServiceLookup,
    PodLookup(Option<ServiceSnapshot>),
    NodeLookup(ServiceSnapshot, PodSnapshot),
    Done,
}

/// Transitions of `workspace_status`.
pub open spec fn status_transition(
    user: User,
    stage: StatusStage,
    reply: ClusterReply,
    r: (StatusStage, Step),
) -> bool {
    let w = workspace_name_of(user.username@);
    match reply {
        ClusterReply::Failed(m) => r.0 == StatusStage::Done && r.1 == Step::Failed(m),
        _ => match stage {
            StatusStage::ServiceLookup => match reply {
                ClusterReply::Missing => r.0 == StatusStage::PodLookup(None) && requests(
                    r.1,
                    RequestModel::GetPod(w),
                ),
                ClusterReply::Service(s) => r.0 == StatusStage::PodLookup(Some(s)) && requests(
                    r.1,
                    RequestModel::GetPod(w),
                ),
                _ => r.0 == StatusStage::Done && r.1 is Failed,
            },
            StatusStage::PodLookup(svc) => match reply {
                ClusterReply::Missing => r.0 == StatusStage::Done && r.1 == Step::Finished(
                    WorkspaceStatus { phase: WorkspacePhase::NotFound, service: svc, pod: None, node: None },
                ),
                ClusterReply::Pod(p) => match svc {
                    None => r.0 == StatusStage::Done && r.1 == Step::Finished(
                        WorkspaceStatus {
                            phase: WorkspacePhase::NotFound,
                            service: None,
                            pod: None,
                            node: None,
                        },
                    ),
                    Some(s) => match p.node_name {
                        Some(n) => r.0 == StatusStage::NodeLookup(s, p) && requests(
                            r.1,
                            RequestModel::GetNode(n@),
                        ),
                        None => r.0 == StatusStage::Done && r.1 == Step::Finished(
                            WorkspaceStatus {
                                phase: phase_of(p),
                                service: Some(s),
                                pod: Some(p),
                                node: None,
                            },
                        ),
                    },
                },
                _ => r.0 == StatusStage::Done && r.1 is Failed,
            },
            StatusStage::NodeLookup(s, p) => match reply {
                ClusterReply::Node(n) => r.0 == StatusStage::Done && r.1 == Step::Finished(
                    WorkspaceStatus {
                        phase: phase_of(p),
                        service: Some(s),
                        pod: Some(p),
                        node: Some(n),
                    },
                ),
                _ => r.0 == StatusStage::Done && r.1 is Failed,
            },
            StatusStage::Done => r.0 == StatusStage::Done && r.1 is Failed,
        },
    }
}

/// First request of `workspace_status`: look the Service up.
pub fn status_start(user: &User) -> (r: (StatusStage, ClusterRequest))
    ensures
        r.0 == StatusStage::ServiceLookup,
        r.1@ == RequestModel::GetService(workspace_name_of(user.username@)),
{
    (StatusStage::ServiceLookup, ClusterRequest::GetService { name: user_service_name(user) })
}

/// One step of `workspace_status`: Service, then Pod; with both present
/// the pod's node when it is scheduled, else the phase `NotFound` (the
/// Service is still reported). Never creates or deletes anything.
pub fn status_step(user: &User, stage: StatusStage, reply: ClusterReply) -> (r: (StatusStage, Step))
    ensures
        status_transition(*user, stage, reply, r),
        r.1 matches Step::Request(q) ==> q@ is GetPod || q@ is GetNode,
{
    match reply {
        ClusterReply::Failed(m) => (StatusStage::Done, Step::Failed(m)),
        _ => match stage {
            StatusStage::ServiceLookup => match reply {
                ClusterReply::Missing => (
                    StatusStage::PodLookup(None),
                    Step::Request(ClusterRequest::GetPod { name: user_pod_name(user) }),
                ),
                ClusterReply::Service(s) => (
                    StatusStage::PodLookup(Some(s)),
                    Step::Request(ClusterRequest::GetPod { name: user_pod_name(user) }),
                ),
                _ => (StatusStage::Done, unexpected()),
            },
            StatusStage::PodLookup(svc) => match reply {
                ClusterReply::Missing => (
                    StatusStage::Done,
                    Step::Finished(
                        WorkspaceStatus {
                            phase: WorkspacePhase::NotFound,
                            service: svc,
                            pod: None,
                            node: None,
                        },
                    ),
                ),
                ClusterReply::Pod(p) => match svc {
                    None => (
                        StatusStage::Done,
                        Step::Finished(
                            WorkspaceStatus {
                                phase: WorkspacePhase::NotFound,
                                service: None,
                                pod: None,
                                node: None,
                            },
                        ),
                    ),
                    Some(s) => match &p.node_name {
                        Some(n) => {
                            let name = n.clone();
                            (
                                StatusStage::NodeLookup(s, p),
                                Step::Request(ClusterRequest::GetNode { name }),
                            )
                        },
                        None => {
                            let phase = WorkspacePhase::from_pod(&p);
                            (
                                StatusStage::Done,
                                Step::Finished(
                                    WorkspaceStatus {
                                        phase,
                                        service: Some(s),
                                        pod: Some(p),
                                        node: None,
                                    },
                                ),
                            )
                        },
                    },
                },
                _ => (StatusStage::Done, unexpected()),
            },
            StatusStage::NodeLookup(s, p) => match reply {
                ClusterReply::Node(n) => {
                    let phase = WorkspacePhase::from_pod(&p);
                    (
                        StatusStage::Done,
                        Step::Finished(
                            WorkspaceStatus { phase, service: Some(s), pod: Some(p), node: Some(n) },
                        ),
                    )
                },
                _ => (StatusStage::Done, unexpected()),
            },
            StatusStage::Done => (StatusStage::Done, unexpected()),
        },
    }
}

/// Progress of stopping a workspace.
#[derive(Debug, PartialEq, Eq, Structural)]
pub enum StopStage {
    PodLookup,
    PodDelete,
    ServiceDelete,
    Done,
}

/// What a stage of the stop has established about the cluster.
pub open spec fn stop_stage_holds(c: ClusterModel, s: StopStage, w: Seq<char>) -> bool {
    s == StopStage::ServiceDelete ==> !c.pods.contains(w)
}

/// A reply that reports a deletion reports one that went through.
pub open spec fn stop_reply_truthful(c: ClusterModel, s: StopStage, r: ClusterReply, w: Seq<char>) -> bool {
    s == StopStage::PodDelete && r is Deleted ==> !c.pods.contains(w)
}

/// Transitions of the stop.
pub open spec fn stop_transition(user: User, stage: StopStage, reply: ClusterReply, r: (StopStage, Step)) -> bool {
    let w = workspace_name_of(user.username@);
    match reply {
        ClusterReply::Failed(m) => r.0 == StopStage::Done && r.1 == Step::Failed(m),
        ClusterReply::Missing => if stage == StopStage::PodLookup {
            r.0 == StopStage::Done && r.1 is Stopped
        } else {
            r.0 == StopStage::Done && r.1 is Failed
        },
        ClusterReply::Pod(_) => if stage == StopStage::PodLookup {
            r.0 == StopStage::PodDelete && requests(r.1, RequestModel::DeletePod(w))
        } else {
            r.0 == StopStage::Done && r.1 is Failed
        },
        ClusterReply::Deleted => if stage == StopStage::PodDelete {
            r.0 == StopStage::ServiceDelete && requests(r.1, RequestModel::DeleteService(w))
        } else if stage == StopStage::ServiceDelete {
            r.0 == StopStage::Done && r.1 is Stopped
        } else {
            r.0 == StopStage::Done && r.1 is Failed
        },
        _ => r.0 == StopStage::Done && r.1 is Failed,
    }
}

/// First request of a stop: look the Pod up.
pub fn stop_start(user: &User) -> (r: (StopStage, ClusterRequest))
    ensures
        r.0 == StopStage::PodLookup,
        r.1@ == RequestModel::GetPod(workspace_name_of(user.username@)),
{
    (StopStage::PodLookup, ClusterRequest::GetPod { name: user_pod_name(user) })
}

/// One step of a stop: when the Pod exists, delete it, then the Service.
/// The home volume is never touched. From a cluster whose pods have their
/// Services and whose Services have their volumes, a step never issues a
/// request that breaks this.
pub fn stop_step(user: &User, stage: StopStage, reply: ClusterReply) -> (r: (StopStage, Step))
    ensures
        stop_transition(*user, stage, reply, r),
        forall|c: ClusterModel|
            #![trigger c.ordered(), stop_stage_holds(c, stage, workspace_name_of(user.username@))]
            c.ordered() && stop_stage_holds(c, stage, workspace_name_of(user.username@))
                && stop_reply_truthful(c, stage, reply, workspace_name_of(user.username@))
                ==> match r.1 {
                Step::Request(q) => c.apply(q@).ordered() && stop_stage_holds(
                    c.apply(q@),
                    r.0,
                    workspace_name_of(user.username@),
                ),
                _ => true,
            },
{
    let ghost w = workspace_name_of(user.username@);
    let ghost reply0 = reply;
    let r = match reply {
        ClusterReply::Failed(m) => (StopStage::Done, Step::Failed(m)),
        ClusterReply::Missing => if stage == StopStage::PodLookup {
            (StopStage::Done, Step::Stopped)
        } else {
            (StopStage::Done, unexpected())
        },
        ClusterReply::Pod(_) => if stage == StopStage::PodLookup {
            (StopStage::PodDelete, Step::Request(ClusterRequest::DeletePod { name: user_pod_name(user) }))
        } else {
            (StopStage::Done, unexpected())
        },
        ClusterReply::Deleted => if stage == StopStage::PodDelete {
            (
                StopStage::ServiceDelete,
                Step::Request(ClusterRequest::DeleteService { name: user_service_name(user) }),
            )
        } else if stage == StopStage::ServiceDelete {
            (StopStage::Done, Step::Stopped)
        } else {
            (StopStage::Done, unexpected())
        },
        _ => (StopStage::Done, unexpected()),
    };
    assert forall|c: ClusterModel|
        #![trigger c.ordered(), stop_stage_holds(c, stage, w)]
        c.ordered() && stop_stage_holds(c, stage, w) && stop_reply_truthful(c, stage, reply0, w)
            implies match r.1 {
            Step::Request(q) => c.apply(q@).ordered() && stop_stage_holds(c.apply(q@), r.0, w),
            _ => true,
        } by {
        match r.1 {
            Step::Request(q) => {
                let c2 = c.apply(q@);
                assert forall|n: Seq<char>| #[trigger] c2.pods.contains(n) implies c2.services.contains(n) by {
                    assert(c.pods.contains(n));
                }
                assert forall|n: Seq<char>| #[trigger] c2.services.contains(n) implies c2.volumes.contains(n) by {
                    assert(c.services.contains(n));
                }
            },
            _ => {},
        }
    }
    r
}

/// Deleting any pod keeps every pod's Service and every Service's volume.
pub proof fn lemma_pod_delete_keeps_order(c: ClusterModel, name: Seq<char>)
    requires
        c.ordered(),
    ensures
        c.apply(RequestModel::DeletePod(name)).ordered(),
{
    let c2 = c.apply(RequestModel::DeletePod(name));
    assert forall|n: Seq<char>| #[trigger] c2.pods.contains(n) implies c2.services.contains(n) by {
        assert(c.pods.contains(n));
    }
}

/// Requests that only read leave the cluster as it is.
pub proof fn lemma_reads_keep_cluster(c: ClusterModel, q: RequestModel)
    requires
        q is GetVolumeClaim || q is GetService || q is GetPod || q is GetNode,
    ensures
        c.apply(q) == c,
{
}

/// The run has seen the home volume exist (found or created).
pub open spec fn volume_confirmed(s: EnsureStage) -> bool {
    s is ServiceLookup || s is ServiceCreate || service_confirmed(s)
}

/// The run has seen the Service exist (found or created).
pub open spec fn service_confirmed(s: EnsureStage) -> bool {
    s is PodLookup || s is PodCreate || s is NodeLookup
}

/// Within one `ensure_workspace` run, whatever the cluster holds: a Service is
/// created only after the home volume was seen to exist, a Pod only after
/// the Service was, each stage's knowledge comes from an earlier stage or
/// from the reply just received, and a failed call ends the run.
pub proof fn lemma_ensure_creates_in_order(
    user: User,
    config: Config,
    stage: EnsureStage,
    reply: ClusterReply,
    r: (EnsureStage, Step),
)
    requires
        ensure_transition(user, config, stage, reply, r),
    ensures
        creates_service(r.1, user, config) ==> volume_confirmed(stage) || reply is VolumeClaim,
        creates_pod(r.1, user, config) ==> service_confirmed(stage),
        volume_confirmed(r.0) ==> volume_confirmed(stage) || reply is VolumeClaim,
        service_confirmed(r.0) ==> service_confirmed(stage) || reply is Service,
        reply is Failed ==> r.0 == EnsureStage::Done && r.1 is Failed,
        r.1 is Request ==> !(reply is Failed),
{
}

} // verus!
