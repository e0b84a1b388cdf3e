//! The objects that make up a user's workspace, as the operator sees and
//! renders them: home volume, Service and Pod, all named `workspace-{user}`.

use vstd::prelude::*;

use crate::config::User;
use crate::text::str_eq;

verus! {

/// Externally observable lifecycle state of a workspace.
#[derive(Clone, Copy, Debug, PartialEq, Eq, Structural)]
pub enum WorkspacePhase {
    NotFound,
    Starting,
    Ready,
    Terminating,
    Unknown,
}

/// The first container of a pod, as far as the status report reads it.
#[derive(Clone, Debug)]
pub struct ContainerSnapshot {
    pub image: Option<String>,
    pub memory_limit: Option<String>,
    pub cpu_limit: Option<String>,
}

/// What the operator reads of a Pod.
#[derive(Clone, Debug)]
pub struct PodSnapshot {
    pub name: Option<String>,
    /// A deletion timestamp is set.
    pub deleting: bool,
    /// `status.phase`.
    pub phase: Option<String>,
    /// `ready` of each container status, when the status lists them.
    pub container_ready: Option<Vec<bool>>,
    /// `spec.nodeName`.
    pub node_name: Option<String>,
    /// The idle record stored under the operator's annotation key.
    pub idle_annotation: Option<String>,
    pub first_container: Option<ContainerSnapshot>,
}

/// What the operator reads of a Service: the node port of each port, in order.
#[derive(Clone, Debug)]
pub struct ServiceSnapshot {
    pub node_ports: Vec<Option<i32>>,
}

/// One address of a Node.
#[derive(Clone, Debug)]
pub struct NodeAddress {
    pub type_: String,
    pub address: String,
}

/// What the operator reads of a Node.
#[derive(Clone, Debug)]
pub struct NodeSnapshot {
    pub addresses: Vec<NodeAddress>,
}

/// A workspace's state, assembled on demand.
#[derive(Clone, Debug)]
pub struct WorkspaceStatus {
    pub phase: WorkspacePhase,
    pub service: Option<ServiceSnapshot>,
    pub pod: Option<PodSnapshot>,
    pub node: Option<NodeSnapshot>,
}

/// Every container status of the pod reports ready; false when the pod has
/// no container statuses.
pub open spec fn containers_ready(p: PodSnapshot) -> bool {
    match p.container_ready {
        None => false,
        Some(v) => forall|i: int| 0 <= i < v@.len() ==> #[trigger] v@[i],
    }
}

/// The phase cascade: deletion first, then `status.phase`.
pub open spec fn phase_of(p: PodSnapshot) -> WorkspacePhase {
    if p.deleting {
        WorkspacePhase::Terminating
    } else {
        match p.phase {
            None => WorkspacePhase::Unknown,
            Some(ph) => if ph@ == "Pending"@ {
                WorkspacePhase::Starting
            } else if ph@ == "Running"@ {
                if containers_ready(p) {
                    WorkspacePhase::Ready
                } else {
                    WorkspacePhase::Starting
                }
            } else if ph@ == "Succeeded"@ || ph@ == "Failed"@ {
                WorkspacePhase::Terminating
            } else {
                WorkspacePhase::Unknown
            },
        }
    }
}

/// Whether every container of a pod is ready.
pub fn pod_containers_ready(pod: &PodSnapshot) -> (r: bool)
    ensures
        r == containers_ready(*pod),
{
    match &pod.container_ready {
        None => false,
        Some(v) => {
            let mut i: usize = 0;
            while i < v.len()
                invariant
                    pod.container_ready == Some(*v),
                    i <= v@.len(),
                    forall|j: int| 0 <= j < i ==> #[trigger] v@[j],
                decreases v.len() - i,
            {
                if !v[i] {
                    let ghost w = pod.container_ready->Some_0;
                    assert(w@ == v@);
                    assert(!w@[i as int]);
                    assert(!containers_ready(*pod));
                    return false;
                }
                i = i + 1;
            }
            true
        },
    }
}

impl WorkspacePhase {
    /// Classify a pod. Total: `Unknown` comes exactly for a pod that is not
    /// being deleted and whose phase is missing or none of `Pending`,
    /// `Running`, `Succeeded`, `Failed`.
    pub fn from_pod(pod: &PodSnapshot) -> (r: WorkspacePhase)
        ensures
            r == phase_of(*pod),
            r == WorkspacePhase::Unknown <==> !pod.deleting && match pod.phase {
                None => true,
                Some(ph) => ph@ != "Pending"@ && ph@ != "Running"@ && ph@ != "Succeeded"@ && ph@
                    != "Failed"@,
            },
            r != WorkspacePhase::NotFound,
    {
        if pod.deleting {
            return WorkspacePhase::Terminating;
        }
        match &pod.phase {
            None => WorkspacePhase::Unknown,
            Some(ph) => {
                let ph = ph.as_str();
                if str_eq(ph, "Pending") {
                    WorkspacePhase::Starting
                } else if str_eq(ph, "Running") {
                    if pod_containers_ready(pod) {
                        WorkspacePhase::Ready
                    } else {
                        WorkspacePhase::Starting
                    }
                } else if str_eq(ph, "Succeeded") || str_eq(ph, "Failed") {
                    WorkspacePhase::Terminating
                } else {
                    WorkspacePhase::Unknown
                }
            },
        }
    }
}

/// The node port of the first port of a Service.
pub open spec fn first_node_port(s: ServiceSnapshot) -> Option<i32> {
    if s.node_ports@.len() > 0 {
        s.node_ports@[0]
    } else {
        None
    }
}

/// Index of the first `InternalIP` address, or the number of addresses.
pub open spec fn internal_ip_index(a: Seq<NodeAddress>) -> int
    decreases a.len(),
{
    if a.len() == 0 {
        0
    } else if a[0].type_@ == "InternalIP"@ {
        0
    } else {
        1 + internal_ip_index(a.drop_first())
    }
}

proof fn lemma_internal_ip_index(a: Seq<NodeAddress>, i: int)
    requires
        0 <= i <= a.len(),
        forall|j: int| 0 <= j < i ==> (#[trigger] a[j]).type_@ != "InternalIP"@,
        i == a.len() || a[i].type_@ == "InternalIP"@,
    ensures
        internal_ip_index(a) == i,
    decreases i,
{
    if i > 0 {
        assert(a[0].type_@ != "InternalIP"@);
        assert forall|j: int| 0 <= j < i - 1 implies (
        #[trigger] a.drop_first()[j]).type_@ != "InternalIP"@ by {
            assert(a.drop_first()[j] == a[j + 1]);
        }
        lemma_internal_ip_index(a.drop_first(), i - 1);
    }
}

/// The address of a node's first `InternalIP` entry.
pub open spec fn node_ip_of(n: NodeSnapshot) -> Option<Seq<char>> {
    let i = internal_ip_index(n.addresses@);
    if i < n.addresses@.len() {
        Some(n.addresses@[i].address@)
    } else {
        None
    }
}

/// The node port of the first port of a Service.
pub fn service_get_nodeport(svc: &ServiceSnapshot) -> (r: Option<i32>)
    ensures
        r == first_node_port(*svc),
{
    if svc.node_ports.len() > 0 {
        svc.node_ports[0]
    } else {
        None
    }
}

/// The address of a node's first `InternalIP` entry.
pub fn node_ip(node: &NodeSnapshot) -> (r: Option<String>)
    ensures
        match node_ip_of(*node) {
            None => r is None,
            Some(a) => r matches Some(s) && s@ == a,
        },
{
    let mut i: usize = 0;
    while i < node.addresses.len()
        invariant
            i <= node.addresses@.len(),
            forall|j: int| 0 <= j < i ==> (#[trigger] node.addresses@[j]).type_@ != "InternalIP"@,
        decreases node.addresses.len() - i,
    {
        if str_eq(node.addresses[i].type_.as_str(), "InternalIP") {
            proof {
                lemma_internal_ip_index(node.addresses@, i as int);
            }
            return Some(node.addresses[i].address.clone());
        }
        i = i + 1;
    }
    proof {
        lemma_internal_ip_index(node.addresses@, i as int);
    }
    None
}

impl WorkspaceStatus {
    /// Where the workspace's SSH server can be reached: the node's internal IP.
    pub fn public_address(&self) -> (r: Option<String>)
        ensures
            match self.node {
                None => r is None,
                Some(n) => match node_ip_of(n) {
                    None => r is None,
                    Some(a) => r matches Some(s) && s@ == a,
                },
            },
    {
        match &self.node {
            None => None,
            Some(n) => node_ip(n),
        }
    }

    /// The SSH port: the Service's first node port.
    pub fn ssh_port(&self) -> (r: Option<i32>)
        ensures
            r == match self.service {
                None => None,
                Some(s) => first_node_port(s),
            },
    {
        match &self.service {
            None => None,
            Some(s) => service_get_nodeport(s),
        }
    }
}

/// Name shared by a user's home volume, Service and Pod.
pub open spec fn workspace_name_of(username: Seq<char>) -> Seq<char> {
    "workspace-"@ + username
}

/// Different users never share object names.
pub proof fn lemma_workspace_name_injective(a: Seq<char>, b: Seq<char>)
    ensures
        workspace_name_of(a) == workspace_name_of(b) ==> a == b,
{
    if workspace_name_of(a) == workspace_name_of(b) {
        let k = "workspace-"@.len() as int;
        assert(a =~= workspace_name_of(a).subrange(k, workspace_name_of(a).len() as int));
        assert(b =~= workspace_name_of(b).subrange(k, workspace_name_of(b).len() as int));
    }
}

/// Name shared by a user's home volume, Service and Pod.
pub fn workspace_name(user: &User) -> (r: String)
    ensures
        r@ == workspace_name_of(user.username@),
{
    String::from_str("workspace-").concat(user.username.as_str())
}

/// Name of the user's home volume claim.
pub fn user_home_volume_name(user: &User) -> (r: String)
    ensures
        r@ == workspace_name_of(user.username@),
{
    workspace_name(user)
}

/// Name of the user's Service.
pub fn user_service_name(user: &User) -> (r: String)
    ensures
        r@ == workspace_name_of(user.username@),
{
    workspace_name(user)
}

/// Name of the user's Pod.
pub fn user_pod_name(user: &User) -> (r: String)
    ensures
        r@ == workspace_name_of(user.username@),
{
    workspace_name(user)
}

} // verus!
