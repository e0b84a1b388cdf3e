//! The objects the reconciler creates, as plain values. The caller turns a
//! plan into the cluster's object (a pod plan is applied onto a clone of the
//! configured pod template).

use vstd::prelude::*;

use crate::config::{Config, User};
use crate::workspace::{workspace_name, workspace_name_of};

verus! {

/// A home volume claim to create.
#[derive(Clone, Debug)]
pub struct VolumeClaimPlan {
    pub name: String,
    pub namespace: String,
    pub storage_class: Option<String>,
    pub access_mode: String,
    pub storage_request: String,
}

/// A Service to create.
#[derive(Clone, Debug)]
pub struct ServicePlan {
    pub name: String,
    pub namespace: String,
    pub selector_key: String,
    pub selector_value: String,
    pub port_name: String,
    pub port: i32,
    pub target_port_name: String,
    pub service_type: String,
}

/// TCP readiness probe on a named port.
#[derive(Clone, Debug)]
pub struct ReadinessProbePlan {
    pub port_name: String,
    pub initial_delay_seconds: i32,
    pub period_seconds: i32,
    pub timeout_seconds: i32,
}

/// A Pod to create: metadata, and the edits applied to container 0 (created
/// empty when the template has none) and to the volumes of the template.
#[derive(Clone, Debug)]
pub struct PodPlan {
    pub name: String,
    pub namespace: String,
    pub labels: Vec<(String, String)>,
    pub container_name: String,
    /// Image used only where the template sets none.
    pub default_image: String,
    pub command: Vec<String>,
    /// Name of the appended volume and of its mount.
    pub volume_name: String,
    pub mount_path: String,
    pub container_port: i32,
    pub container_port_name: String,
    pub readiness_probe: ReadinessProbePlan,
    /// Claim backing the appended volume.
    pub claim_name: String,
}

pub const WORKSPACE_USER_LABEL: &'static str = "workspace-user";

pub const WORKSPACE_POD_LABEL: &'static str = "workspace-pod";

pub const WORKSPACE_POD_LABEL_VALUE: &'static str = "true";

pub const POD_MAIN_CONTAINER_NAME: &'static str = "workspace";

/// The label carried by every workspace pod, used to list them.
pub fn workspace_pod_label() -> (r: (String, String))
    ensures
        r.0@ == WORKSPACE_POD_LABEL@,
        r.1@ == WORKSPACE_POD_LABEL_VALUE@,
{
    (String::from_str(WORKSPACE_POD_LABEL), String::from_str(WORKSPACE_POD_LABEL_VALUE))
}

/// The shell pipeline that installs sshd and seeds the user's key.
pub open spec fn setup_script_of(u: Seq<char>, k: Seq<char>) -> Seq<char> {
    "apt-get update && apt-get install -y openssh-server && adduser --gecos \"\" --no-create-home --disabled-password "@
        + u + " && mkdir -p /home/"@ + u + "/.ssh && echo '"@ + k + "' > /home/"@ + u
        + "/.ssh/authorized_keys && chown "@ + u + ":"@ + u + " /home/"@ + u + " && chown "@ + u
        + ":"@ + u + " /home/"@ + u + "/.ssh && chmod 755 /home/"@ + u
        + " && chmod 755 /home/"@ + u + "/.ssh && chmod 644 /home/"@ + u
        + "/.ssh/authorized_keys && service ssh start && sleep infinity"@
}

/// The startup script of a user's workspace container.
pub fn setup_script(user: &User) -> (r: String)
    ensures
        r@ == setup_script_of(user.username@, user.ssh_public_key@),
{
    let u = user.username.as_str();
    let k = user.ssh_public_key.as_str();
    let mut s = String::from_str(
        "apt-get update && apt-get install -y openssh-server && adduser --gecos \"\" --no-create-home --disabled-password ",
    );
    s.append(u);
    s.append(" && mkdir -p /home/");
    s.append(u);
    s.append("/.ssh && echo '");
    s.append(k);
    s.append("' > /home/");
    s.append(u);
    s.append("/.ssh/authorized_keys && chown ");
    s.append(u);
    s.append(":");
    s.append(u);
    s.append(" /home/");
    s.append(u);
    s.append(" && chown ");
    s.append(u);
    s.append(":");
    s.append(u);
    s.append(" /home/");
    s.append(u);
    s.append("/.ssh && chmod 755 /home/");
    s.append(u);
    s.append(" && chmod 755 /home/");
    s.append(u);
    s.append("/.ssh && chmod 644 /home/");
    s.append(u);
    s.append("/.ssh/authorized_keys && service ssh start && sleep infinity");
    s
}

/// What rendering does to the template's first container beyond the plan's
/// fixed edits.
#[derive(Clone, Debug)]
pub struct ContainerEdit {
    /// The template has no container: add an empty one first.
    pub add_container: bool,
    /// The image to set; `None` keeps the template's image.
    pub set_image: Option<String>,
}

/// Decide the edits to the template's first container: add one when there is
/// none, and set the default image only where no image is set.
pub fn main_container_edit(plan: &PodPlan, has_container: bool, image_set: bool) -> (r:
    ContainerEdit)
    ensures
        r.add_container == !has_container,
        has_container && image_set ==> r.set_image is None,
        !(has_container && image_set) ==> (r.set_image matches Some(i) && i@
            == plan.default_image@),
{
    ContainerEdit {
        add_container: !has_container,
        set_image: if has_container && image_set {
            None
        } else {
            Some(plan.default_image.clone())
        },
    }
}

/// The claim for a user's home volume: ReadWriteOnce, with the configured
/// size and storage class.
pub fn volume_claim_plan(user: &User, config: &Config) -> (r: VolumeClaimPlan)
    ensures
        r.name@ == workspace_name_of(user.username@),
        r.namespace@ == config.namespace@,
        r.storage_class == config.storage_class,
        r.access_mode@ == "ReadWriteOnce"@,
        r.storage_request@ == config.max_home_volume_size@,
{
    VolumeClaimPlan {
        name: workspace_name(user),
        namespace: config.namespace.clone(),
        storage_class: match &config.storage_class {
            None => None,
            Some(c) => Some(c.clone()),
        },
        access_mode: String::from_str("ReadWriteOnce"),
        storage_request: config.max_home_volume_size.clone(),
    }
}

/// The NodePort Service of a user: port 22 to the target port named "ssh",
/// selecting the pods labelled with the user's name.
pub fn service_plan(user: &User, namespace: &String) -> (r: ServicePlan)
    ensures
        r.name@ == workspace_name_of(user.username@),
        r.namespace@ == namespace@,
        r.selector_key@ == WORKSPACE_USER_LABEL@,
        r.selector_value@ == user.username@,
        r.port_name@ == "ssh"@,
        r.port == 22,
        r.target_port_name@ == "ssh"@,
        r.service_type@ == "NodePort"@,
{
    ServicePlan {
        name: workspace_name(user),
        namespace: namespace.clone(),
        selector_key: String::from_str(WORKSPACE_USER_LABEL),
        selector_value: user.username.clone(),
        port_name: String::from_str("ssh"),
        port: 22,
        target_port_name: String::from_str("ssh"),
        service_type: String::from_str("NodePort"),
    }
}

/// The Pod of a user, rendered onto the configured template.
pub fn pod_plan(user: &User, namespace: &String) -> (r: PodPlan)
    ensures
        r.name@ == workspace_name_of(user.username@),
        r.namespace@ == namespace@,
        r.labels@.len() == 2,
        r.labels@[0].0@ == WORKSPACE_POD_LABEL@,
        r.labels@[0].1@ == WORKSPACE_POD_LABEL_VALUE@,
        r.labels@[1].0@ == WORKSPACE_USER_LABEL@,
        r.labels@[1].1@ == user.username@,
        r.container_name@ == POD_MAIN_CONTAINER_NAME@,
        r.default_image@ == "ubuntu"@,
        r.command@.len() == 3,
        r.command@[0]@ == "bash"@,
        r.command@[1]@ == "-c"@,
        r.command@[2]@ == setup_script_of(user.username@, user.ssh_public_key@),
        r.volume_name@ == "home"@,
        r.mount_path@ == "/home/"@ + user.username@,
        r.container_port == 22,
        r.container_port_name@ == "ssh"@,
        r.readiness_probe.port_name@ == "ssh"@,
        r.readiness_probe.initial_delay_seconds == 60,
        r.readiness_probe.period_seconds == 30,
        r.readiness_probe.timeout_seconds == 3,
        r.claim_name@ == workspace_name_of(user.username@),
{
    let labels = vec![
        (String::from_str(WORKSPACE_POD_LABEL), String::from_str(WORKSPACE_POD_LABEL_VALUE)),
        (String::from_str(WORKSPACE_USER_LABEL), user.username.clone()),
    ];
    let command = vec![String::from_str("bash"), String::from_str("-c"), setup_script(user)];
    PodPlan {
        name: workspace_name(user),
        namespace: namespace.clone(),
        labels,
        container_name: String::from_str(POD_MAIN_CONTAINER_NAME),
        default_image: String::from_str("ubuntu"),
        command,
        volume_name: String::from_str("home"),
        mount_path: String::from_str("/home/").concat(user.username.as_str()),
        container_port: 22,
        container_port_name: String::from_str("ssh"),
        readiness_probe: ReadinessProbePlan {
            port_name: String::from_str("ssh"),
            initial_delay_seconds: 60,
            period_seconds: 30,
            timeout_seconds: 3,
        },
        claim_name: workspace_name(user),
    }
}

} // verus!
