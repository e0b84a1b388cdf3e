use kube_workspace_operator::api::{
    begin_query, query_response, ApiResult, PodStartRequest, PodStatusRequest, PodStopRequest,
    Query, QueryOutput, QueryPlan,
};
use kube_workspace_operator::config::{AutoShutdown, Config, User};
use kube_workspace_operator::reconcile::{
    ensure_step, status_step, stop_step, ClusterReply, ClusterRequest, EnsureStage, StatusStage,
    Step, StopStage,
};
use kube_workspace_operator::workspace::{
    NodeAddress, NodeSnapshot, PodSnapshot, ServiceSnapshot, WorkspacePhase,
};

const KEY: &str = "ssh-ed25519 AAA...";

fn config() -> Config {
    Config {
        server_address: "0.0.0.0:8080".to_string(),
        prometheus_exporter: None,
        namespace: "ws".to_string(),
        auto_create_namespace: true,
        users: vec![User { username: "alice".to_string(), ssh_public_key: KEY.to_string() }],
        max_home_volume_size: "10Gi".to_string(),
        storage_class: None,
        auto_shutdown: AutoShutdown { enable: false, cpu_usage: None, tcp_idle: None },
    }
}

fn pending_pod() -> PodSnapshot {
    PodSnapshot {
        name: Some("workspace-alice".to_string()),
        deleting: false,
        phase: Some("Pending".to_string()),
        container_ready: None,
        node_name: None,
        idle_annotation: None,
        first_container: None,
    }
}

fn request(step: Step) -> ClusterRequest {
    match step {
        Step::Request(r) => r,
        other => panic!("expected a request, got {:?}", other),
    }
}

#[test]
fn cold_start() {
    let cfg = config();
    let query = Query::PodStart(PodStartRequest { username: "alice".to_string(), ssh_public_key: KEY.to_string() });
    let (user, mut stage, first) = match begin_query(&cfg, &query) {
        QueryPlan::Start { user, stage, request } => (user, stage, request),
        other => panic!("unexpected plan {:?}", other),
    };
    let user = &cfg.users[user];
    assert!(matches!(first, ClusterRequest::GetVolumeClaim { ref name } if name == "workspace-alice"));

    let (s, step) = ensure_step(user, &cfg, stage, ClusterReply::Missing);
    stage = s;
    match request(step) {
        ClusterRequest::CreateVolumeClaim(p) => {
            assert_eq!(p.name, "workspace-alice");
            assert_eq!(p.namespace, "ws");
            assert_eq!(p.storage_request, "10Gi");
            assert_eq!(p.access_mode, "ReadWriteOnce");
            assert_eq!(p.storage_class, None);
        }
        other => panic!("unexpected {:?}", other),
    }
    let (s, step) = ensure_step(user, &cfg, stage, ClusterReply::VolumeClaim);
    stage = s;
    assert!(matches!(request(step), ClusterRequest::GetService { ref name } if name == "workspace-alice"));
    let (s, step) = ensure_step(user, &cfg, stage, ClusterReply::Missing);
    stage = s;
    match request(step) {
        ClusterRequest::CreateService(p) => {
            assert_eq!(p.name, "workspace-alice");
            assert_eq!(p.service_type, "NodePort");
            assert_eq!((p.selector_key.as_str(), p.selector_value.as_str()), ("workspace-user", "alice"));
            assert_eq!(p.port, 22);
            assert_eq!(p.target_port_name, "ssh");
        }
        other => panic!("unexpected {:?}", other),
    }
    let svc = ServiceSnapshot { node_ports: vec![Some(31234)] };
    let (s, step) = ensure_step(user, &cfg, stage, ClusterReply::Service(svc));
    stage = s;
    assert!(matches!(request(step), ClusterRequest::GetPod { ref name } if name == "workspace-alice"));
    let (s, step) = ensure_step(user, &cfg, stage, ClusterReply::Missing);
    stage = s;
    match request(step) {
        ClusterRequest::CreatePod(p) => {
            assert_eq!(p.name, "workspace-alice");
            assert_eq!(
                p.labels,
                vec![
                    ("workspace-pod".to_string(), "true".to_string()),
                    ("workspace-user".to_string(), "alice".to_string())
                ]
            );
            assert_eq!(p.default_image, "ubuntu");
            assert_eq!(p.container_name, "workspace");
            assert_eq!(p.readiness_probe.port_name, "ssh");
            assert_eq!(p.readiness_probe.initial_delay_seconds, 60);
            assert_eq!(p.readiness_probe.period_seconds, 30);
            assert_eq!(p.readiness_probe.timeout_seconds, 3);
            assert_eq!(p.mount_path, "/home/alice");
            assert_eq!(p.claim_name, "workspace-alice");
            assert_eq!(p.command[0], "bash");
            assert_eq!(p.command[1], "-c");
            assert!(p.command[2].starts_with("apt-get update && apt-get install -y openssh-server && "));
            assert!(p.command[2].contains("echo 'ssh-ed25519 AAA...' > /home/alice/.ssh/authorized_keys"));
            assert!(p.command[2].ends_with("service ssh start && sleep infinity"));
        }
        other => panic!("unexpected {:?}", other),
    }
    let (s, step) = ensure_step(user, &cfg, stage, ClusterReply::Pod(pending_pod()));
    assert!(matches!(s, EnsureStage::Done));
    let response = query_response(&query, &user.username, step);
    match response {
        ApiResult::Success(QueryOutput::PodStart(st)) => {
            assert_eq!(st.phase, WorkspacePhase::Starting);
            assert!(st.ssh_address.is_none());
            assert_eq!(st.username, "alice");
        }
        other => panic!("unexpected {:?}", other),
    }
}

#[test]
fn existing_objects_are_reused() {
    let cfg = config();
    let user = &cfg.users[0];
    let (s, step) = ensure_step(user, &cfg, EnsureStage::VolumeLookup, ClusterReply::VolumeClaim);
    assert!(matches!(request(step), ClusterRequest::GetService { .. }));
    let (s, step) = ensure_step(user, &cfg, s, ClusterReply::Service(ServiceSnapshot { node_ports: vec![] }));
    assert!(matches!(request(step), ClusterRequest::GetPod { .. }));
    let scheduled = PodSnapshot { node_name: Some("node-1".to_string()), ..pending_pod() };
    let (s, step) = ensure_step(user, &cfg, s, ClusterReply::Pod(scheduled));
    assert!(matches!(request(step), ClusterRequest::GetNode { ref name } if name == "node-1"));
    let (s, step) = ensure_step(user, &cfg, s, ClusterReply::Failed("node gone".to_string()));
    assert!(matches!(s, EnsureStage::Done));
    assert!(matches!(step, Step::Failed(ref m) if m == "node gone"));
}

#[test]
fn warm_status() {
    let cfg = config();
    let query = Query::PodStatus(PodStatusRequest { username: "alice".to_string(), ssh_public_key: KEY.to_string() });
    let (user, stage) = match begin_query(&cfg, &query) {
        QueryPlan::Status { user, stage, request } => {
            assert!(matches!(request, ClusterRequest::GetService { ref name } if name == "workspace-alice"));
            (user, stage)
        }
        other => panic!("unexpected plan {:?}", other),
    };
    let user = &cfg.users[user];
    let svc = ServiceSnapshot { node_ports: vec![Some(31234)] };
    let (stage, step) = status_step(user, stage, ClusterReply::Service(svc));
    assert!(matches!(request(step), ClusterRequest::GetPod { .. }));
    let ready = PodSnapshot {
        phase: Some("Running".to_string()),
        container_ready: Some(vec![true]),
        node_name: Some("node-1".to_string()),
        ..pending_pod()
    };
    let (stage, step) = status_step(user, stage, ClusterReply::Pod(ready));
    assert!(matches!(request(step), ClusterRequest::GetNode { ref name } if name == "node-1"));
    let node = NodeSnapshot { addresses: vec![NodeAddress { type_: "InternalIP".to_string(), address: "10.0.0.7".to_string() }] };
    let (stage, step) = status_step(user, stage, ClusterReply::Node(node));
    assert!(matches!(stage, StatusStage::Done));
    match query_response(&query, &user.username, step) {
        ApiResult::Success(QueryOutput::PodStatus(st)) => {
            assert_eq!(st.phase, WorkspacePhase::Ready);
            let addr = st.ssh_address.expect("address");
            assert_eq!(addr.address, "10.0.0.7");
            assert_eq!(addr.port, 31234);
            let info = st.info.expect("info");
            assert_eq!(info.image, "<unknown>");
        }
        other => panic!("unexpected {:?}", other),
    }
}

#[test]
fn stop_then_status() {
    let cfg = config();
    let query = Query::PodStop(PodStopRequest { username: "alice".to_string(), ssh_public_key: KEY.to_string() });
    let (user, stage) = match begin_query(&cfg, &query) {
        QueryPlan::Stop { user, stage, request } => {
            assert!(matches!(request, ClusterRequest::GetPod { ref name } if name == "workspace-alice"));
            (user, stage)
        }
        other => panic!("unexpected plan {:?}", other),
    };
    let user = &cfg.users[user];
    let (stage, step) = stop_step(user, stage, ClusterReply::Pod(pending_pod()));
    assert!(matches!(request(step), ClusterRequest::DeletePod { ref name } if name == "workspace-alice"));
    let (stage, step) = stop_step(user, stage, ClusterReply::Deleted);
    assert!(matches!(request(step), ClusterRequest::DeleteService { ref name } if name == "workspace-alice"));
    let (stage, step) = stop_step(user, stage, ClusterReply::Deleted);
    assert_eq!(stage, StopStage::Done);
    assert!(matches!(query_response(&query, &user.username, step), ApiResult::Success(QueryOutput::PodStop)));

    let (stage, step) = status_step(user, StatusStage::ServiceLookup, ClusterReply::Missing);
    assert!(matches!(request(step), ClusterRequest::GetPod { .. }));
    let (_, step) = status_step(user, stage, ClusterReply::Missing);
    match step {
        Step::Finished(st) => {
            assert_eq!(st.phase, WorkspacePhase::NotFound);
            assert!(st.pod.is_none() && st.service.is_none() && st.node.is_none());
        }
        other => panic!("unexpected {:?}", other),
    }
}

#[test]
fn stop_without_pod_touches_nothing() {
    let cfg = config();
    let (stage, step) = stop_step(&cfg.users[0], StopStage::PodLookup, ClusterReply::Missing);
    assert_eq!(stage, StopStage::Done);
    assert!(matches!(step, Step::Stopped));
}

#[test]
fn status_reports_service_without_pod() {
    let cfg = config();
    let user = &cfg.users[0];
    let (stage, _) = status_step(user, StatusStage::ServiceLookup, ClusterReply::Service(ServiceSnapshot { node_ports: vec![Some(30000)] }));
    let (_, step) = status_step(user, stage, ClusterReply::Missing);
    match step {
        Step::Finished(st) => {
            assert_eq!(st.phase, WorkspacePhase::NotFound);
            assert!(st.service.is_some());
        }
        other => panic!("unexpected {:?}", other),
    }
}

#[test]
fn wrong_key() {
    let cfg = config();
    let query = Query::PodStart(PodStartRequest { username: "alice".to_string(), ssh_public_key: "ssh-rsa WRONG".to_string() });
    match begin_query(&cfg, &query) {
        QueryPlan::Rejected { message } => assert_eq!(message, "Invalid/unknown ssh public key"),
        other => panic!("expected rejection, got {:?}", other),
    }
    let query = Query::PodStatus(PodStatusRequest { username: "bob".to_string(), ssh_public_key: KEY.to_string() });
    match begin_query(&cfg, &query) {
        QueryPlan::Rejected { message } => assert_eq!(message, "Username not found"),
        other => panic!("expected rejection, got {:?}", other),
    }
}

#[test]
fn unexpected_reply_fails() {
    let cfg = config();
    let (s, step) = ensure_step(&cfg.users[0], &cfg, EnsureStage::VolumeCreate, ClusterReply::Missing);
    assert!(matches!(s, EnsureStage::Done));
    assert!(matches!(step, Step::Failed(_)));
}

#[test]
fn rendering_keeps_a_template_image() {
    use_template_edit();
}

fn use_template_edit() {
    let cfg = config();
    let plan = kube_workspace_operator::render::pod_plan(&cfg.users[0], &cfg.namespace);
    let keep = kube_workspace_operator::render::main_container_edit(&plan, true, true);
    assert!(!keep.add_container);
    assert_eq!(keep.set_image, None);
    let fresh = kube_workspace_operator::render::main_container_edit(&plan, false, false);
    assert!(fresh.add_container);
    assert_eq!(fresh.set_image.as_deref(), Some("ubuntu"));
    let unset = kube_workspace_operator::render::main_container_edit(&plan, true, false);
    assert_eq!(unset.set_image.as_deref(), Some("ubuntu"));
}
