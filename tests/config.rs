use kube_workspace_operator::bootstrap::{
    namespace_action, service_monitor_action, service_monitor_plan, MonitorAction,
    NamespaceAction,
};
use kube_workspace_operator::config::{
    AuthError, AutoShutdown, Config, ConfigError, ConfigSource, ConfigSourcePrometheusExporter,
    TcpIdleAutoShutdown, User,
};
use kube_workspace_operator::text::trimmed;

fn source() -> ConfigSource {
    ConfigSource {
        server_address: None,
        prometheus_exporter: None,
        namespace: None,
        auto_create_namespace: None,
        users: vec![],
        max_home_volume_size: None,
        storage_class: None,
        auto_shutdown: None,
    }
}

fn config_with(users: Vec<User>, namespace: &str) -> Config {
    Config {
        server_address: "0.0.0.0:8080".to_string(),
        prometheus_exporter: None,
        namespace: namespace.to_string(),
        auto_create_namespace: false,
        users,
        max_home_volume_size: "10Gi".to_string(),
        storage_class: None,
        auto_shutdown: AutoShutdown { enable: false, cpu_usage: None, tcp_idle: None },
    }
}

fn user(name: &str, key: &str) -> User {
    User { username: name.to_string(), ssh_public_key: key.to_string() }
}

#[test]
fn defaults_apply() {
    let c = source().build().unwrap();
    assert_eq!(c.server_address, "0.0.0.0:8080");
    assert_eq!(c.namespace, "kube-workspaces");
    assert!(c.auto_create_namespace);
    assert_eq!(c.max_home_volume_size, "10Gi");
    assert!(!c.auto_shutdown.enable);
    let p = c.prometheus_exporter.unwrap();
    assert_eq!(p.address, "0.0.0.0:9999");
    assert!(p.auto_register_operator_service_monitor);
}

#[test]
fn exporter_section_needs_enabling() {
    let mut s = source();
    s.prometheus_exporter = Some(ConfigSourcePrometheusExporter { enabled: None, server_address: None, auto_register_operator_service_monitor: None });
    assert!(s.build().unwrap().prometheus_exporter.is_none());
    let mut s = source();
    s.prometheus_exporter = Some(ConfigSourcePrometheusExporter {
        enabled: Some(true),
        server_address: Some("127.0.0.1:9000".to_string()),
        auto_register_operator_service_monitor: Some(false),
    });
    let p = s.build().unwrap().prometheus_exporter.unwrap();
    assert_eq!(p.address, "127.0.0.1:9000");
    assert!(!p.auto_register_operator_service_monitor);
}

#[test]
fn namespace_must_be_bare_and_not_empty() {
    let mut s = source();
    s.namespace = Some("  ws \n".to_string());
    assert_eq!(s.build().err(), Some(ConfigError::NamespaceHasSurroundingSpace));
    let mut s = source();
    s.namespace = Some("   ".to_string());
    assert_eq!(s.build().err(), Some(ConfigError::NamespaceHasSurroundingSpace));
    let mut s = source();
    s.namespace = Some(String::new());
    assert_eq!(s.build().err(), Some(ConfigError::NamespaceEmpty));
    let mut s = source();
    s.namespace = Some("ws".to_string());
    assert_eq!(s.build().unwrap().namespace, "ws");
}

#[test]
fn validation_of_namespace() {
    assert_eq!(config_with(vec![], "ws").validate(), Ok(()));
    assert_eq!(config_with(vec![], "").validate(), Err(ConfigError::NamespaceEmpty));
    assert_eq!(config_with(vec![], " ws").validate(), Err(ConfigError::NamespaceHasSurroundingSpace));
}

#[test]
fn user_verification() {
    let c = config_with(
        vec![user("alice", "  ssh-ed25519 AAA...\n"), user("bob", "k1"), user("bob", "k2")],
        "ws",
    );
    assert_eq!(c.verify_user("alice", "ssh-ed25519 AAA...").unwrap().username, "alice");
    assert_eq!(c.verify_user("alice", " ssh-ed25519 AAA... ").unwrap().username, "alice");
    assert_eq!(c.verify_user("alice", "ssh-rsa WRONG").err(), Some(AuthError::KeyMismatch));
    assert_eq!(c.verify_user("carol", "k1").err(), Some(AuthError::UnknownUser));
    assert_eq!(c.verify_user_index("bob", "k1"), Ok(1));
    assert_eq!(c.verify_user_index("bob", "k2"), Err(AuthError::KeyMismatch));
    assert_eq!(c.verify_user("ALICE", "ssh-ed25519 AAA...").err(), Some(AuthError::UnknownUser));
}

#[test]
fn autoshutdown_switch() {
    let mut c = config_with(vec![], "ws");
    assert!(!c.autoshutdown_enabled());
    c.auto_shutdown.enable = true;
    assert!(!c.autoshutdown_enabled());
    c.auto_shutdown.tcp_idle = Some(TcpIdleAutoShutdown { minimum_idle_time_nanos: 1, ignored_ports: vec![22] });
    assert!(c.autoshutdown_enabled());
}

#[test]
fn namespace_bootstrap() {
    let mut c = config_with(vec![], "ws");
    assert!(matches!(namespace_action(&c, true), NamespaceAction::Ready));
    assert!(matches!(namespace_action(&c, false), NamespaceAction::Fail));
    c.auto_create_namespace = true;
    assert!(matches!(namespace_action(&c, false), NamespaceAction::Create { ref name } if name == "ws"));
}

#[test]
fn service_monitor_bootstrap() {
    assert_eq!(service_monitor_action(true, None), MonitorAction::Skip);
    assert_eq!(service_monitor_action(false, None), MonitorAction::CheckCrd);
    assert_eq!(service_monitor_action(false, Some(false)), MonitorAction::Skip);
    assert_eq!(service_monitor_action(false, Some(true)), MonitorAction::Create);
    let p = service_monitor_plan(&"ws".to_string());
    assert_eq!(p.name, "kube-workspace-prometheus-operator-servicemonitor");
    assert_eq!(p.selector, vec![("app.kubernetes.io/name".to_string(), "kube-workspace-operator".to_string())]);
    assert_eq!(p.endpoints[0].port.as_deref(), Some("prometheus"));
    let mut c = config_with(vec![], "ws");
    assert!(!c.registers_service_monitor());
    c.prometheus_exporter = source().build().unwrap().prometheus_exporter;
    assert!(c.registers_service_monitor());
}

#[test]
fn trimming_unicode_whitespace() {
    assert_eq!(trimmed("\u{3000} a b\u{85}\t"), "a b");
    assert_eq!(trimmed("   "), "");
    assert_eq!(trimmed("x"), "x");
}
