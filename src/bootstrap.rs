//! Startup and per-sweep bootstrap: the namespace and the optional
//! prometheus-operator ServiceMonitor.

use vstd::prelude::*;

use crate::config::Config;

verus! {

/// What to do about the configured namespace.
#[derive(Debug)]
pub enum NamespaceAction {
    /// It exists.
    Ready,
    /// It is missing and may be created.
    Create { name: String },
    /// It is missing and may not be created: bootstrap fails.
    Fail,
}

/// Decide about the namespace after looking it up.
pub fn namespace_action(config: &Config, exists: bool) -> (r: NamespaceAction)
    ensures
        exists ==> r is Ready,
        !exists && config.auto_create_namespace ==> (r matches NamespaceAction::Create { name }
            && name@ == config.namespace@),
        !exists && !config.auto_create_namespace ==> r is Fail,
{
    if exists {
        NamespaceAction::Ready
    } else if config.auto_create_namespace {
        NamespaceAction::Create { name: config.namespace.clone() }
    } else {
        NamespaceAction::Fail
    }
}

pub const SERVICE_MONITOR_NAME: &'static str = "kube-workspace-prometheus-operator-servicemonitor";

pub const SERVICE_MONITOR_CRD: &'static str = "servicemonitors.monitoring.coreos.com";

/// A ServiceMonitor endpoint.
#[derive(Clone, Debug)]
pub struct Endpoint {
    /// Port name.
    pub port: Option<String>,
    pub path: Option<String>,
}

/// The ServiceMonitor the operator registers.
#[derive(Clone, Debug)]
pub struct ServiceMonitorPlan {
    pub name: String,
    pub namespace: String,
    pub labels: Vec<(String, String)>,
    pub selector: Vec<(String, String)>,
    pub endpoints: Vec<Endpoint>,
}

/// The operator's ServiceMonitor: it selects the operator's own Service by
/// `app.kubernetes.io/name` and scrapes its port named `prometheus`.
pub fn service_monitor_plan(namespace: &String) -> (r: ServiceMonitorPlan)
    ensures
        r.name@ == SERVICE_MONITOR_NAME@,
        r.namespace@ == namespace@,
        r.labels@.len() == 1,
        r.labels@[0].0@ == "app.kubernetes.io/managed-by"@,
        r.labels@[0].1@ == "kube-workspace-operator"@,
        r.selector@.len() == 1,
        r.selector@[0].0@ == "app.kubernetes.io/name"@,
        r.selector@[0].1@ == "kube-workspace-operator"@,
        r.endpoints@.len() == 1,
        r.endpoints@[0].port matches Some(p) && p@ == "prometheus"@,
        r.endpoints@[0].path is None,
{
    ServiceMonitorPlan {
        name: String::from_str(SERVICE_MONITOR_NAME),
        namespace: namespace.clone(),
        labels: vec![
            (
                String::from_str("app.kubernetes.io/managed-by"),
                String::from_str("kube-workspace-operator"),
            ),
        ],
        selector: vec![
            (String::from_str("app.kubernetes.io/name"), String::from_str("kube-workspace-operator")),
        ],
        endpoints: vec![Endpoint { port: Some(String::from_str("prometheus")), path: None }],
    }
}

/// Next move in registering the ServiceMonitor.
#[derive(Clone, Copy, Debug, PartialEq, Eq, Structural)]
pub enum MonitorAction {
    /// Nothing to do: it exists, or its CRD is not installed.
    Skip,
    /// Look the CRD up.
    CheckCrd,
    Create,
}

/// Decide about the ServiceMonitor: leave an existing one alone; otherwise
/// create it only where the CRD is installed (`crd_installed` is `None`
/// until the CRD was looked up).
pub fn service_monitor_action(monitor_exists: bool, crd_installed: Option<bool>) -> (r:
    MonitorAction)
    ensures
        monitor_exists ==> r == MonitorAction::Skip,
        !monitor_exists && crd_installed is None ==> r == MonitorAction::CheckCrd,
        !monitor_exists && crd_installed == Some(false) ==> r == MonitorAction::Skip,
        !monitor_exists && crd_installed == Some(true) ==> r == MonitorAction::Create,
{
    if monitor_exists {
        MonitorAction::Skip
    } else {
        match crd_installed {
            None => MonitorAction::CheckCrd,
            Some(false) => MonitorAction::Skip,
            Some(true) => MonitorAction::Create,
        }
    }
}

impl Config {
    /// The exporter runs and the ServiceMonitor is to be registered.
    pub fn registers_service_monitor(&self) -> (r: bool)
        ensures
            r == (self.prometheus_exporter matches Some(p)
                && p.auto_register_operator_service_monitor),
    {
        match &self.prometheus_exporter {
            None => false,
            Some(p) => p.auto_register_operator_service_monitor,
        }
    }
}

} // verus!
