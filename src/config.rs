//! Operator configuration and the user whitelist.

use vstd::prelude::*;

use crate::text::{str_eq, trim, trimmed};

verus! {

/// A whitelisted user account.
#[derive(Clone, Debug)]
pub struct User {
    pub username: String,
    pub ssh_public_key: String,
}

/// Shut a pod down when its CPU metric has marked it idle long enough.
#[derive(Clone, Debug)]
pub struct CpuIdleAutoShutown {
    /// How long the pod must have been idle, in nanoseconds.
    pub minimum_idle_time_nanos: u128,
    /// Threshold in milliCPU against which the pod's usage is compared.
    pub cpu_threshold: u64,
}

/// Shut a pod down when it has had no TCP connection long enough.
#[derive(Clone, Debug)]
pub struct TcpIdleAutoShutdown {
    /// How long the pod must have been idle, in nanoseconds.
    pub minimum_idle_time_nanos: u128,
    /// Ports whose connections should not count (not consulted yet).
    pub ignored_ports: Vec<u16>,
}

/// Automatic workspace shutdown.
#[derive(Clone, Debug)]
pub struct AutoShutdown {
    pub enable: bool,
    pub cpu_usage: Option<CpuIdleAutoShutown>,
    pub tcp_idle: Option<TcpIdleAutoShutdown>,
}

/// Metrics exporter settings as written in the configuration file.
#[derive(Clone, Debug)]
pub struct ConfigSourcePrometheusExporter {
    pub enabled: Option<bool>,
    pub server_address: Option<String>,
    pub auto_register_operator_service_monitor: Option<bool>,
}

/// Metrics exporter settings with defaults applied.
#[derive(Clone, Debug)]
pub struct ConfigPrometheusExporter {
    pub address: String,
    pub auto_register_operator_service_monitor: bool,
}

/// Configuration as read, with most values optional. The pod template is
/// kept by the caller, which hands it to the pod renderer itself.
#[derive(Clone, Debug)]
pub struct ConfigSource {
    pub server_address: Option<String>,
    pub prometheus_exporter: Option<ConfigSourcePrometheusExporter>,
    pub namespace: Option<String>,
    pub auto_create_namespace: Option<bool>,
    pub users: Vec<User>,
    pub max_home_volume_size: Option<String>,
    pub storage_class: Option<String>,
    pub auto_shutdown: Option<AutoShutdown>,
}

/// Operator configuration with defaults applied.
#[derive(Clone, Debug)]
pub struct Config {
    pub server_address: String,
    pub prometheus_exporter: Option<ConfigPrometheusExporter>,
    /// Namespace of every workspace object.
    pub namespace: String,
    pub auto_create_namespace: bool,
    pub users: Vec<User>,
    /// Storage request of each home volume.
    pub max_home_volume_size: String,
    pub storage_class: Option<String>,
    pub auto_shutdown: AutoShutdown,
}

/// Why a user was refused.
#[derive(Clone, Copy, Debug, PartialEq, Eq, Structural)]
pub enum AuthError {
    UnknownUser,
    KeyMismatch,
}

/// Why a configuration was refused.
#[derive(Clone, Copy, Debug, PartialEq, Eq, Structural)]
pub enum ConfigError {
    NamespaceHasSurroundingSpace,
    NamespaceEmpty,
}

impl AutoShutdown {
    /// Switched on, with at least one idle dimension configured.
    pub open spec fn enabled(self) -> bool {
        self.enable && (self.tcp_idle is Some || self.cpu_usage is Some)
    }
}

/// The first index whose user has this name, or `users.len()`.
pub open spec fn first_user_index(users: Seq<User>, name: Seq<char>) -> int
    decreases users.len(),
{
    if users.len() == 0 {
        0
    } else if users[0].username@ == name {
        0
    } else {
        1 + first_user_index(users.drop_first(), name)
    }
}

proof fn lemma_first_user_index(users: Seq<User>, name: Seq<char>, i: int)
    requires
        0 <= i <= users.len(),
        forall|j: int| 0 <= j < i ==> (#[trigger] users[j]).username@ != name,
        i == users.len() || users[i].username@ == name,
    ensures
        first_user_index(users, name) == i,
    decreases i,
{
    if i > 0 {
        assert(users[0].username@ != name);
        assert forall|j: int| 0 <= j < i - 1 implies (
        #[trigger] users.drop_first()[j]).username@ != name by {
            assert(users.drop_first()[j] == users[j + 1]);
        }
        lemma_first_user_index(users.drop_first(), name, i - 1);
    }
}

/// Outcome of checking a name and key against the whitelist.
pub open spec fn verify_outcome(users: Seq<User>, name: Seq<char>, key: Seq<char>) -> Result<
    int,
    AuthError,
> {
    let i = first_user_index(users, name);
    if i >= users.len() {
        Err(AuthError::UnknownUser)
    } else if trim(users[i].ssh_public_key@) != trim(key) {
        Err(AuthError::KeyMismatch)
    } else {
        Ok(i)
    }
}

impl Config {
    /// Whether pods are checked for idleness at all.
    pub fn autoshutdown_enabled(&self) -> (r: bool)
        ensures
            r == self.auto_shutdown.enabled(),
    {
        self.auto_shutdown.enable && (self.auto_shutdown.tcp_idle.is_some()
            || self.auto_shutdown.cpu_usage.is_some())
    }

    /// Position in the whitelist of the first user with this name, when its
    /// key, trimmed, equals the presented key, trimmed.
    pub fn verify_user_index(&self, username: &str, ssh_key: &str) -> (r: Result<usize, AuthError>)
        ensures
            match verify_outcome(self.users@, username@, ssh_key@) {
                Ok(i) => r matches Ok(j) && j as int == i,
                Err(e) => r == Err::<usize, AuthError>(e),
            },
            r matches Ok(i) ==> i < self.users@.len(),
    {
        let mut i: usize = 0;
        while i < self.users.len()
            invariant
                i <= self.users@.len(),
                forall|j: int| 0 <= j < i ==> (#[trigger] self.users@[j]).username@ != username@,
            decreases self.users.len() - i,
        {
            if str_eq(self.users[i].username.as_str(), username) {
                proof {
                    lemma_first_user_index(self.users@, username@, i as int);
                }
                let user = &self.users[i];
                if str_eq(trimmed(user.ssh_public_key.as_str()), trimmed(ssh_key)) {
                    return Ok(i);
                } else {
                    return Err(AuthError::KeyMismatch);
                }
            }
            i = i + 1;
        }
        proof {
            lemma_first_user_index(self.users@, username@, i as int);
        }
        Err(AuthError::UnknownUser)
    }

    /// Find the first whitelisted user with this name and check that its key,
    /// trimmed, equals the presented key, trimmed.
    pub fn verify_user(&self, username: &str, ssh_key: &str) -> (r: Result<&User, AuthError>)
        ensures
            match verify_outcome(self.users@, username@, ssh_key@) {
                Ok(i) => r matches Ok(u) && *u == self.users@[i],
                Err(e) => r == Err::<&User, AuthError>(e),
            },
    {
        match self.verify_user_index(username, ssh_key) {
            Ok(i) => Ok(&self.users[i]),
            Err(e) => Err(e),
        }
    }

    /// The namespace must be non-empty and carry no surrounding whitespace.
    pub fn validate(&self) -> (r: Result<(), ConfigError>)
        ensures
            trim(self.namespace@) != self.namespace@ ==> r == Err::<(), ConfigError>(
                ConfigError::NamespaceHasSurroundingSpace,
            ),
            trim(self.namespace@) == self.namespace@ && self.namespace@.len() == 0 ==> r == Err::<
                (),
                ConfigError,
            >(ConfigError::NamespaceEmpty),
            trim(self.namespace@) == self.namespace@ && self.namespace@.len() > 0 ==> r is Ok,
    {
        let ns = self.namespace.as_str();
        if !str_eq(trimmed(ns), ns) {
            return Err(ConfigError::NamespaceHasSurroundingSpace);
        }
        if ns.unicode_len() == 0 {
            return Err(ConfigError::NamespaceEmpty);
        }
        Ok(())
    }
}

pub open spec fn text_or(v: Option<String>, d: Seq<char>) -> Seq<char> {
    match v {
        None => d,
        Some(s) => s@,
    }
}

/// The namespace after defaults: the configured one, which must be
/// non-empty and carry no surrounding whitespace, or `kube-workspaces`.
pub open spec fn namespace_outcome(v: Option<String>) -> Result<Seq<char>, ConfigError> {
    match v {
        None => Ok("kube-workspaces"@),
        Some(s) => if trim(s@) != s@ {
            Err(ConfigError::NamespaceHasSurroundingSpace)
        } else if s@.len() == 0 {
            Err(ConfigError::NamespaceEmpty)
        } else {
            Ok(s@)
        },
    }
}

fn string_or(v: Option<String>, d: &str) -> (r: String)
    ensures
        r@ == text_or(v, d@),
{
    match v {
        None => String::from_str(d),
        Some(s) => s,
    }
}

/// `c` is `src` with the defaults applied.
pub open spec fn built_from(src: ConfigSource, c: Config) -> bool {
    &&& namespace_outcome(src.namespace) == Ok::<Seq<char>, ConfigError>(c.namespace@)
    &&& c.server_address@ == text_or(src.server_address, "0.0.0.0:8080"@)
    &&& c.auto_create_namespace == match src.auto_create_namespace {
        None => true,
        Some(b) => b,
    }
    &&& c.users == src.users
    &&& c.max_home_volume_size@ == text_or(src.max_home_volume_size, "10Gi"@)
    &&& c.storage_class == src.storage_class
    &&& c.auto_shutdown == match src.auto_shutdown {
        None => AutoShutdown { enable: false, cpu_usage: None, tcp_idle: None },
        Some(a) => a,
    }
    &&& match src.prometheus_exporter {
        None => c.prometheus_exporter matches Some(p) && p.address@ == "0.0.0.0:9999"@
            && p.auto_register_operator_service_monitor,
        Some(p) => if p.enabled == Some(true) {
            c.prometheus_exporter matches Some(e) && e.address@ == text_or(
                p.server_address,
                "0.0.0.0:9999"@,
            ) && e.auto_register_operator_service_monitor == (
            p.auto_register_operator_service_monitor != Some(false))
        } else {
            c.prometheus_exporter is None
        },
    }
}

impl ConfigSource {
    /// Apply defaults: server on `0.0.0.0:8080`; a metrics exporter on
    /// `0.0.0.0:9999` that registers its ServiceMonitor, unless an exporter
    /// section is given (then it runs only when enabled, and registers unless
    /// told not to); namespace `kube-workspaces`; namespaces created when
    /// missing; home volumes of `10Gi`; auto shutdown off. A given namespace
    /// that is empty or has surrounding whitespace is refused.
    pub fn build(self) -> (r: Result<Config, ConfigError>)
        ensures
            match namespace_outcome(self.namespace) {
                Err(e) => r == Err::<Config, ConfigError>(e),
                Ok(_) => r matches Ok(c) && built_from(self, c),
            },
    {
        let namespace = match self.namespace {
            None => String::from_str("kube-workspaces"),
            Some(n) => {
                if !str_eq(trimmed(n.as_str()), n.as_str()) {
                    return Err(ConfigError::NamespaceHasSurroundingSpace);
                }
                if n.as_str().unicode_len() == 0 {
                    return Err(ConfigError::NamespaceEmpty);
                }
                n
            },
        };
        let prometheus_exporter = match self.prometheus_exporter {
            None => Some(
                ConfigPrometheusExporter {
                    address: String::from_str("0.0.0.0:9999"),
                    auto_register_operator_service_monitor: true,
                },
            ),
            Some(p) => match p.enabled {
                Some(true) => Some(
                    ConfigPrometheusExporter {
                        address: string_or(p.server_address, "0.0.0.0:9999"),
                        auto_register_operator_service_monitor: match p.auto_register_operator_service_monitor {
                            None => true,
                            Some(b) => b,
                        },
                    },
                ),
                _ => None,
            },
        };
        Ok(
            Config {
                server_address: string_or(self.server_address, "0.0.0.0:8080"),
                prometheus_exporter,
                namespace,
                auto_create_namespace: match self.auto_create_namespace {
                    None => true,
                    Some(b) => b,
                },
                users: self.users,
                max_home_volume_size: string_or(self.max_home_volume_size, "10Gi"),
                storage_class: self.storage_class,
                auto_shutdown: match self.auto_shutdown {
                    None => AutoShutdown { enable: false, cpu_usage: None, tcp_idle: None },
                    Some(a) => a,
                },
            },
        )
    }
}

} // verus!
