use kube_workspace_operator::annotation::{IdleAnnotation, ANNOTATION_KEY};
use kube_workspace_operator::config::{AutoShutdown, CpuIdleAutoShutown, TcpIdleAutoShutdown};
use kube_workspace_operator::sweep::{
    autoshutdown_decision, count_phases, cpu_is_idle, stored_annotation, tcp_connection_count,
    PodMetrics, PodMetricsContainer, PodMetricsContainerUsage, SweepAction, SweepError,
};
use kube_workspace_operator::time::{elapsed_exceeds, from_epoch_offset, Timestamp};
use kube_workspace_operator::workspace::PodSnapshot;

const NOW: i64 = 1_700_000_000;
const HOUR_NANOS: u128 = 3_600_000_000_000;

fn ts(secs: i64) -> Timestamp {
    Timestamp { secs, nanos: 0 }
}

fn tcp_config() -> AutoShutdown {
    AutoShutdown {
        enable: true,
        cpu_usage: None,
        tcp_idle: Some(TcpIdleAutoShutdown { minimum_idle_time_nanos: HOUR_NANOS, ignored_ports: vec![] }),
    }
}

fn pod_with(annotation: Option<String>) -> PodSnapshot {
    PodSnapshot {
        name: Some("workspace-alice".to_string()),
        deleting: false,
        phase: Some("Running".to_string()),
        container_ready: Some(vec![true]),
        node_name: Some("node-1".to_string()),
        idle_annotation: annotation,
        first_container: None,
    }
}

#[test]
fn annotation_text_is_canonical_json() {
    let a = IdleAnnotation { last_idle_check: Some(ts(0)), cpu_idle_since: None, network_idle_since: Some(Timestamp { secs: 60, nanos: 500_000_000 }) };
    assert_eq!(
        a.to_json(),
        "{\"last_idle_check\":\"1970-01-01T00:00:00Z\",\"cpu_idle_since\":null,\"network_idle_since\":\"1970-01-01T00:01:00.500Z\"}"
    );
}

#[test]
fn annotation_round_trip() {
    let samples = [
        IdleAnnotation::empty(),
        IdleAnnotation { last_idle_check: Some(ts(NOW)), cpu_idle_since: Some(ts(NOW - 10)), network_idle_since: None },
        IdleAnnotation {
            last_idle_check: Some(Timestamp { secs: NOW, nanos: 123_456_789 }),
            cpu_idle_since: Some(ts(-86_400)),
            network_idle_since: Some(Timestamp { secs: 253402300799, nanos: 1 }),
        },
    ];
    for a in samples.iter() {
        assert_eq!(IdleAnnotation::from_json(&a.to_json()), Some(*a));
    }
}

#[test]
fn annotation_from_other_offset_and_garbage() {
    let text = "{\"last_idle_check\":\"1970-01-01T01:00:00+01:00\",\"cpu_idle_since\":null,\"network_idle_since\":null}";
    assert_eq!(
        IdleAnnotation::from_json(text),
        Some(IdleAnnotation { last_idle_check: Some(ts(0)), cpu_idle_since: None, network_idle_since: None })
    );
    assert_eq!(IdleAnnotation::from_json("not json"), None);
    assert_eq!(IdleAnnotation::from_json("{\"last_idle_check\":\"yesterday\",\"cpu_idle_since\":null,\"network_idle_since\":null}"), None);
    let pod = pod_with(Some("garbage".to_string()));
    assert_eq!(stored_annotation(&pod), IdleAnnotation::empty());
    assert_eq!(stored_annotation(&pod_with(None)), IdleAnnotation::empty());
}

#[test]
fn next_record_keeps_or_resets_idle_times() {
    let old = IdleAnnotation { last_idle_check: Some(ts(NOW - 30)), cpu_idle_since: Some(ts(NOW - 100)), network_idle_since: Some(ts(NOW - 200)) };
    let n = old.next(ts(NOW), true, true);
    assert_eq!(n, IdleAnnotation { last_idle_check: Some(ts(NOW)), cpu_idle_since: Some(ts(NOW - 100)), network_idle_since: Some(ts(NOW - 200)) });
    let n = old.next(ts(NOW), false, true);
    assert_eq!(n.cpu_idle_since, None);
    let fresh = IdleAnnotation::empty().next(ts(NOW), true, true);
    assert_eq!(fresh.cpu_idle_since, Some(ts(NOW)));
    assert_eq!(fresh.network_idle_since, Some(ts(NOW)));
}

#[test]
fn stale_check_forgets_idle_times() {
    let old = IdleAnnotation { last_idle_check: Some(ts(NOW - 301)), cpu_idle_since: Some(ts(NOW - 1000)), network_idle_since: Some(ts(NOW - 1000)) };
    let n = old.next(ts(NOW), true, true);
    assert_eq!(n.cpu_idle_since, Some(ts(NOW)));
    assert_eq!(n.network_idle_since, Some(ts(NOW)));
    let recent = IdleAnnotation { last_idle_check: Some(ts(NOW - 300)), ..old };
    assert_eq!(recent.next(ts(NOW), true, true).network_idle_since, Some(ts(NOW - 1000)));
}

#[test]
fn shutdown_rule() {
    let cfg = tcp_config();
    let idle = |since: i64| IdleAnnotation { last_idle_check: Some(ts(NOW)), cpu_idle_since: None, network_idle_since: Some(ts(since)) };
    assert!(idle(NOW - 3601).should_shutdown(&cfg, ts(NOW)));
    assert!(!idle(NOW - 3600).should_shutdown(&cfg, ts(NOW)));
    assert!(!idle(NOW + 10).should_shutdown(&cfg, ts(NOW)));
    assert!(!IdleAnnotation::empty().should_shutdown(&cfg, ts(NOW)));
    let none = AutoShutdown { enable: true, cpu_usage: None, tcp_idle: None };
    assert!(!idle(0).should_shutdown(&none, ts(NOW)));
    let both = AutoShutdown {
        cpu_usage: Some(CpuIdleAutoShutown { minimum_idle_time_nanos: HOUR_NANOS, cpu_threshold: 100 }),
        ..tcp_config()
    };
    assert!(!idle(0).should_shutdown(&both, ts(NOW)));
    let all_idle = IdleAnnotation { cpu_idle_since: Some(ts(0)), ..idle(0) };
    assert!(all_idle.should_shutdown(&both, ts(NOW)));
}

#[test]
fn shutdown_is_monotone_in_idle_since() {
    let cfg = tcp_config();
    let mut was_due = false;
    for minutes in 0..120i64 {
        let a = IdleAnnotation { last_idle_check: Some(ts(NOW)), cpu_idle_since: None, network_idle_since: Some(ts(NOW - minutes * 60)) };
        let due = a.should_shutdown(&cfg, ts(NOW));
        assert!(!was_due || due);
        was_due = due;
    }
    assert!(was_due);
}

#[test]
fn connection_lines() {
    assert_eq!(tcp_connection_count(""), 0);
    assert_eq!(tcp_connection_count("  \n\t\n"), 0);
    assert_eq!(tcp_connection_count("ESTAB 0 0 10.0.0.1:22 10.0.0.2:5555\n"), 1);
    assert_eq!(tcp_connection_count("a\nb\nc"), 3);
}

#[test]
fn elapsed_comparison() {
    assert!(elapsed_exceeds(ts(10), ts(0), 9_999_999_999));
    assert!(!elapsed_exceeds(ts(10), ts(0), 10_000_000_000));
    assert!(!elapsed_exceeds(ts(0), ts(10), 0));
    assert!(elapsed_exceeds(Timestamp { secs: 1, nanos: 1 }, ts(1), 0));
}

#[test]
fn auto_shutdown_idle() {
    let old = IdleAnnotation { last_idle_check: Some(ts(NOW - 30)), cpu_idle_since: None, network_idle_since: Some(ts(NOW - 61 * 60)) };
    let pod = pod_with(Some(old.to_json()));
    let stored = stored_annotation(&pod);
    assert_eq!(stored, old);
    match autoshutdown_decision(&pod, &stored, None, &tcp_config(), "", ts(NOW)) {
        Ok(SweepAction::DeletePod { name }) => assert_eq!(name, "workspace-alice"),
        other => panic!("expected deletion, got {:?}", other),
    }
}

#[test]
fn auto_shutdown_reset() {
    let old = IdleAnnotation { last_idle_check: Some(ts(NOW - 30)), cpu_idle_since: None, network_idle_since: Some(ts(NOW - 61 * 60)) };
    let pod = pod_with(Some(old.to_json()));
    let stored = stored_annotation(&pod);
    let out = "ESTAB 0 0 10.0.0.1:22 10.0.0.2:5555\n";
    match autoshutdown_decision(&pod, &stored, None, &tcp_config(), out, ts(NOW)) {
        Ok(SweepAction::PatchAnnotation { name, key, value }) => {
            assert_eq!(name, "workspace-alice");
            assert_eq!(key, ANNOTATION_KEY);
            let written = IdleAnnotation::from_json(&value).unwrap();
            assert_eq!(written.network_idle_since, None);
            assert_eq!(written.last_idle_check, Some(ts(NOW)));
        }
        other => panic!("expected a patch, got {:?}", other),
    }
}

fn metrics(cpu: &str) -> PodMetrics {
    PodMetrics {
        name: Some("workspace-alice".to_string()),
        containers: vec![PodMetricsContainer {
            name: "workspace".to_string(),
            usage: PodMetricsContainerUsage { cpu: cpu.to_string(), memory: "10Mi".to_string() },
        }],
    }
}

#[test]
fn cpu_predicate_reads_total_above_threshold() {
    let cfg = AutoShutdown {
        enable: true,
        cpu_usage: Some(CpuIdleAutoShutown { minimum_idle_time_nanos: HOUR_NANOS, cpu_threshold: 100 }),
        tcp_idle: None,
    };
    assert_eq!(cpu_is_idle(&cfg, Some(&metrics("200"))), Ok(true));
    assert_eq!(cpu_is_idle(&cfg, Some(&metrics("100"))), Ok(false));
    assert_eq!(cpu_is_idle(&cfg, None), Ok(false));
    assert_eq!(cpu_is_idle(&tcp_config(), Some(&metrics("200"))), Ok(false));
    let pod = pod_with(None);
    let r = autoshutdown_decision(&pod, &IdleAnnotation::empty(), Some(&metrics("zz")), &cfg, "", ts(NOW));
    assert!(matches!(r, Err(SweepError::Quantity(_))));
    let nameless = PodSnapshot { name: None, ..pod_with(None) };
    let r = autoshutdown_decision(&nameless, &IdleAnnotation::empty(), None, &cfg, "", ts(NOW));
    assert!(matches!(r, Err(SweepError::NoName)));
}

#[test]
fn phase_counters() {
    let mut pods = vec![pod_with(None), pod_with(None)];
    pods.push(PodSnapshot { phase: Some("Pending".to_string()), ..pod_with(None) });
    pods.push(PodSnapshot { phase: Some("Failed".to_string()), ..pod_with(None) });
    assert_eq!(count_phases(&pods), (2, 1));
    assert_eq!(count_phases(&vec![]), (0, 0));
}

#[test]
fn current_time_is_representable() {
    let t = kube_workspace_operator::time::now().expect("clock in range");
    assert!(t.secs > 1_600_000_000);
    assert!(t.is_valid());
}

#[test]
fn pod_annotation_round_trip() {
    let a = IdleAnnotation { last_idle_check: Some(ts(NOW)), cpu_idle_since: None, network_idle_since: Some(ts(NOW - 90)) };
    let (key, value) = a.to_patch();
    assert_eq!(key, ANNOTATION_KEY);
    assert_eq!(IdleAnnotation::from_pod(&pod_with(Some(value))), Some(a));
    assert_eq!(IdleAnnotation::from_pod(&pod_with(None)), None);
    assert_eq!(IdleAnnotation::from_pod(&pod_with(Some("{}".to_string()))), None);
}

#[test]
fn clock_readings_before_and_after_the_epoch() {
    assert_eq!(from_epoch_offset(true, 5, 7), Some(Timestamp { secs: 5, nanos: 7 }));
    assert_eq!(from_epoch_offset(false, 5, 0), Some(Timestamp { secs: -5, nanos: 0 }));
    assert_eq!(from_epoch_offset(false, 5, 250_000_000), Some(Timestamp { secs: -6, nanos: 750_000_000 }));
    assert_eq!(from_epoch_offset(false, 62135596800, 0), Some(Timestamp { secs: -62135596800, nanos: 0 }));
    assert_eq!(from_epoch_offset(false, 62135596800, 1), None);
    assert_eq!(from_epoch_offset(true, 253402300800, 0), None);
}
