//! Decisions of the periodic sweep: phase counters and, per pod, whether to
//! delete it or to record its idle state.

use vstd::prelude::*;

use crate::annotation::{
    annotation_json, next_record, record_text_reads, shutdown_due, IdleAnnotation,
    ANNOTATION_KEY,
};
use crate::config::AutoShutdown;
use crate::quantity::{clamp_i64, parse_quantity, quantity_value, QuantityError};
use crate::text::{lemma_trim_last, str_eq, trim, trimmed};
use crate::time::Timestamp;
use crate::workspace::{phase_of, PodSnapshot, WorkspacePhase};

verus! {

/// Resource usage of one container, as quantity texts.
#[derive(Clone, Debug)]
pub struct PodMetricsContainerUsage {
    pub cpu: String,
    pub memory: String,
}

/// Usage of one container of a pod.
#[derive(Clone, Debug)]
pub struct PodMetricsContainer {
    pub name: String,
    pub usage: PodMetricsContainerUsage,
}

/// Resource metrics of one pod.
#[derive(Clone, Debug)]
pub struct PodMetrics {
    pub name: Option<String>,
    pub containers: Vec<PodMetricsContainer>,
}

/// What the sweep does with one pod.
#[derive(Debug)]
pub enum SweepAction {
    DeletePod { name: String },
    /// Server-side apply of one annotation.
    PatchAnnotation { name: String, key: String, value: String },
}

/// Why a pod was skipped.
#[derive(Clone, Copy, Debug, PartialEq, Eq, Structural)]
pub enum SweepError {
    NoName,
    Quantity(QuantityError),
}

/// Sum of the containers' CPU quantities; the first undecodable one fails.
pub open spec fn total_cpu_of(cs: Seq<PodMetricsContainer>) -> Result<int, QuantityError>
    decreases cs.len(),
{
    if cs.len() == 0 {
        Ok(0)
    } else {
        match total_cpu_of(cs.drop_last()) {
            Err(e) => Err(e),
            Ok(t) => match quantity_value(cs.last().usage.cpu@) {
                Err(e) => Err(e),
                Ok(v) => Ok(t + v),
            },
        }
    }
}

/// Total CPU of a pod: the sum over its containers of `usage.cpu`,
/// saturated to `i64`.
pub fn pod_metrics_total_cpu(metrics: &PodMetrics) -> (r: Result<i64, QuantityError>)
    ensures
        match total_cpu_of(metrics.containers@) {
            Err(e) => r == Err::<i64, QuantityError>(e),
            Ok(t) => r == Ok::<i64, QuantityError>(clamp_i64(t) as i64),
        },
{
    let cs = &metrics.containers;
    let mut acc: i128 = 0;
    let mut i: usize = 0;
    while i < cs.len()
        invariant
            cs@ == metrics.containers@,
            i <= cs@.len(),
            total_cpu_of(cs@.subrange(0, i as int)) == Ok::<int, QuantityError>(acc as int),
            -(i as int) * 9223372036854775808 <= acc <= (i as int) * 9223372036854775808,
        decreases cs.len() - i,
    {
        assert(cs@.subrange(0, i + 1).drop_last() =~= cs@.subrange(0, i as int));
        match parse_quantity(cs[i].usage.cpu.as_str()) {
            Err(e) => {
                assert(cs@.subrange(0, i + 1).last() == cs@[i as int]);
                proof {
                    lemma_first_error_stays(cs@, i as int + 1);
                }
                return Err(e);
            },
            Ok(v) => {
                assert(i < cs@.len());
                assert((i as int) * 9223372036854775808 < 170141183460469231731687303715884105727
                    - 9223372036854775808) by (nonlinear_arith)
                    requires
                        0 <= i as int <= 18446744073709551614,
                ;
                acc = acc + v as i128;
            },
        }
        i = i + 1;
    }
    assert(cs@.subrange(0, i as int) =~= cs@);
    if acc > i64::MAX as i128 {
        Ok(i64::MAX)
    } else if acc < i64::MIN as i128 {
        Ok(i64::MIN)
    } else {
        Ok(acc as i64)
    }
}

proof fn lemma_first_error_stays(cs: Seq<PodMetricsContainer>, k: int)
    requires
        0 < k <= cs.len(),
        total_cpu_of(cs.subrange(0, k)) is Err,
    ensures
        total_cpu_of(cs) == total_cpu_of(cs.subrange(0, k)),
    decreases cs.len() - k,
{
    if k < cs.len() {
        assert(cs.subrange(0, k + 1).drop_last() =~= cs.subrange(0, k));
        lemma_first_error_stays(cs, k + 1);
    } else {
        assert(cs.subrange(0, k) =~= cs);
    }
}

/// The CPU idle predicate: CPU shutdown is configured, metrics are there,
/// and the pod's total is greater than the threshold.
pub open spec fn cpu_idle_of(config: AutoShutdown, metrics: Option<PodMetrics>) -> Result<
    bool,
    QuantityError,
> {
    match (config.cpu_usage, metrics) {
        (Some(c), Some(m)) => match total_cpu_of(m.containers@) {
            Err(e) => Err(e),
            Ok(t) => Ok(clamp_i64(t) > c.cpu_threshold as int),
        },
        _ => Ok(false),
    }
}

/// Whether the CPU dimension counts the pod as idle.
pub fn cpu_is_idle(config: &AutoShutdown, metrics: Option<&PodMetrics>) -> (r: Result<
    bool,
    QuantityError,
>)
    ensures
        r == cpu_idle_of(
            *config,
            match metrics {
                None => None,
                Some(m) => Some(*m),
            },
        ),
{
    match (&config.cpu_usage, metrics) {
        (Some(c), Some(m)) => match pod_metrics_total_cpu(m) {
            Err(e) => Err(e),
            Ok(t) => Ok(t >= 0 && t as u64 > c.cpu_threshold),
        },
        _ => Ok(false),
    }
}

/// Number of `'\n'` in `s`.
pub open spec fn newline_count(s: Seq<char>) -> int
    decreases s.len(),
{
    if s.len() == 0 {
        0
    } else {
        newline_count(s.drop_last()) + if s.last() == '\n' {
            1int
        } else {
            0int
        }
    }
}

/// Lines of the trimmed output of `ss --tcp --oneline --no-header`.
pub open spec fn connection_count_of(out: Seq<char>) -> int {
    if trim(out).len() == 0 {
        0
    } else {
        newline_count(trim(out)) + 1
    }
}

/// Number of TCP connections listed by `ss --tcp --oneline --no-header`: the
/// lines of its trimmed output.
pub fn tcp_connection_count(ss_stdout: &str) -> (r: usize)
    ensures
        r as int == connection_count_of(ss_stdout@),
        r == 0 <==> trim(ss_stdout@).len() == 0,
{
    let t = trimmed(ss_stdout);
    let n = t.unicode_len();
    if n == 0 {
        return 0;
    }
    let mut count: usize = 0;
    let mut i: usize = 0;
    while i < n - 1
        invariant
            i <= n - 1,
            n == t@.len(),
            count as int == newline_count(t@.subrange(0, i as int)),
            count <= i,
        decreases n - i,
    {
        assert(t@.subrange(0, i + 1).drop_last() =~= t@.subrange(0, i as int));
        if t.get_char(i) == '\n' {
            count = count + 1;
        }
        i = i + 1;
    }
    proof {
        lemma_trim_last(ss_stdout@);
    }
    assert(t@.subrange(0, n as int).drop_last() =~= t@.subrange(0, n - 1));
    assert(t@.subrange(0, n as int) =~= t@);
    count + 1
}

/// The command run in a workspace container to list its TCP connections:
/// `ss --tcp --oneline --no-header`.
pub fn connection_probe_command() -> (r: Vec<String>)
    ensures
        r@.len() == 4,
        r@[0]@ == "ss"@,
        r@[1]@ == "--tcp"@,
        r@[2]@ == "--oneline"@,
        r@[3]@ == "--no-header"@,
{
    vec![
        String::from_str("ss"),
        String::from_str("--tcp"),
        String::from_str("--oneline"),
        String::from_str("--no-header"),
    ]
}

/// The idle record stored on a pod; the empty record when there is none or it
/// cannot be read.
pub fn stored_annotation(pod: &PodSnapshot) -> (r: IdleAnnotation)
    ensures
        r.valid(),
        pod.idle_annotation is None ==> r == IdleAnnotation::empty_record(),
        forall|a: IdleAnnotation|
            pod.idle_annotation matches Some(s) && a.encodable() && s@ == #[trigger] annotation_json(
                a,
            ) ==> r == a,
        r == IdleAnnotation::empty_record() || (pod.idle_annotation matches Some(s)
            && record_text_reads(s@, r)),
{
    match IdleAnnotation::from_pod(pod) {
        Some(a) => a,
        None => IdleAnnotation::empty(),
    }
}

/// What the sweep does with a pod, given its stored record, its metrics,
/// the output of `ss` run in it and the time: record the new idle state, or
/// delete the pod when the new record makes its shutdown due.
pub fn autoshutdown_decision(
    pod: &PodSnapshot,
    old: &IdleAnnotation,
    metrics: Option<&PodMetrics>,
    config: &AutoShutdown,
    ss_stdout: &str,
    now: Timestamp,
) -> (r: Result<SweepAction, SweepError>)
    requires
        old.valid(),
        now.valid(),
    ensures
        match pod.name {
            None => r == Err::<SweepAction, SweepError>(SweepError::NoName),
            Some(n) => match cpu_idle_of(
                *config,
                match metrics {
                    None => None,
                    Some(m) => Some(*m),
                },
            ) {
                Err(e) => r == Err::<SweepAction, SweepError>(SweepError::Quantity(e)),
                Ok(cpu) => {
                    let new = next_record(*old, now, cpu, trim(ss_stdout@).len() == 0);
                    if shutdown_due(new, *config, now) {
                        r matches Ok(SweepAction::DeletePod { name }) && name@ == n@
                    } else {
                        r matches Ok(SweepAction::PatchAnnotation { name, key, value }) && name@
                            == n@ && key@ == ANNOTATION_KEY@ && value@ == annotation_json(new)
                    }
                },
            },
        },
{
    let name = match &pod.name {
        None => return Err(SweepError::NoName),
        Some(n) => n,
    };
    let cpu = match cpu_is_idle(config, metrics) {
        Err(e) => return Err(SweepError::Quantity(e)),
        Ok(c) => c,
    };
    let network = tcp_connection_count(ss_stdout) == 0;
    let new = old.next(now, cpu, network);
    if new.should_shutdown(config, now) {
        Ok(SweepAction::DeletePod { name: name.clone() })
    } else {
        Ok(
            SweepAction::PatchAnnotation {
                name: name.clone(),
                key: String::from_str(ANNOTATION_KEY),
                value: new.to_json(),
            },
        )
    }
}

/// Number of pods in a phase.
pub open spec fn phase_count(pods: Seq<PodSnapshot>, ph: WorkspacePhase) -> int
    decreases pods.len(),
{
    if pods.len() == 0 {
        0
    } else {
        phase_count(pods.drop_last(), ph) + if phase_of(pods.last()) == ph {
            1int
        } else {
            0int
        }
    }
}

/// Available (`Ready`) and unavailable (`Starting`) workspace counts.
pub fn count_phases(pods: &Vec<PodSnapshot>) -> (r: (u64, u64))
    requires
        pods@.len() < u64::MAX,
    ensures
        r.0 as int == phase_count(pods@, WorkspacePhase::Ready),
        r.1 as int == phase_count(pods@, WorkspacePhase::Starting),
{
    let mut available: u64 = 0;
    let mut unavailable: u64 = 0;
    let mut i: usize = 0;
    while i < pods.len()
        invariant
            i <= pods@.len() < u64::MAX,
            available as int == phase_count(pods@.subrange(0, i as int), WorkspacePhase::Ready),
            unavailable as int == phase_count(
                pods@.subrange(0, i as int),
                WorkspacePhase::Starting,
            ),
            available + unavailable <= i,
        decreases pods.len() - i,
    {
        assert(pods@.subrange(0, i + 1).drop_last() =~= pods@.subrange(0, i as int));
        match WorkspacePhase::from_pod(&pods[i]) {
            WorkspacePhase::Ready => {
                available = available + 1;
            },
            WorkspacePhase::Starting => {
                unavailable = unavailable + 1;
            },
            _ => {},
        }
        i = i + 1;
    }
    assert(pods@.subrange(0, i as int) =~= pods@);
    (available, unavailable)
}

/// Whether two optional names are equal (absent equals absent).
fn same_name(a: &Option<String>, b: &Option<String>) -> (r: bool)
    ensures
        r == match (a, b) {
            (None, None) => true,
            (Some(x), Some(y)) => x@ == y@,
            _ => false,
        },
{
    match (a, b) {
        (None, None) => true,
        (Some(x), Some(y)) => str_eq(x.as_str(), y.as_str()),
        _ => false,
    }
}

/// The names of a metrics entry and a pod agree.
pub open spec fn names_agree(m: PodMetrics, p: PodSnapshot) -> bool {
    match (m.name, p.name) {
        (None, None) => true,
        (Some(x), Some(y)) => x@ == y@,
        _ => false,
    }
}

/// The first metrics entry whose name is the pod's.
pub fn metrics_for_pod<'a>(all: &'a Vec<PodMetrics>, pod: &PodSnapshot) -> (r: Option<
    &'a PodMetrics,
>)
    ensures
        match r {
            None => forall|i: int| 0 <= i < all@.len() ==> !names_agree(#[trigger] all@[i], *pod),
            Some(m) => exists|i: int|
                0 <= i < all@.len() && all@[i] == *m && names_agree(*m, *pod) && forall|j: int|
                    0 <= j < i ==> !names_agree(#[trigger] all@[j], *pod),
        },
{
    let mut i: usize = 0;
    while i < all.len()
        invariant
            i <= all@.len(),
            forall|j: int| 0 <= j < i ==> !names_agree(#[trigger] all@[j], *pod),
        decreases all.len() - i,
    {
        if same_name(&all[i].name, &pod.name) {
            return Some(&all[i]);
        }
        i = i + 1;
    }
    None
}

} // verus!
