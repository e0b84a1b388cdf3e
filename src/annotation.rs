//! Idle bookkeeping that the sweeper stores on each workspace pod, and the
//! rule that decides when a pod has been idle long enough.

use vstd::prelude::*;

use crate::config::AutoShutdown;
use crate::text::matches_at;
use crate::workspace::PodSnapshot;
use crate::time::{
    elapsed_exceeds, elapsed_nanos, format_rfc3339, parse_rfc3339, rfc3339_of, rfc3339_parsed,
    Timestamp,
};

verus! {

/// Pod annotation key under which the record is stored.
pub const ANNOTATION_KEY: &'static str = "kube-workspaces.foundational.cc/pod-data";

/// Field manager name of the annotation patch.
pub const FIELD_MANAGER: &'static str = "kube-workspaces.foundational.cc";

/// A gap longer than this (five minutes) between two sweeps makes the
/// recorded idle times untrustworthy.
pub const STALE_AFTER_NANOS: u128 = 300000000000;

/// Per-pod idle record.
#[derive(Clone, Copy, Debug, PartialEq, Eq, Structural)]
pub struct IdleAnnotation {
    pub last_idle_check: Option<Timestamp>,
    pub cpu_idle_since: Option<Timestamp>,
    pub network_idle_since: Option<Timestamp>,
}

pub open spec fn opt_valid(t: Option<Timestamp>) -> bool {
    match t {
        None => true,
        Some(t) => t.valid(),
    }
}

/// The timestamp's text holds no quote, so it can stand inside a JSON string.
pub open spec fn opt_encodable(t: Option<Timestamp>) -> bool {
    match t {
        None => true,
        Some(t) => t.valid() && forall|i: int|
            0 <= i < rfc3339_of(t.secs as int, t.nanos as int).len() ==> #[trigger] rfc3339_of(
                t.secs as int,
                t.nanos as int,
            )[i] != '"',
    }
}

/// `x` is the JSON of an optional timestamp as read: `null`, or a quoted
/// text without inner quotes that chrono reads as `t`.
pub open spec fn field_text_reads(x: Seq<char>, t: Option<Timestamp>) -> bool {
    match t {
        None => x == "null"@,
        Some(t) => {
            &&& x.len() >= 2
            &&& x[0] == '"'
            &&& x.last() == '"'
            &&& forall|i: int| 1 <= i < x.len() - 1 ==> x[i] != '"'
            &&& rfc3339_parsed(x.subrange(1, x.len() - 1)) == Some((t.secs as int, t.nanos as int))
        },
    }
}

/// `s` is a record's layout with field texts that read as `a`'s timestamps.
pub open spec fn record_text_reads(s: Seq<char>, a: IdleAnnotation) -> bool {
    exists|f0: Seq<char>, f1: Seq<char>, f2: Seq<char>|
        s == lit_open() + f0 + lit_cpu() + f1 + lit_net() + f2 + lit_close() && field_text_reads(
            f0,
            a.last_idle_check,
        ) && field_text_reads(f1, a.cpu_idle_since) && field_text_reads(f2, a.network_idle_since)
}

/// JSON of one optional timestamp.
pub open spec fn field_json(t: Option<Timestamp>) -> Seq<char> {
    match t {
        None => "null"@,
        Some(t) => seq!['"'] + rfc3339_of(t.secs as int, t.nanos as int) + seq!['"'],
    }
}

pub open spec fn lit_open() -> Seq<char> {
    "{\"last_idle_check\":"@
}

pub open spec fn lit_cpu() -> Seq<char> {
    ",\"cpu_idle_since\":"@
}

pub open spec fn lit_net() -> Seq<char> {
    ",\"network_idle_since\":"@
}

pub open spec fn lit_close() -> Seq<char> {
    "}"@
}

/// The stored JSON text of a record.
pub open spec fn annotation_json(a: IdleAnnotation) -> Seq<char> {
    lit_open() + field_json(a.last_idle_check) + lit_cpu() + field_json(a.cpu_idle_since)
        + lit_net() + field_json(a.network_idle_since) + lit_close()
}

/// Whether one dimension has been idle for longer than `limit`.
pub open spec fn idle_exceeds(since: Option<Timestamp>, limit: u128, now: Timestamp) -> bool {
    match since {
        None => false,
        Some(s) => elapsed_nanos(now, s) > limit as int,
    }
}

/// The shutdown rule: every configured dimension has been idle longer than
/// its minimum, and at least one dimension is configured.
pub open spec fn shutdown_due(a: IdleAnnotation, cfg: AutoShutdown, now: Timestamp) -> bool {
    let net_ok = match cfg.tcp_idle {
        None => true,
        Some(t) => idle_exceeds(a.network_idle_since, t.minimum_idle_time_nanos, now),
    };
    let cpu_ok = match cfg.cpu_usage {
        None => true,
        Some(c) => idle_exceeds(a.cpu_idle_since, c.minimum_idle_time_nanos, now),
    };
    (cfg.tcp_idle is Some || cfg.cpu_usage is Some) && net_ok && cpu_ok
}

/// The record written after a sweep at `now`.
pub open spec fn next_record(
    old: IdleAnnotation,
    now: Timestamp,
    cpu_is_idle: bool,
    network_is_idle: bool,
) -> IdleAnnotation {
    let stale = match old.last_idle_check {
        None => false,
        Some(last) => elapsed_nanos(now, last) > STALE_AFTER_NANOS as int,
    };
    let cpu_prev = if stale { None } else { old.cpu_idle_since };
    let net_prev = if stale { None } else { old.network_idle_since };
    IdleAnnotation {
        last_idle_check: Some(now),
        cpu_idle_since: if cpu_is_idle {
            if cpu_prev is Some { cpu_prev } else { Some(now) }
        } else {
            None
        },
        network_idle_since: if network_is_idle {
            if net_prev is Some { net_prev } else { Some(now) }
        } else {
            None
        },
    }
}

/// `b` is `a` with each idle-since time moved no later.
pub open spec fn idle_no_later(a: IdleAnnotation, b: IdleAnnotation) -> bool {
    &&& (a.network_idle_since is Some ==> b.network_idle_since is Some
        && b.network_idle_since->Some_0.total_nanos() <= a.network_idle_since->Some_0.total_nanos())
    &&& (a.cpu_idle_since is Some ==> b.cpu_idle_since is Some
        && b.cpu_idle_since->Some_0.total_nanos() <= a.cpu_idle_since->Some_0.total_nanos())
}

/// Moving idle-since times further into the past never turns a due shutdown
/// into one that is not due.
pub proof fn lemma_shutdown_monotone(
    a: IdleAnnotation,
    b: IdleAnnotation,
    cfg: AutoShutdown,
    now: Timestamp,
)
    requires
        idle_no_later(a, b),
    ensures
        shutdown_due(a, cfg, now) ==> shutdown_due(b, cfg, now),
{
}

fn idle_exceeds_exec(since: Option<Timestamp>, limit: u128, now: Timestamp) -> (r: bool)
    ensures
        r == idle_exceeds(since, limit, now),
{
    match since {
        None => false,
        Some(s) => elapsed_exceeds(now, s, limit),
    }
}

/// The text at `pos` is the JSON of the encodable timestamp `t`.
pub open spec fn field_at(s: Seq<char>, pos: int, t: Option<Timestamp>) -> bool {
    opt_encodable(t) && 0 <= pos && pos + field_json(t).len() <= s.len() && s.subrange(
        pos,
        pos + field_json(t).len(),
    ) == field_json(t)
}

/// What a field's JSON at `pos` says about the characters there.
proof fn lemma_field_at(s: Seq<char>, pos: int, t: Option<Timestamp>)
    requires
        field_at(s, pos, t),
    ensures
        t is None ==> s[pos] == 'n' && s.subrange(pos, pos + 4) == "null"@,
        t matches Some(x) ==> {
            let txt = rfc3339_of(x.secs as int, x.nanos as int);
            &&& s[pos] == '"'
            &&& s[pos + 1 + txt.len()] == '"'
            &&& forall|k: int| pos < k < pos + 1 + txt.len() ==> s[k] != '"'
            &&& s.subrange(pos + 1, pos + 1 + txt.len()) == txt
        },
{
    reveal_strlit("null");
    let sub = s.subrange(pos, pos + field_json(t).len());
    assert(sub[0] == s[pos]);
    if let Some(x) = t {
        let txt = rfc3339_of(x.secs as int, x.nanos as int);
        assert(sub[txt.len() as int + 1] == s[pos + 1 + txt.len()]);
        assert forall|k: int| pos < k < pos + 1 + txt.len() implies s[k] != '"' by {
            assert(sub[k - pos] == s[k]);
            assert(sub[k - pos] == txt[k - pos - 1]);
        }
        assert(s.subrange(pos + 1, pos + 1 + txt.len()) =~= txt) by {
            assert forall|k: int| 0 <= k < txt.len() implies s[pos + 1 + k] == txt[k] by {
                assert(sub[k + 1] == s[pos + 1 + k]);
            }
        }
    } else {
        assert(s.subrange(pos, pos + 4) =~= "null"@);
    }
}

/// Read an optional timestamp (`null` or a quoted RFC 3339 text) at `pos`;
/// on success also the position just past it.
fn parse_field(s: &str, pos: usize) -> (r: Option<(Option<Timestamp>, usize)>)
    requires
        pos <= s@.len(),
    ensures
        forall|t: Option<Timestamp>|
            #[trigger] field_at(s@, pos as int, t) ==> r == Some(
                (t, (pos + field_json(t).len()) as usize),
            ),
        r matches Some(p) ==> opt_valid(p.0) && pos <= p.1 <= s@.len() && field_text_reads(
            s@.subrange(pos as int, p.1 as int),
            p.0,
        ),
{
    let n = s.unicode_len();
    proof {
        reveal_strlit("null");
    }
    if matches_at(s, pos, "null") {
        assert forall|t: Option<Timestamp>| #[trigger] field_at(s@, pos as int, t) implies t is None by {
            lemma_field_at(s@, pos as int, t);
            assert(s@.subrange(pos as int, pos + 4)[0] == s@[pos as int]);
        }
        return Some((None, pos + 4));
    }
    if !(pos < n && s.get_char(pos) == '"') {
        assert forall|t: Option<Timestamp>| #[trigger] field_at(s@, pos as int, t) implies false by {
            lemma_field_at(s@, pos as int, t);
        }
        return None;
    }
    let mut j: usize = pos + 1;
    while j < n && s.get_char(j) != '"'
        invariant
            pos < j <= n,
            n == s@.len(),
            forall|k: int| pos < k < j ==> s@[k] != '"',
        decreases n - j,
    {
        j = j + 1;
    }
    let raw = s.substring_char(pos + 1, if j < n { j } else { pos + 1 });
    let result = if j == n {
        None
    } else {
        match parse_rfc3339(raw) {
            Some(t) => if t.is_valid() {
                Some((Some(t), j + 1))
            } else {
                None
            },
            None => None,
        }
    };
    proof {
        if j < n {
            let x = s@.subrange(pos as int, j + 1);
            assert(x.subrange(1, x.len() - 1) =~= raw@);
            assert(x[0] == s@[pos as int]);
            assert(x.last() == s@[j as int]);
            assert forall|i: int| 1 <= i < x.len() - 1 implies x[i] != '"' by {
                assert(x[i] == s@[pos + i]);
            }
        }
    }
    assert forall|t: Option<Timestamp>| #[trigger] field_at(s@, pos as int, t) implies result == Some(
        (t, (pos + field_json(t).len()) as usize),
    ) by {
        lemma_field_at(s@, pos as int, t);
        if let Some(x) = t {
            let close = pos + 1 + rfc3339_of(x.secs as int, x.nanos as int).len();
            assert(j == close) by {
                if j < close {
                    assert(s@[j as int] != '"');
                }
            }
        }
    }
    result
}

fn append_field(out: &mut String, t: Option<Timestamp>)
    requires
        opt_valid(t),
    ensures
        final(out)@ == old(out)@ + field_json(t),
        opt_encodable(t),
{
    match t {
        None => out.append("null"),
        Some(t) => {
            let text = format_rfc3339(t);
            out.append("\"");
            out.append(text.as_str());
            out.append("\"");
            proof {
                reveal_strlit("\"");
            }
            assert(final(out)@ =~= old(out)@ + field_json(Some(t)));
            assert(opt_encodable(Some(t)));
        },
    }
}

/// Where part `k` of a record's JSON text starts.
pub open spec fn part_start(a: IdleAnnotation, k: int) -> int {
    let l0 = lit_open().len() as int;
    let l1 = l0 + field_json(a.last_idle_check).len();
    let l2 = l1 + lit_cpu().len();
    let l3 = l2 + field_json(a.cpu_idle_since).len();
    let l4 = l3 + lit_net().len();
    let l5 = l4 + field_json(a.network_idle_since).len();
    if k <= 0 {
        0
    } else if k == 1 {
        l0
    } else if k == 2 {
        l1
    } else if k == 3 {
        l2
    } else if k == 4 {
        l3
    } else if k == 5 {
        l4
    } else {
        l5
    }
}

/// The parts of a record's JSON text, in order.
pub open spec fn part_text(a: IdleAnnotation, k: int) -> Seq<char> {
    if k == 0 {
        lit_open()
    } else if k == 1 {
        field_json(a.last_idle_check)
    } else if k == 2 {
        lit_cpu()
    } else if k == 3 {
        field_json(a.cpu_idle_since)
    } else if k == 4 {
        lit_net()
    } else if k == 5 {
        field_json(a.network_idle_since)
    } else {
        lit_close()
    }
}

/// Part `k` of the text starts at `part_start(a, k)`.
pub open spec fn part_at(s: Seq<char>, a: IdleAnnotation, k: int) -> bool {
    part_start(a, k) + part_text(a, k).len() <= s.len() && s.subrange(
        part_start(a, k),
        part_start(a, k) + part_text(a, k).len(),
    ) == part_text(a, k)
}

proof fn lemma_layout(a: IdleAnnotation)
    ensures
        part_at(annotation_json(a), a, 0),
        part_at(annotation_json(a), a, 1),
        part_at(annotation_json(a), a, 2),
        part_at(annotation_json(a), a, 3),
        part_at(annotation_json(a), a, 4),
        part_at(annotation_json(a), a, 5),
        part_at(annotation_json(a), a, 6),
        annotation_json(a).len() == part_start(a, 6) + lit_close().len(),
{
    let s = annotation_json(a);
    assert(s.subrange(part_start(a, 0), part_start(a, 0) + part_text(a, 0).len()) =~= part_text(a, 0));
    assert(s.subrange(part_start(a, 1), part_start(a, 1) + part_text(a, 1).len()) =~= part_text(a, 1));
    assert(s.subrange(part_start(a, 2), part_start(a, 2) + part_text(a, 2).len()) =~= part_text(a, 2));
    assert(s.subrange(part_start(a, 3), part_start(a, 3) + part_text(a, 3).len()) =~= part_text(a, 3));
    assert(s.subrange(part_start(a, 4), part_start(a, 4) + part_text(a, 4).len()) =~= part_text(a, 4));
    assert(s.subrange(part_start(a, 5), part_start(a, 5) + part_text(a, 5).len()) =~= part_text(a, 5));
    assert(s.subrange(part_start(a, 6), part_start(a, 6) + part_text(a, 6).len()) =~= part_text(a, 6));
}

/// A text whose literal parts sit at these positions is the concatenation of
/// those parts and the fields between them.
proof fn lemma_read_layout(s: Seq<char>, at0: int, at1: int, at2: int, at3: int, at4: int, at5: int)
    requires
        at0 == lit_open().len(),
        at0 <= at1 && at1 + lit_cpu().len() == at2 && at2 <= at3 && at3 + lit_net().len() == at4 && at4
            <= at5 && at5 + lit_close().len() == s.len(),
        s.subrange(0, at0) == lit_open(),
        s.subrange(at1, at2) == lit_cpu(),
        s.subrange(at3, at4) == lit_net(),
        s.subrange(at5, s.len() as int) == lit_close(),
    ensures
        s == lit_open() + s.subrange(at0, at1) + lit_cpu() + s.subrange(at2, at3) + lit_net()
            + s.subrange(at4, at5) + lit_close(),
{
    assert(s =~= lit_open() + s.subrange(at0, at1) + lit_cpu() + s.subrange(at2, at3) + lit_net()
        + s.subrange(at4, at5) + lit_close());
}

impl IdleAnnotation {
    /// All timestamps are representable.
    pub open spec fn valid(self) -> bool {
        opt_valid(self.last_idle_check) && opt_valid(self.cpu_idle_since) && opt_valid(
            self.network_idle_since,
        )
    }

    /// Every timestamp can be written and read back.
    pub open spec fn encodable(self) -> bool {
        opt_encodable(self.last_idle_check) && opt_encodable(self.cpu_idle_since)
            && opt_encodable(self.network_idle_since)
    }

    /// The record with no timestamp.
    pub open spec fn empty_record() -> IdleAnnotation {
        IdleAnnotation { last_idle_check: None, cpu_idle_since: None, network_idle_since: None }
    }

    /// The empty record.
    pub fn empty() -> (r: IdleAnnotation)
        ensures
            r == IdleAnnotation::empty_record(),
    {
        IdleAnnotation { last_idle_check: None, cpu_idle_since: None, network_idle_since: None }
    }

    /// The JSON text stored under the annotation key.
    pub fn to_json(&self) -> (r: String)
        requires
            self.valid(),
        ensures
            r@ == annotation_json(*self),
            self.encodable(),
    {
        let mut out = String::from_str("{\"last_idle_check\":");
        append_field(&mut out, self.last_idle_check);
        out.append(",\"cpu_idle_since\":");
        append_field(&mut out, self.cpu_idle_since);
        out.append(",\"network_idle_since\":");
        append_field(&mut out, self.network_idle_since);
        out.append("}");
        assert(out@ =~= annotation_json(*self));
        out
    }

    /// Read a record back from its JSON text; `None` when the text is not one.
    /// What `to_json` writes reads back as the same record; any record read
    /// comes from a text in that layout whose timestamps chrono accepts.
    #[verifier::rlimit(80)]
    pub fn from_json(s: &str) -> (r: Option<IdleAnnotation>)
        ensures
            forall|a: IdleAnnotation|
                a.encodable() && s@ == #[trigger] annotation_json(a) ==> r == Some(a),
            r matches Some(a) ==> a.valid() && record_text_reads(s@, a),
    {
        let n = s.unicode_len();
        let open = "{\"last_idle_check\":";
        let cpu = ",\"cpu_idle_since\":";
        let net = ",\"network_idle_since\":";
        let close = "}";
        let mut r: Option<IdleAnnotation> = None;
        if matches_at(s, 0, open) {
            let at0: usize = open.unicode_len();
            if let Some((t0, at1)) = parse_field(s, at0) {
                if matches_at(s, at1, cpu) {
                    let at2: usize = at1 + cpu.unicode_len();
                    if let Some((t1, at3)) = parse_field(s, at2) {
                        if matches_at(s, at3, net) {
                            let at4: usize = at3 + net.unicode_len();
                            if let Some((t2, at5)) = parse_field(s, at4) {
                                if matches_at(s, at5, close) && at5 + close.unicode_len() == n {
                                    let a = IdleAnnotation {
                                        last_idle_check: t0,
                                        cpu_idle_since: t1,
                                        network_idle_since: t2,
                                    };
                                    proof {
                                        lemma_read_layout(
                                            s@,
                                            at0 as int,
                                            at1 as int,
                                            at2 as int,
                                            at3 as int,
                                            at4 as int,
                                            at5 as int,
                                        );
                                        assert(field_text_reads(s@.subrange(at0 as int, at1 as int), t0));
                                    }
                                    r = Some(a);
                                }
                            }
                        }
                    }
                }
            }
        }
        assert forall|a: IdleAnnotation|
            a.encodable() && s@ == #[trigger] annotation_json(a) implies r == Some(a) by {
            lemma_layout(a);
            assert(field_at(s@, part_start(a, 1), a.last_idle_check));
            assert(field_at(s@, part_start(a, 3), a.cpu_idle_since));
            assert(field_at(s@, part_start(a, 5), a.network_idle_since));
        }
        r
    }

    /// The record stored on a pod; `None` when the pod carries none or it
    /// cannot be read.
    pub fn from_pod(pod: &PodSnapshot) -> (r: Option<IdleAnnotation>)
        ensures
            pod.idle_annotation is None ==> r is None,
            forall|a: IdleAnnotation|
                pod.idle_annotation matches Some(s) && a.encodable() && s@
                    == #[trigger] annotation_json(a) ==> r == Some(a),
            r matches Some(a) ==> a.valid() && (pod.idle_annotation matches Some(s)
                && record_text_reads(s@, a)),
    {
        match &pod.idle_annotation {
            None => None,
            Some(s) => IdleAnnotation::from_json(s.as_str()),
        }
    }

    /// The annotation that stores this record: its key and its JSON text.
    pub fn to_patch(&self) -> (r: (String, String))
        requires
            self.valid(),
        ensures
            r.0@ == ANNOTATION_KEY@,
            r.1@ == annotation_json(*self),
            self.encodable(),
    {
        (String::from_str(ANNOTATION_KEY), self.to_json())
    }

    /// The record that a sweep at `now` writes, from the previous record and
    /// what the sweep observed. A gap of more than five minutes since the last
    /// check forgets both idle-since times.
    pub fn next(&self, now: Timestamp, cpu_is_idle: bool, network_is_idle: bool) -> (r:
        IdleAnnotation)
        ensures
            r == next_record(*self, now, cpu_is_idle, network_is_idle),
    {
        let stale = match self.last_idle_check {
            None => false,
            Some(last) => elapsed_exceeds(now, last, STALE_AFTER_NANOS),
        };
        let cpu_prev = if stale {
            None
        } else {
            self.cpu_idle_since
        };
        let net_prev = if stale {
            None
        } else {
            self.network_idle_since
        };
        IdleAnnotation {
            last_idle_check: Some(now),
            cpu_idle_since: if cpu_is_idle {
                if cpu_prev.is_some() {
                    cpu_prev
                } else {
                    Some(now)
                }
            } else {
                None
            },
            network_idle_since: if network_is_idle {
                if net_prev.is_some() {
                    net_prev
                } else {
                    Some(now)
                }
            } else {
                None
            },
        }
    }

    /// Whether the pod has been idle long enough in every configured
    /// dimension, at `now`.
    pub fn should_shutdown(&self, config: &AutoShutdown, now: Timestamp) -> (r: bool)
        ensures
            r == shutdown_due(*self, *config, now),
    {
        let mut mark = false;
        match &config.tcp_idle {
            None => {},
            Some(t) => {
                if !idle_exceeds_exec(self.network_idle_since, t.minimum_idle_time_nanos, now) {
                    return false;
                }
                mark = true;
            },
        }
        match &config.cpu_usage {
            None => {},
            Some(c) => {
                if !idle_exceeds_exec(self.cpu_idle_since, c.minimum_idle_time_nanos, now) {
                    return false;
                }
                mark = true;
            },
        }
        mark
    }
}

} // verus!
