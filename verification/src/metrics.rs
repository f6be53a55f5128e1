//! In-process Prometheus counters and gauges, rendered on demand in
//! the text exposition format. Every family is kept in label order,
//! which is the order its samples are rendered in.

use vstd::prelude::*;

use crate::labels::{in_label_order, key_view, lemma_empty_listing, lists_in_label_order, LabelMap};
use crate::text::{dec_int, dec_nat, push_decimal_i64, push_decimal_u64, push_str};

verus! {

/// Outcome label for the tunnel-session and api-call counters.
#[derive(Debug, Clone, Copy)]
pub enum Outcome {
    Success,
    Error,
}

impl Outcome {
    /// The label value: `ok` or `error`.
    pub open spec fn label(self) -> Seq<char> {
        match self {
            Outcome::Success => "ok"@,
            Outcome::Error => "error"@,
        }
    }

    /// The label value of the outcome.
    pub fn as_str(&self) -> (r: &'static str)
        ensures
            r@ == self.label(),
    {
        match self {
            Outcome::Success => "ok",
            Outcome::Error => "error",
        }
    }
}

/// A counter after adding `n`; counters wrap at 2^64.
pub open spec fn bumped(m: Map<Seq<Seq<char>>, u64>, k: Seq<Seq<char>>, n: u64) -> Map<Seq<Seq<char>>, u64> {
    let cur: int = if m.contains_key(k) { m[k] as int } else { 0 };
    m.insert(k, ((cur + n) % 0x1_0000_0000_0000_0000) as u64)
}

/// The value of a gauge, 0 when it has never been set.
pub open spec fn gauge(m: Map<Seq<Seq<char>>, i64>, k: Seq<Seq<char>>) -> i64 {
    if m.contains_key(k) { m[k] } else { 0 }
}

/// `x + 1`, wrapping from `i64::MAX` to `i64::MIN`.
pub open spec fn wrapping_inc(x: i64) -> i64 {
    if x == i64::MAX { i64::MIN } else { (x + 1) as i64 }
}

/// The active-session gauges after one more session of kind `k`.
pub open spec fn active_after_inc(m: Map<Seq<Seq<char>>, i64>, k: Seq<Seq<char>>) -> Map<Seq<Seq<char>>, i64> {
    m.insert(k, wrapping_inc(gauge(m, k)))
}

/// The active-session gauges after one fewer session of kind `k`;
/// a gauge at zero (or below) is left where it is.
pub open spec fn active_after_dec(m: Map<Seq<Seq<char>>, i64>, k: Seq<Seq<char>>) -> Map<Seq<Seq<char>>, i64> {
    m.insert(k, if gauge(m, k) > 0 { (gauge(m, k) - 1) as i64 } else { gauge(m, k) })
}

/// Bucket an event topic is counted under: the topic itself, unless
/// an allowlist is set and does not hold it, in which case `_other`.
pub open spec fn event_bucket(allow: Option<Seq<Seq<char>>>, topic: Seq<char>) -> Seq<char> {
    match allow {
        Some(a) => if a.contains(topic) { topic } else { "_other"@ },
        None => topic,
    }
}

/// In-process metrics registry.
pub struct Metrics {
    tunnel_sessions_total: LabelMap<u64>,
    tunnel_active: LabelMap<i64>,
    tunnel_bytes_total: LabelMap<u64>,
    cmd_total: LabelMap<u64>,
    events_received_total: LabelMap<u64>,
    logs_received_total: LabelMap<u64>,
    api_calls_total: LabelMap<u64>,
    event_topic_allow: Option<Vec<String>>,
    devices_online: i64,
    audit_rows: i64,
}

impl Metrics {
    /// Every family keeps its keys sorted and of its arity.
    pub closed spec fn wf(&self) -> bool {
        &&& self.tunnel_sessions_total.wf(2)
        &&& self.tunnel_active.wf(1)
        &&& self.tunnel_bytes_total.wf(1)
        &&& self.cmd_total.wf(1)
        &&& self.events_received_total.wf(1)
        &&& self.logs_received_total.wf(1)
        &&& self.api_calls_total.wf(2)
    }

    /// `(kind, outcome) -> sessions` completed.
    pub closed spec fn tunnel_sessions(&self) -> Map<Seq<Seq<char>>, u64> {
        self.tunnel_sessions_total.view()
    }

    /// `kind -> sessions` currently active.
    pub closed spec fn tunnel_active(&self) -> Map<Seq<Seq<char>>, i64> {
        self.tunnel_active.view()
    }

    /// `direction -> bytes` pumped (`up` / `down`).
    pub closed spec fn tunnel_bytes(&self) -> Map<Seq<Seq<char>>, u64> {
        self.tunnel_bytes_total.view()
    }

    /// `outcome -> count` of command lifecycle transitions.
    pub closed spec fn cmds(&self) -> Map<Seq<Seq<char>>, u64> {
        self.cmd_total.view()
    }

    /// `topic bucket -> count` of events received.
    pub closed spec fn events(&self) -> Map<Seq<Seq<char>>, u64> {
        self.events_received_total.view()
    }

    /// `level -> count` of log records received.
    pub closed spec fn logs(&self) -> Map<Seq<Seq<char>>, u64> {
        self.logs_received_total.view()
    }

    /// `(topic, outcome) -> count` of synchronous api calls.
    pub closed spec fn api_calls(&self) -> Map<Seq<Seq<char>>, u64> {
        self.api_calls_total.view()
    }

    /// The event-topic allowlist, if one is set.
    pub closed spec fn allowlist(&self) -> Option<Seq<Seq<char>>> {
        match self.event_topic_allow {
            Some(v) => Some(key_view(v@)),
            None => None,
        }
    }

    /// Devices currently observed online.
    pub closed spec fn online(&self) -> i64 {
        self.devices_online
    }

    /// Rows in the audit table, as last reported.
    pub closed spec fn audit(&self) -> i64 {
        self.audit_rows
    }

    /// Everything but the families named in a method's contract is
    /// left as it was.
    pub open spec fn same_except(&self, other: &Self, changed: Seq<char>) -> bool {
        &&& changed != "sessions"@ ==> self.tunnel_sessions() == other.tunnel_sessions()
        &&& changed != "active"@ ==> self.tunnel_active() == other.tunnel_active()
        &&& changed != "bytes"@ ==> self.tunnel_bytes() == other.tunnel_bytes()
        &&& changed != "cmds"@ ==> self.cmds() == other.cmds()
        &&& changed != "events"@ ==> self.events() == other.events()
        &&& changed != "logs"@ ==> self.logs() == other.logs()
        &&& changed != "api"@ ==> self.api_calls() == other.api_calls()
        &&& changed != "allow"@ ==> self.allowlist() == other.allowlist()
        &&& changed != "online"@ ==> self.online() == other.online()
        &&& changed != "audit"@ ==> self.audit() == other.audit()
    }

    /// An empty registry: no series, no allowlist, both gauges at 0.
    pub fn new() -> (r: Self)
        ensures
            r.wf(),
            r.tunnel_sessions() == Map::<Seq<Seq<char>>, u64>::empty(),
            r.tunnel_active() == Map::<Seq<Seq<char>>, i64>::empty(),
            r.tunnel_bytes() == Map::<Seq<Seq<char>>, u64>::empty(),
            r.cmds() == Map::<Seq<Seq<char>>, u64>::empty(),
            r.events() == Map::<Seq<Seq<char>>, u64>::empty(),
            r.logs() == Map::<Seq<Seq<char>>, u64>::empty(),
            r.api_calls() == Map::<Seq<Seq<char>>, u64>::empty(),
            r.allowlist() is None,
            r.online() == 0,
            r.audit() == 0,
            in_label_order(r.tunnel_sessions()).len() == 0,
            in_label_order(r.tunnel_active()).len() == 0,
            in_label_order(r.tunnel_bytes()).len() == 0,
            in_label_order(r.cmds()).len() == 0,
            in_label_order(r.events()).len() == 0,
            in_label_order(r.logs()).len() == 0,
            in_label_order(r.api_calls()).len() == 0,
    {
        proof {
            lemma_empty_listing::<u64>();
            lemma_empty_listing::<i64>();
        }
        Metrics {
            tunnel_sessions_total: LabelMap::new(),
            tunnel_active: LabelMap::new(),
            tunnel_bytes_total: LabelMap::new(),
            cmd_total: LabelMap::new(),
            events_received_total: LabelMap::new(),
            logs_received_total: LabelMap::new(),
            api_calls_total: LabelMap::new(),
            event_topic_allow: None,
            devices_online: 0,
            audit_rows: 0,
        }
    }

    /// Records the number of devices observed online.
    pub fn set_devices_online(&mut self, n: i64)
        requires
            old(self).wf(),
        ensures
            final(self).wf(),
            final(self).online() == n,
            final(self).same_except(old(self), "online"@),
    {
        self.devices_online = n;
    }

    /// Records the number of rows in the audit table.
    pub fn set_audit_rows(&mut self, n: i64)
        requires
            old(self).wf(),
        ensures
            final(self).wf(),
            final(self).audit() == n,
            final(self).same_except(old(self), "audit"@),
    {
        self.audit_rows = n;
    }

    /// Sets the event-topic allowlist; `None` gives every topic its
    /// own bucket.
    pub fn set_event_topic_allowlist(&mut self, topics: Option<Vec<String>>)
        requires
            old(self).wf(),
        ensures
            final(self).wf(),
            final(self).allowlist() == match topics {
                Some(v) => Some(key_view(v@)),
                None => None::<Seq<Seq<char>>>,
            },
            final(self).same_except(old(self), "allow"@),
    {
        self.event_topic_allow = topics;
    }

    /// Counts one completed tunnel session of `kind`.
    pub fn inc_tunnel_session(&mut self, kind: &str, outcome: Outcome)
        requires
            old(self).wf(),
        ensures
            final(self).wf(),
            final(self).tunnel_sessions() == bumped(old(self).tunnel_sessions(), seq![kind@, outcome.label()], 1),
            final(self).same_except(old(self), "sessions"@),
    {
        let key = pair_key(kind, outcome.as_str());
        bump(&mut self.tunnel_sessions_total, key, 1, Ghost(2));
    }

    /// One more active session of `kind`.
    pub fn inc_tunnel_active(&mut self, kind: &str)
        requires
            old(self).wf(),
        ensures
            final(self).wf(),
            final(self).tunnel_active() == active_after_inc(old(self).tunnel_active(), seq![kind@]),
            final(self).same_except(old(self), "active"@),
    {
        let key = single_key(kind);
        let cur = match self.tunnel_active.get(&key, Ghost(1)) {
            Some(v) => v,
            None => 0,
        };
        let next = cur.wrapping_add(1);
        self.tunnel_active.set(key, next, Ghost(1));
    }

    /// One fewer active session of `kind`; the gauge never goes
    /// below zero.
    pub fn dec_tunnel_active(&mut self, kind: &str)
        requires
            old(self).wf(),
        ensures
            final(self).wf(),
            final(self).tunnel_active() == active_after_dec(old(self).tunnel_active(), seq![kind@]),
            final(self).same_except(old(self), "active"@),
    {
        let key = single_key(kind);
        let cur = match self.tunnel_active.get(&key, Ghost(1)) {
            Some(v) => v,
            None => 0,
        };
        let next = if cur > 0 {
            cur - 1
        } else {
            cur
        };
        self.tunnel_active.set(key, next, Ghost(1));
    }

    /// Adds the bytes pumped up and down.
    pub fn add_tunnel_bytes(&mut self, up: u64, down: u64)
        requires
            old(self).wf(),
        ensures
            final(self).wf(),
            final(self).tunnel_bytes() == bumped(bumped(old(self).tunnel_bytes(), seq!["up"@], up), seq!["down"@], down),
            final(self).same_except(old(self), "bytes"@),
    {
        bump(&mut self.tunnel_bytes_total, single_key("up"), up, Ghost(1));
        bump(&mut self.tunnel_bytes_total, single_key("down"), down, Ghost(1));
    }

    /// Counts one command lifecycle transition with `outcome`.
    pub fn inc_cmd(&mut self, outcome: &str)
        requires
            old(self).wf(),
        ensures
            final(self).wf(),
            final(self).cmds() == bumped(old(self).cmds(), seq![outcome@], 1),
            final(self).same_except(old(self), "cmds"@),
    {
        bump(&mut self.cmd_total, single_key(outcome), 1, Ghost(1));
    }

    /// Counts one event on `topic`, folded into `_other` when an
    /// allowlist is set and does not hold the topic.
    pub fn inc_event(&mut self, topic: &str)
        requires
            old(self).wf(),
        ensures
            final(self).wf(),
            final(self).events() == bumped(old(self).events(), seq![event_bucket(old(self).allowlist(), topic@)], 1),
            final(self).same_except(old(self), "events"@),
    {
        let in_list = match &self.event_topic_allow {
            Some(allow) => contains_str(allow, topic),
            None => true,
        };
        let key = if in_list {
            single_key(topic)
        } else {
            single_key("_other")
        };
        bump(&mut self.events_received_total, key, 1, Ghost(1));
    }

    /// Counts one log record at `level`.
    pub fn inc_log(&mut self, level: &str)
        requires
            old(self).wf(),
        ensures
            final(self).wf(),
            final(self).logs() == bumped(old(self).logs(), seq![level@], 1),
            final(self).same_except(old(self), "logs"@),
    {
        bump(&mut self.logs_received_total, single_key(level), 1, Ghost(1));
    }

    /// Counts one synchronous api call on `topic` with `outcome`.
    pub fn inc_api_call(&mut self, topic: &str, outcome: Outcome)
        requires
            old(self).wf(),
        ensures
            final(self).wf(),
            final(self).api_calls() == bumped(old(self).api_calls(), seq![topic@, outcome.label()], 1),
            final(self).same_except(old(self), "api"@),
    {
        let key = pair_key(topic, outcome.as_str());
        bump(&mut self.api_calls_total, key, 1, Ghost(2));
    }
}

fn single_key(a: &str) -> (r: Vec<String>)
    ensures
        key_view(r@) == seq![a@],
        r@.len() == 1,
{
    let mut v = Vec::new();
    v.push(a.to_owned());
    assert(key_view(v@) =~= seq![a@]);
    v
}

fn pair_key(a: &str, b: &str) -> (r: Vec<String>)
    ensures
        key_view(r@) == seq![a@, b@],
        r@.len() == 2,
{
    let mut v = Vec::new();
    v.push(a.to_owned());
    v.push(b.to_owned());
    assert(key_view(v@) =~= seq![a@, b@]);
    v
}

fn contains_str(list: &Vec<String>, s: &str) -> (r: bool)
    ensures
        r == key_view(list@).contains(s@),
{
    let mut i: usize = 0;
    while i < list.len()
        invariant
            i <= list@.len(),
            forall|j: int| 0 <= j < i ==> key_view(list@)[j] != s@,
        decreases list@.len() - i,
    {
        if crate::text::str_eq(list[i].as_str(), s) {
            assert(key_view(list@)[i as int] == s@);
            return true;
        }
        i = i + 1;
    }
    false
}

fn bump(fam: &mut LabelMap<u64>, key: Vec<String>, n: u64, Ghost(arity): Ghost<nat>)
    requires
        old(fam).wf(arity),
        key@.len() == arity,
    ensures
        final(fam).wf(arity),
        final(fam).view() == bumped(old(fam).view(), key_view(key@), n),
{
    let cur = match fam.get(&key, Ghost(arity)) {
        Some(v) => v,
        None => 0,
    };
    let next = cur.wrapping_add(n);
    fam.set(key, next, Ghost(arity));
}

} // verus!

verus! {

/// `name="value"`.
pub open spec fn label_text(name: Seq<char>, value: Seq<char>) -> Seq<char> {
    name + "=\""@ + value + "\""@
}

/// One sample line: `metric{labels} value` and a newline.
pub open spec fn sample_line(metric: Seq<char>, labels: Seq<char>, value: Seq<char>) -> Seq<char> {
    metric + "{"@ + labels + "} "@ + value + "\n"@
}

/// Sample lines of a one-label counter family, in series order.
pub open spec fn lines1_u64(metric: Seq<char>, n1: Seq<char>, s: Seq<(Seq<Seq<char>>, u64)>) -> Seq<char>
    decreases s.len(),
{
    if s.len() == 0 {
        Seq::empty()
    } else {
        lines1_u64(metric, n1, s.drop_last()) + sample_line(
            metric,
            label_text(n1, s.last().0[0]),
            dec_nat(s.last().1 as nat),
        )
    }
}

/// Sample lines of a two-label counter family, in series order.
pub open spec fn lines2_u64(
    metric: Seq<char>,
    n1: Seq<char>,
    n2: Seq<char>,
    s: Seq<(Seq<Seq<char>>, u64)>,
) -> Seq<char>
    decreases s.len(),
{
    if s.len() == 0 {
        Seq::empty()
    } else {
        lines2_u64(metric, n1, n2, s.drop_last()) + sample_line(
            metric,
            label_text(n1, s.last().0[0]) + ","@ + label_text(n2, s.last().0[1]),
            dec_nat(s.last().1 as nat),
        )
    }
}

/// Sample lines of a one-label gauge family, in series order.
pub open spec fn lines1_i64(metric: Seq<char>, n1: Seq<char>, s: Seq<(Seq<Seq<char>>, i64)>) -> Seq<char>
    decreases s.len(),
{
    if s.len() == 0 {
        Seq::empty()
    } else {
        lines1_i64(metric, n1, s.drop_last()) + sample_line(
            metric,
            label_text(n1, s.last().0[0]),
            dec_int(s.last().1 as int),
        )
    }
}

/// The views of `(device, depth)` pairs.
pub open spec fn depth_view(v: Seq<(String, i64)>) -> Seq<(Seq<char>, i64)> {
    v.map_values(|e: (String, i64)| (e.0@, e.1))
}

/// The outbox depths as a family keyed by device; a device listed
/// twice keeps its later depth.
pub open spec fn depth_map(d: Seq<(Seq<char>, i64)>) -> Map<Seq<Seq<char>>, i64>
    decreases d.len(),
{
    if d.len() == 0 {
        Map::empty()
    } else {
        depth_map(d.drop_last()).insert(seq![d.last().0], d.last().1)
    }
}

fn push_sample_line(out: &mut String, metric: &str, labels: &String, value: &String)
    ensures
        final(out)@ == old(out)@ + sample_line(metric@, labels@, value@),
{
    push_str(out, metric);
    push_str(out, "{");
    push_str(out, labels.as_str());
    push_str(out, "} ");
    push_str(out, value.as_str());
    push_str(out, "\n");
    proof {
        assert(final(out)@ =~= old(out)@ + sample_line(metric@, labels@, value@));
    }
}

fn label_string(name: &str, value: &str) -> (r: String)
    ensures
        r@ == label_text(name@, value@),
{
    let mut s = name.to_owned();
    push_str(&mut s, "=\"");
    push_str(&mut s, value);
    push_str(&mut s, "\"");
    assert(s@ =~= label_text(name@, value@));
    s
}

fn push_family1_u64(out: &mut String, metric: &str, n1: &str, fam: &LabelMap<u64>)
    requires
        fam.wf(1),
    ensures
        final(out)@ == old(out)@ + lines1_u64(metric@, n1@, fam.series()),
{
    let ghost start = out@;
    let mut i: usize = 0;
    assert(fam.series().take(0) =~= Seq::<(Seq<Seq<char>>, u64)>::empty());
    while i < fam.entries.len()
        invariant
            fam.wf(1),
            i <= fam.entries@.len(),
            out@ == start + lines1_u64(metric@, n1@, fam.series().take(i as int)),
        decreases fam.entries@.len() - i,
    {
        let entry = &fam.entries[i];
        assert(fam.keys()[i as int].len() == 1);
        assert(entry.0@.len() == 1);
        let labels = label_string(n1, entry.0[0].as_str());
        let mut value = String::new();
        push_decimal_u64(&mut value, entry.1);
        push_sample_line(out, metric, &labels, &value);
        proof {
            let t = fam.series().take(i + 1);
            assert(t.drop_last() =~= fam.series().take(i as int));
            assert(t.last().0 == key_view(entry.0@));
            assert(out@ =~= start + lines1_u64(metric@, n1@, t));
        }
        i = i + 1;
    }
    assert(fam.series().take(i as int) =~= fam.series());
}

fn push_family2_u64(out: &mut String, metric: &str, n1: &str, n2: &str, fam: &LabelMap<u64>)
    requires
        fam.wf(2),
    ensures
        final(out)@ == old(out)@ + lines2_u64(metric@, n1@, n2@, fam.series()),
{
    let ghost start = out@;
    let mut i: usize = 0;
    assert(fam.series().take(0) =~= Seq::<(Seq<Seq<char>>, u64)>::empty());
    while i < fam.entries.len()
        invariant
            fam.wf(2),
            i <= fam.entries@.len(),
            out@ == start + lines2_u64(metric@, n1@, n2@, fam.series().take(i as int)),
        decreases fam.entries@.len() - i,
    {
        let entry = &fam.entries[i];
        assert(fam.keys()[i as int].len() == 2);
        assert(entry.0@.len() == 2);
        let mut labels = label_string(n1, entry.0[0].as_str());
        push_str(&mut labels, ",");
        let second = label_string(n2, entry.0[1].as_str());
        push_str(&mut labels, second.as_str());
        let mut value = String::new();
        push_decimal_u64(&mut value, entry.1);
        push_sample_line(out, metric, &labels, &value);
        proof {
            let t = fam.series().take(i + 1);
            assert(t.drop_last() =~= fam.series().take(i as int));
            assert(t.last().0 == key_view(entry.0@));
            assert(out@ =~= start + lines2_u64(metric@, n1@, n2@, t));
        }
        i = i + 1;
    }
    assert(fam.series().take(i as int) =~= fam.series());
}

fn push_family1_i64(out: &mut String, metric: &str, n1: &str, fam: &LabelMap<i64>)
    requires
        fam.wf(1),
    ensures
        final(out)@ == old(out)@ + lines1_i64(metric@, n1@, fam.series()),
{
    let ghost start = out@;
    let mut i: usize = 0;
    assert(fam.series().take(0) =~= Seq::<(Seq<Seq<char>>, i64)>::empty());
    while i < fam.entries.len()
        invariant
            fam.wf(1),
            i <= fam.entries@.len(),
            out@ == start + lines1_i64(metric@, n1@, fam.series().take(i as int)),
        decreases fam.entries@.len() - i,
    {
        let entry = &fam.entries[i];
        assert(fam.keys()[i as int].len() == 1);
        assert(entry.0@.len() == 1);
        let labels = label_string(n1, entry.0[0].as_str());
        let mut value = String::new();
        push_decimal_i64(&mut value, entry.1);
        push_sample_line(out, metric, &labels, &value);
        proof {
            let t = fam.series().take(i + 1);
            assert(t.drop_last() =~= fam.series().take(i as int));
            assert(t.last().0 == key_view(entry.0@));
            assert(out@ =~= start + lines1_i64(metric@, n1@, t));
        }
        i = i + 1;
    }
    assert(fam.series().take(i as int) =~= fam.series());
}

fn depth_family(depths: &Vec<(String, i64)>) -> (r: LabelMap<i64>)
    ensures
        r.wf(1),
        r.view() == depth_map(depth_view(depths@)),
{
    let mut fam: LabelMap<i64> = LabelMap::new();
    let mut i: usize = 0;
    assert(depth_view(depths@).take(0) =~= Seq::<(Seq<char>, i64)>::empty());
    while i < depths.len()
        invariant
            i <= depths@.len(),
            fam.wf(1),
            fam.view() == depth_map(depth_view(depths@).take(i as int)),
        decreases depths@.len() - i,
    {
        let key = single_key(depths[i].0.as_str());
        fam.set(key, depths[i].1, Ghost(1));
        proof {
            let t = depth_view(depths@).take(i + 1);
            assert(t.drop_last() =~= depth_view(depths@).take(i as int));
        }
        i = i + 1;
    }
    assert(depth_view(depths@).take(i as int) =~= depth_view(depths@));
    fam
}

impl Metrics {
    /// The exposition text: each family's HELP and TYPE lines followed
    /// by one sample line per series, the series of a family in label
    /// order; the outbox depths are listed by device in the same way.
    pub open spec fn render_text(&self, depths: Seq<(Seq<char>, i64)>) -> Seq<char> {
        "# HELP hackline_devices_online Devices currently observed via Zenoh liveliness.\n"@
            + "# TYPE hackline_devices_online gauge\n"@
            + "hackline_devices_online "@ + dec_int(self.online() as int) + "\n"@
            + "# HELP hackline_tunnel_sessions_total Bridged TCP sessions completed, by kind and outcome.\n"@
            + "# TYPE hackline_tunnel_sessions_total counter\n"@
            + lines2_u64("hackline_tunnel_sessions_total"@, "kind"@, "outcome"@, in_label_order(self.tunnel_sessions()))
            + "# HELP hackline_tunnel_active Currently active bridged sessions, by kind.\n"@
            + "# TYPE hackline_tunnel_active gauge\n"@
            + lines1_i64("hackline_tunnel_active"@, "kind"@, in_label_order(self.tunnel_active()))
            + "# HELP hackline_tunnel_bytes_total Bytes pumped through the tunnel plane, by direction.\n"@
            + "# TYPE hackline_tunnel_bytes_total counter\n"@
            + lines1_u64("hackline_tunnel_bytes_total"@, "direction"@, in_label_order(self.tunnel_bytes()))
            + "# HELP hackline_cmd_outbox_depth Pending (un-acked) cmd_outbox rows per device.\n"@
            + "# TYPE hackline_cmd_outbox_depth gauge\n"@
            + lines1_i64("hackline_cmd_outbox_depth"@, "device"@, in_label_order(depth_map(depths)))
            + "# HELP hackline_cmd_total Cmd lifecycle transitions, by outcome.\n"@
            + "# TYPE hackline_cmd_total counter\n"@
            + lines1_u64("hackline_cmd_total"@, "outcome"@, in_label_order(self.cmds()))
            + "# HELP hackline_events_received_total Message-plane events received via fan-in.\n"@
            + "# TYPE hackline_events_received_total counter\n"@
            + lines1_u64("hackline_events_received_total"@, "topic"@, in_label_order(self.events()))
            + "# HELP hackline_logs_received_total Message-plane logs received via fan-in.\n"@
            + "# TYPE hackline_logs_received_total counter\n"@
            + lines1_u64("hackline_logs_received_total"@, "level"@, in_label_order(self.logs()))
            + "# HELP hackline_api_calls_total Synchronous api/* RPC calls, by topic and outcome.\n"@
            + "# TYPE hackline_api_calls_total counter\n"@
            + lines2_u64("hackline_api_calls_total"@, "topic"@, "outcome"@, in_label_order(self.api_calls()))
            + "# HELP hackline_audit_rows Total rows in the audit table.\n"@
            + "# TYPE hackline_audit_rows gauge\n"@
            + "hackline_audit_rows "@ + dec_int(self.audit() as int) + "\n"@
    }

    /// Renders the Prometheus text format. `cmd_outbox_depth` holds
    /// `(device, depth)` pairs, rendered in device order, one line per
    /// device (a device given twice shows its later depth). Every
    /// family shows exactly its recorded series, each once, in label
    /// order.
    pub fn render(&self, cmd_outbox_depth: &Vec<(String, i64)>) -> (r: String)
        requires
            self.wf(),
        ensures
            r@ == self.render_text(depth_view(cmd_outbox_depth@)),
            lists_in_label_order(
                in_label_order(depth_map(depth_view(cmd_outbox_depth@))),
                depth_map(depth_view(cmd_outbox_depth@)),
            ),
            lists_in_label_order(in_label_order(self.tunnel_sessions()), self.tunnel_sessions()),
            lists_in_label_order(in_label_order(self.tunnel_active()), self.tunnel_active()),
            lists_in_label_order(in_label_order(self.tunnel_bytes()), self.tunnel_bytes()),
            lists_in_label_order(in_label_order(self.cmds()), self.cmds()),
            lists_in_label_order(in_label_order(self.events()), self.events()),
            lists_in_label_order(in_label_order(self.logs()), self.logs()),
            lists_in_label_order(in_label_order(self.api_calls()), self.api_calls()),
    {
        proof {
            self.tunnel_sessions_total.lemma_series_lists_view(2);
            self.tunnel_active.lemma_series_lists_view(1);
            self.tunnel_bytes_total.lemma_series_lists_view(1);
            self.cmd_total.lemma_series_lists_view(1);
            self.events_received_total.lemma_series_lists_view(1);
            self.logs_received_total.lemma_series_lists_view(1);
            self.api_calls_total.lemma_series_lists_view(2);
        }
        let depths = depth_family(cmd_outbox_depth);
        proof {
            depths.lemma_series_lists_view(1);
        }
        let mut out = String::new();
        push_str(&mut out, "# HELP hackline_devices_online Devices currently observed via Zenoh liveliness.\n");
        push_str(&mut out, "# TYPE hackline_devices_online gauge\n");
        push_str(&mut out, "hackline_devices_online ");
        push_decimal_i64(&mut out, self.devices_online);
        push_str(&mut out, "\n");
        push_str(&mut out, "# HELP hackline_tunnel_sessions_total Bridged TCP sessions completed, by kind and outcome.\n");
        push_str(&mut out, "# TYPE hackline_tunnel_sessions_total counter\n");
        push_family2_u64(&mut out, "hackline_tunnel_sessions_total", "kind", "outcome", &self.tunnel_sessions_total);
        push_str(&mut out, "# HELP hackline_tunnel_active Currently active bridged sessions, by kind.\n");
        push_str(&mut out, "# TYPE hackline_tunnel_active gauge\n");
        push_family1_i64(&mut out, "hackline_tunnel_active", "kind", &self.tunnel_active);
        push_str(&mut out, "# HELP hackline_tunnel_bytes_total Bytes pumped through the tunnel plane, by direction.\n");
        push_str(&mut out, "# TYPE hackline_tunnel_bytes_total counter\n");
        push_family1_u64(&mut out, "hackline_tunnel_bytes_total", "direction", &self.tunnel_bytes_total);
        push_str(&mut out, "# HELP hackline_cmd_outbox_depth Pending (un-acked) cmd_outbox rows per device.\n");
        push_str(&mut out, "# TYPE hackline_cmd_outbox_depth gauge\n");
        push_family1_i64(&mut out, "hackline_cmd_outbox_depth", "device", &depths);
        push_str(&mut out, "# HELP hackline_cmd_total Cmd lifecycle transitions, by outcome.\n");
        push_str(&mut out, "# TYPE hackline_cmd_total counter\n");
        push_family1_u64(&mut out, "hackline_cmd_total", "outcome", &self.cmd_total);
        push_str(&mut out, "# HELP hackline_events_received_total Message-plane events received via fan-in.\n");
        push_str(&mut out, "# TYPE hackline_events_received_total counter\n");
        push_family1_u64(&mut out, "hackline_events_received_total", "topic", &self.events_received_total);
        push_str(&mut out, "# HELP hackline_logs_received_total Message-plane logs received via fan-in.\n");
        push_str(&mut out, "# TYPE hackline_logs_received_total counter\n");
        push_family1_u64(&mut out, "hackline_logs_received_total", "level", &self.logs_received_total);
        push_str(&mut out, "# HELP hackline_api_calls_total Synchronous api/* RPC calls, by topic and outcome.\n");
        push_str(&mut out, "# TYPE hackline_api_calls_total counter\n");
        push_family2_u64(&mut out, "hackline_api_calls_total", "topic", "outcome", &self.api_calls_total);
        push_str(&mut out, "# HELP hackline_audit_rows Total rows in the audit table.\n");
        push_str(&mut out, "# TYPE hackline_audit_rows gauge\n");
        push_str(&mut out, "hackline_audit_rows ");
        push_decimal_i64(&mut out, self.audit_rows);
        push_str(&mut out, "\n");
        proof {
            assert(out@ =~= self.render_text(depth_view(cmd_outbox_depth@)));
        }
        out
    }
}

/// Opening and then closing a session of one kind returns its gauge
/// to where it was, for any gauge from zero up to `i64::MAX - 1`.
pub proof fn law_active_inc_then_dec_restores(m: Map<Seq<Seq<char>>, i64>, k: Seq<Seq<char>>)
    requires
        0 <= gauge(m, k) < i64::MAX,
    ensures
        active_after_dec(active_after_inc(m, k), k) == m.insert(k, gauge(m, k)),
        m.contains_key(k) ==> active_after_dec(active_after_inc(m, k), k) == m,
{
    if m.contains_key(k) {
        assert(active_after_dec(active_after_inc(m, k), k) =~= m);
    }
}

/// The active-session gauge never drops below zero by closing
/// sessions.
pub proof fn law_active_dec_never_negative(m: Map<Seq<Seq<char>>, i64>, k: Seq<Seq<char>>)
    requires
        gauge(m, k) >= 0,
    ensures
        gauge(active_after_dec(m, k), k) >= 0,
{
}

/// Each counting call adds exactly its amount (modulo 2^64) to its
/// own series and touches no other series.
pub proof fn law_bump_touches_one_series(
    m: Map<Seq<Seq<char>>, u64>,
    k: Seq<Seq<char>>,
    n: u64,
    other: Seq<Seq<char>>,
)
    ensures
        bumped(m, k, n).contains_key(k),
        bumped(m, k, n)[k] as int == ((if m.contains_key(k) { m[k] as int } else { 0 }) + n) % 0x1_0000_0000_0000_0000,
        other != k ==> bumped(m, k, n).contains_key(other) == m.contains_key(other),
        other != k && m.contains_key(other) ==> bumped(m, k, n)[other] == m[other],
{
}

/// With an allowlist set, a topic outside it is counted under
/// `_other`; without one, every topic is counted under itself.
pub proof fn law_event_folding(allow: Option<Seq<Seq<char>>>, topic: Seq<char>)
    ensures
        allow is None ==> event_bucket(allow, topic) == topic,
        allow matches Some(a) && !a.contains(topic) ==> event_bucket(allow, topic) == "_other"@,
        allow matches Some(a) && a.contains(topic) ==> event_bucket(allow, topic) == topic,
{
}

impl Metrics {
    /// Every family has its listing in label order: each recorded
    /// series once, with its value, and nothing else. This is what the
    /// exposition shows of the family.
    pub proof fn law_render_lists_each_series_once_in_order(&self)
        requires
            self.wf(),
        ensures
            lists_in_label_order(in_label_order(self.tunnel_sessions()), self.tunnel_sessions()),
            lists_in_label_order(in_label_order(self.tunnel_active()), self.tunnel_active()),
            lists_in_label_order(in_label_order(self.tunnel_bytes()), self.tunnel_bytes()),
            lists_in_label_order(in_label_order(self.cmds()), self.cmds()),
            lists_in_label_order(in_label_order(self.events()), self.events()),
            lists_in_label_order(in_label_order(self.logs()), self.logs()),
            lists_in_label_order(in_label_order(self.api_calls()), self.api_calls()),
    {
        self.tunnel_sessions_total.lemma_series_lists_view(2);
        self.tunnel_active.lemma_series_lists_view(1);
        self.tunnel_bytes_total.lemma_series_lists_view(1);
        self.cmd_total.lemma_series_lists_view(1);
        self.events_received_total.lemma_series_lists_view(1);
        self.logs_received_total.lemma_series_lists_view(1);
        self.api_calls_total.lemma_series_lists_view(2);
    }

    /// Opening and closing a session of a kind already shown leaves
    /// the exposition as it was, whatever else the registry holds.
    pub proof fn law_active_inc_then_dec_renders_the_same(
        &self,
        after: &Self,
        k: Seq<Seq<char>>,
        depths: Seq<(Seq<char>, i64)>,
    )
        requires
            self.tunnel_active().contains_key(k),
            0 <= gauge(self.tunnel_active(), k) < i64::MAX,
            after.tunnel_active() == active_after_dec(active_after_inc(self.tunnel_active(), k), k),
            after.same_except(self, "active"@),
        ensures
            after.render_text(depths) == self.render_text(depths),
    {
        law_active_inc_then_dec_restores(self.tunnel_active(), k);
        reveal_strlit("active");
        reveal_strlit("sessions");
        reveal_strlit("bytes");
        reveal_strlit("cmds");
        reveal_strlit("events");
        reveal_strlit("logs");
        reveal_strlit("api");
        reveal_strlit("online");
        reveal_strlit("audit");
        assert("active"@.len() == 6 && "active"@[0] == 'a');
        assert("events"@[0] == 'e' && "online"@[0] == 'o');
        assert("sessions"@.len() == 8 && "bytes"@.len() == 5 && "cmds"@.len() == 4 && "logs"@.len() == 4);
        assert("api"@.len() == 3 && "audit"@.len() == 5);
    }
}

} // verus!
