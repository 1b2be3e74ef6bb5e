use crate::configuration::GlobalConfiguration;
use crate::error::Error;
use crate::monitors::{FetchRequest, Monitor};
use crate::release::{MessageView, NotificationMessage, ReleaseData};
use crate::text::copy_optional;
use crate::tracker::{ReleaseTracker, TrackerView};
use vstd::prelude::*;

verus! {

/// The result of checking one tracker in a pass.
#[derive(Debug, Clone)]
pub enum CheckOutcome {
    /// No check was made.
    Skipped,
    /// The source answered with this release.
    Fetched(ReleaseData),
    /// The check failed; the version is unknown this pass.
    Failed(Error),
}

/// One row of the version store: a monitor key and the last version seen of it.
#[derive(Debug, Clone, PartialEq, Eq)]
pub struct VersionRecord {
    pub key: String,
    pub version: String,
}

impl View for VersionRecord {
    type V = (Seq<char>, Seq<char>);

    open spec fn view(&self) -> (Seq<char>, Seq<char>) {
        (self.key@, self.version@)
    }
}

/// What a pass asks of its caller: messages to enqueue, and the rows to
/// upsert into the version store where a flush is due.
#[derive(Debug)]
pub struct PassReport {
    pub notifications: Vec<NotificationMessage>,
    pub flush: Option<Vec<VersionRecord>>,
}

/// The scheduler as a mathematical value.
pub struct SchedulerView {
    /// The monitor of each tracker, in the order of the trackers.
    pub monitors: Seq<Monitor>,
    pub trackers: Seq<TrackerView>,
    /// A version changed since the last successful flush.
    pub dirty: bool,
    /// No pass has completed yet.
    pub startup: bool,
}

pub open spec fn record_views(records: Seq<VersionRecord>) -> Seq<(Seq<char>, Seq<char>)> {
    records.map_values(|r: VersionRecord| r@)
}

pub open spec fn message_views(messages: Seq<NotificationMessage>) -> Seq<MessageView> {
    messages.map_values(|m: NotificationMessage| m@)
}

/// Monitor `m` with state `t` is checked in a pass at `now`.
pub open spec fn is_due(m: Monitor, t: TrackerView, now: int, startup: bool) -> bool {
    startup || t.needs_check(now, m.frequency_spec())
}

/// The state of a tracker after a pass in which its check had outcome `o`.
pub open spec fn after_check(
    m: Monitor,
    t: TrackerView,
    o: CheckOutcome,
    now: int,
    startup: bool,
) -> TrackerView {
    if is_due(m, t, now, startup) {
        match o {
            CheckOutcome::Fetched(d) => t.observe(d.version@, now),
            CheckOutcome::Failed(_) => t.miss(now),
            CheckOutcome::Skipped => t,
        }
    } else {
        t
    }
}

/// The check of a tracker found a version other than the one it held.
pub open spec fn announces(
    m: Monitor,
    t: TrackerView,
    o: CheckOutcome,
    now: int,
    startup: bool,
) -> bool {
    &&& is_due(m, t, now, startup)
    &&& o matches CheckOutcome::Fetched(d)
    &&& d.version@ != t.version
}

/// The optional text as an optional sequence of characters.
pub open spec fn opt_text(o: Option<String>) -> Option<Seq<char>> {
    match o {
        Some(t) => Some(t@),
        None => None,
    }
}

/// The version that the first row for `key` holds, if any row does.
pub open spec fn stored_version(rows: Seq<(Seq<char>, Seq<char>)>, key: Seq<char>) -> Option<
    Seq<char>,
>
    decreases rows.len(),
{
    if rows.len() == 0 {
        None
    } else if rows[0].0 == key {
        Some(rows[0].1)
    } else {
        stored_version(rows.drop_first(), key)
    }
}

/// Some entry already holds a monitor with `key`.
pub open spec fn holds_key(entries: Seq<(Monitor, Seq<char>)>, key: Seq<char>) -> bool {
    exists|j: int| 0 <= j < entries.len() && (#[trigger] entries[j]).0.key() == key
}

/// The monitors that initialization keeps, each with its seed version: those
/// with a seed, the first of each key.
pub open spec fn admitted(monitors: Seq<Monitor>, seeds: Seq<Option<String>>) -> Seq<
    (Monitor, Seq<char>),
>
    decreases monitors.len(),
{
    if monitors.len() == 0 || seeds.len() != monitors.len() {
        Seq::empty()
    } else {
        let earlier = admitted(monitors.drop_last(), seeds.drop_last());
        match seeds.last() {
            Some(v) => if holds_key(earlier, monitors.last().key()) {
                earlier
            } else {
                earlier.push((monitors.last(), v@))
            },
            None => earlier,
        }
    }
}

/// The scheduler at startup with the trackers of `entries`.
pub open spec fn seeded(entries: Seq<(Monitor, Seq<char>)>) -> SchedulerView {
    SchedulerView {
        monitors: entries.map_values(|e: (Monitor, Seq<char>)| e.0),
        trackers: entries.map_values(
            |e: (Monitor, Seq<char>)| TrackerView { version: e.1, last_check: 0, checked: false },
        ),
        dirty: false,
        startup: true,
    }
}

impl SchedulerView {
    /// Every tracker has a monitor, and no two monitors share a key.
    pub open spec fn wf(self) -> bool {
        &&& self.monitors.len() == self.trackers.len()
        &&& forall|i: int, j: int|
            0 <= i < j < self.monitors.len() ==> #[trigger] self.monitors[i].key()
                != #[trigger] self.monitors[j].key()
    }

    pub open spec fn announces_at(self, now: int, outcomes: Seq<CheckOutcome>, i: int) -> bool {
        announces(self.monitors[i], self.trackers[i], outcomes[i], now, self.startup)
    }

    /// The messages of the first `n` trackers in a pass, in tracker order.
    pub open spec fn announcements(self, now: int, outcomes: Seq<CheckOutcome>, n: int) -> Seq<
        MessageView,
    >
        decreases n,
    {
        if n <= 0 {
            Seq::empty()
        } else {
            let earlier = self.announcements(now, outcomes, n - 1);
            match outcomes[n - 1] {
                CheckOutcome::Fetched(d) => if self.announces_at(now, outcomes, n - 1) {
                    earlier.push(self.monitors[n - 1].message_spec(d))
                } else {
                    earlier
                },
                _ => earlier,
            }
        }
    }

    /// Some tracker's version changes in a pass.
    pub open spec fn changes(self, now: int, outcomes: Seq<CheckOutcome>) -> bool {
        exists|i: int| 0 <= i < self.trackers.len() && self.announces_at(now, outcomes, i)
    }

    /// The scheduler after a pass at `now` in which tracker `i` had outcome `outcomes[i]`.
    pub open spec fn after_pass(self, now: int, outcomes: Seq<CheckOutcome>) -> SchedulerView {
        SchedulerView {
            monitors: self.monitors,
            trackers: Seq::new(
                self.trackers.len(),
                |i: int|
                    after_check(self.monitors[i], self.trackers[i], outcomes[i], now, self.startup),
            ),
            dirty: self.dirty || self.changes(now, outcomes),
            startup: false,
        }
    }

    /// The (key, version) row of every tracker.
    pub open spec fn records(self) -> Seq<(Seq<char>, Seq<char>)> {
        Seq::new(self.trackers.len(), |i: int| (self.monitors[i].key(), self.trackers[i].version))
    }

    /// The rows to write after a pass: all of them where a version changed
    /// or the pass was the first; none where there is no tracker.
    pub open spec fn flush_after(self, now: int, outcomes: Seq<CheckOutcome>) -> Option<
        Seq<(Seq<char>, Seq<char>)>,
    > {
        let next = self.after_pass(now, outcomes);
        if (next.dirty || self.startup) && self.trackers.len() > 0 {
            Some(next.records())
        } else {
            None
        }
    }
}

/// The scheduling state: the trackers of all monitors, a dirty flag and a
/// startup flag.
#[derive(Debug)]
pub struct Scheduler {
    trackers: Vec<ReleaseTracker>,
    dirty: bool,
    startup: bool,
}

impl View for Scheduler {
    type V = SchedulerView;

    closed spec fn view(&self) -> SchedulerView {
        SchedulerView {
            monitors: self.trackers@.map_values(|t: ReleaseTracker| t.monitor),
            trackers: self.trackers@.map_values(|t: ReleaseTracker| t@),
            dirty: self.dirty,
            startup: self.startup,
        }
    }
}

impl Scheduler {
    /// The scheduler over the monitors that have a seed version, keeping the
    /// first monitor of each key; fails when none is left.
    pub fn new(monitors: Vec<Monitor>, seeds: Vec<Option<String>>) -> (r: Result<Scheduler, Error>)
        requires
            monitors@.len() == seeds@.len(),
        ensures
            r is Err <==> admitted(monitors@, seeds@).len() == 0,
            r matches Err(e) ==> e == Error::NoMonitors,
            r matches Ok(s) ==> s@ == seeded(admitted(monitors@, seeds@)) && s@.wf(),
    {
        let ghost all_monitors = monitors@;
        let ghost all_seeds = seeds@;
        let n = monitors.len();
        let mut pending = monitors;
        let mut pending_seeds = seeds;
        let mut trackers: Vec<ReleaseTracker> = Vec::new();
        let mut i: usize = 0;
        while i < n
            invariant
                n == all_monitors.len(),
                n == all_seeds.len(),
                i <= n,
                pending@ == all_monitors.subrange(i as int, n as int),
                pending_seeds@ == all_seeds.subrange(i as int, n as int),
                seeded(admitted(all_monitors.subrange(0, i as int), all_seeds.subrange(0, i as int))).monitors
                    == trackers@.map_values(|t: ReleaseTracker| t.monitor),
                seeded(admitted(all_monitors.subrange(0, i as int), all_seeds.subrange(0, i as int))).trackers
                    == trackers@.map_values(|t: ReleaseTracker| t@),
                forall|a: int, b: int|
                    0 <= a < b < trackers@.len() ==> #[trigger] trackers@[a].monitor.key()
                        != #[trigger] trackers@[b].monitor.key(),
            decreases n - i,
        {
            let monitor = pending.remove(0);
            let seed = pending_seeds.remove(0);
            let ghost prefix_m = all_monitors.subrange(0, i as int);
            let ghost prefix_s = all_seeds.subrange(0, i as int);
            let ghost next_m = all_monitors.subrange(0, i + 1);
            let ghost next_s = all_seeds.subrange(0, i + 1);
            proof {
                assert(next_m.drop_last() =~= prefix_m);
                assert(next_s.drop_last() =~= prefix_s);
                assert(next_m.last() == monitor);
                assert(next_s.last() == seed);
            }
            let ghost earlier = admitted(prefix_m, prefix_s);
            match seed {
                Some(version) => {
                    let key = monitor.name();
                    let taken = holds_monitor(&trackers, &key);
                    proof {
                        assert(seeded(earlier).monitors.len() == earlier.len());
                        assert(earlier.len() == trackers@.len());
                        assert forall|j: int| 0 <= j < earlier.len() implies (#[trigger] earlier[j]).0
                            == trackers@[j].monitor by {
                            assert(seeded(earlier).monitors[j] == earlier[j].0);
                            assert(trackers@.map_values(|t: ReleaseTracker| t.monitor)[j]
                                == trackers@[j].monitor);
                        }
                        if taken {
                            let j = choose|j: int| 0 <= j < trackers@.len() && trackers@[j].monitor.key() == key@;
                            assert(earlier[j].0 == trackers@[j].monitor);
                        } else {
                            assert forall|j: int| 0 <= j < earlier.len() implies (#[trigger] earlier[j]).0.key() != key@ by {
                                assert(earlier[j].0 == trackers@[j].monitor);
                            }
                        }
                    }
                    if !taken {
                        trackers.push(ReleaseTracker::new(monitor, version));
                    }
                },
                None => {},
            }
            proof {
                let next = admitted(next_m, next_s);
                assert(seeded(next).monitors =~= trackers@.map_values(|t: ReleaseTracker| t.monitor));
                assert(seeded(next).monitors.len() == next.len());
                assert forall|j: int| 0 <= j < next.len() implies seeded(next).trackers[j]
                    == trackers@.map_values(|t: ReleaseTracker| t@)[j] by {
                    if j < earlier.len() {
                        assert(next[j] == earlier[j]);
                        assert(seeded(earlier).trackers[j] == seeded(next).trackers[j]);
                    }
                }
                assert(seeded(next).trackers =~= trackers@.map_values(|t: ReleaseTracker| t@));
            }
            i = i + 1;
        }
        proof {
            assert(all_monitors.subrange(0, n as int) =~= all_monitors);
            assert(all_seeds.subrange(0, n as int) =~= all_seeds);
        }
        if trackers.len() == 0 {
            return Err(Error::NoMonitors);
        }
        let r = Scheduler { trackers, dirty: false, startup: true };
        proof {
            assert(r@.monitors =~= seeded(admitted(all_monitors, all_seeds)).monitors);
            assert(r@.trackers =~= seeded(admitted(all_monitors, all_seeds)).trackers);
        }
        Ok(r)
    }

    pub fn len(&self) -> (r: usize)
        ensures
            r == self@.trackers.len(),
    {
        self.trackers.len()
    }

    pub fn tracker(&self, i: usize) -> (r: &ReleaseTracker)
        requires
            i < self@.trackers.len(),
        ensures
            r.monitor == self@.monitors[i as int],
            r@ == self@.trackers[i as int],
    {
        &self.trackers[i]
    }

    /// The fetch for each tracker that is due at `now`, by tracker position.
    pub fn plan_pass(&self, now: i64, global_config: &GlobalConfiguration) -> (r: Vec<
        Option<FetchRequest>,
    >)
        ensures
            r@.len() == self@.trackers.len(),
            forall|i: int|
                0 <= i < r@.len() ==> #[trigger] r@[i] == if is_due(
                    self@.monitors[i],
                    self@.trackers[i],
                    now as int,
                    self@.startup,
                ) {
                    Some(self@.monitors[i].fetch_request_spec(*global_config))
                } else {
                    None
                },
    {
        let mut plan: Vec<Option<FetchRequest>> = Vec::new();
        let n = self.trackers.len();
        let mut i: usize = 0;
        while i < n
            invariant
                n == self.trackers@.len(),
                i <= n,
                plan@.len() == i,
                forall|j: int|
                    0 <= j < i ==> #[trigger] plan@[j] == if is_due(
                        self@.monitors[j],
                        self@.trackers[j],
                        now as int,
                        self@.startup,
                    ) {
                        Some(self@.monitors[j].fetch_request_spec(*global_config))
                    } else {
                        None
                    },
            decreases n - i,
        {
            let tracker = &self.trackers[i];
            if self.startup || tracker.needs_check(now) {
                plan.push(Some(tracker.monitor.fetch_request(global_config)));
            } else {
                plan.push(None);
            }
            i = i + 1;
        }
        plan
    }

    /// One pass at `now`: applies the outcome of each due tracker's check,
    /// collects a message for every changed version, and hands back every
    /// tracker's row when a version changed or the pass is the first. A
    /// tracker that is not due ignores its outcome.
    pub fn run_pass(&mut self, now: i64, outcomes: Vec<CheckOutcome>) -> (r: PassReport)
        requires
            outcomes@.len() == old(self)@.trackers.len(),
        ensures
            final(self)@ == old(self)@.after_pass(now as int, outcomes@),
            final(self)@.wf() == old(self)@.wf(),
            message_views(r.notifications@) == old(self)@.announcements(
                now as int,
                outcomes@,
                outcomes@.len() as int,
            ),
            match r.flush {
                Some(rows) => old(self)@.flush_after(now as int, outcomes@) == Some(
                    record_views(rows@),
                ),
                None => old(self)@.flush_after(now as int, outcomes@) is None,
            },
    {
        let ghost s0 = self@;
        let ghost all = outcomes@;
        let n = self.trackers.len();
        let mut notifications: Vec<NotificationMessage> = Vec::new();
        let mut changed_any = false;
        let mut rest = outcomes;
        let mut i: usize = 0;
        while i < n
            invariant
                n == s0.trackers.len(),
                n == all.len(),
                i <= n,
                rest@ == all.subrange(i as int, n as int),
                self.trackers@.len() == n,
                self.dirty == s0.dirty,
                self.startup == s0.startup,
                forall|j: int| 0 <= j < n ==> #[trigger] self.trackers@[j].monitor == s0.monitors[j],
                forall|j: int|
                    0 <= j < i ==> #[trigger] self.trackers@[j]@ == after_check(
                        s0.monitors[j],
                        s0.trackers[j],
                        all[j],
                        now as int,
                        s0.startup,
                    ),
                forall|j: int| i <= j < n ==> #[trigger] self.trackers@[j]@ == s0.trackers[j],
                message_views(notifications@) == s0.announcements(now as int, all, i as int),
                changed_any == exists|j: int| 0 <= j < i && s0.announces_at(now as int, all, j),
            decreases n - i,
        {
            let outcome = rest.remove(0);
            assert(outcome == all[i as int]);
            let due = self.startup || self.trackers[i].needs_check(now);
            let ghost before = self.trackers@;
            let mut announced = false;
            if due {
                match outcome {
                    CheckOutcome::Fetched(data) => {
                        let shown = ReleaseData {
                            version: data.version.clone(),
                            link: copy_optional(&data.link),
                        };
                        let changed = self.trackers[i].apply(data, now);
                        if changed {
                            notifications.push(self.trackers[i].monitor.message(shown));
                            announced = true;
                        }
                    },
                    CheckOutcome::Failed(_) => {
                        self.trackers[i].check_failed(now);
                    },
                    CheckOutcome::Skipped => {},
                }
            }
            proof {
                assert(announced == s0.announces_at(now as int, all, i as int));
                assert(message_views(notifications@) == s0.announcements(
                    now as int,
                    all,
                    i + 1,
                ));
            }
            changed_any = changed_any || announced;
            i = i + 1;
        }
        self.dirty = self.dirty || changed_any;
        let first_pass = self.startup;
        self.startup = false;
        proof {
            assert(self@.trackers =~= s0.after_pass(now as int, all).trackers);
            assert(self@.monitors =~= s0.monitors);
        }
        let flush = if (self.dirty || first_pass) && n > 0 {
            Some(self.records())
        } else {
            None
        };
        PassReport { notifications, flush }
    }

    /// The (key, version) row of every tracker.
    pub fn records(&self) -> (r: Vec<VersionRecord>)
        ensures
            record_views(r@) == self@.records(),
    {
        let mut rows: Vec<VersionRecord> = Vec::new();
        let n = self.trackers.len();
        let mut i: usize = 0;
        while i < n
            invariant
                n == self.trackers@.len(),
                i <= n,
                rows@.len() == i,
                forall|j: int|
                    0 <= j < i ==> (#[trigger] rows@[j])@ == (
                    self@.monitors[j].key(),
                    self@.trackers[j].version,
                ),
            decreases n - i,
        {
            let tracker = &self.trackers[i];
            rows.push(VersionRecord { key: tracker.key(), version: tracker.version.clone() });
            i = i + 1;
        }
        assert(record_views(rows@) =~= self@.records());
        rows
    }

    /// Records the outcome of writing a pass's rows to the version store: a
    /// failed write leaves the scheduler dirty, so the next pass writes again.
    pub fn record_flush(&mut self, succeeded: bool)
        ensures
            final(self)@ == (SchedulerView { dirty: !succeeded, ..old(self)@ }),
    {
        self.dirty = !succeeded;
    }
}

/// Whether some tracker's monitor has `key`.
fn holds_monitor(trackers: &Vec<ReleaseTracker>, key: &String) -> (r: bool)
    ensures
        r == exists|j: int| 0 <= j < trackers@.len() && (#[trigger] trackers@[j]).monitor.key() == key@,
{
    let mut i: usize = 0;
    while i < trackers.len()
        invariant
            i <= trackers@.len(),
            forall|j: int| 0 <= j < i ==> (#[trigger] trackers@[j]).monitor.key() != key@,
        decreases trackers@.len() - i,
    {
        if trackers[i].key() == *key {
            return true;
        }
        i = i + 1;
    }
    false
}

/// The version that the store rows hold for each monitor's key.
pub fn initial_versions(monitors: &Vec<Monitor>, stored: &Vec<VersionRecord>) -> (r: Vec<
    Option<String>,
>)
    ensures
        r@.len() == monitors@.len(),
        forall|i: int|
            0 <= i < r@.len() ==> opt_text(#[trigger] r@[i]) == stored_version(
                record_views(stored@),
                monitors@[i].key(),
            ),
{
    let mut seeds: Vec<Option<String>> = Vec::new();
    let n = monitors.len();
    let mut i: usize = 0;
    while i < n
        invariant
            n == monitors@.len(),
            i <= n,
            seeds@.len() == i,
            forall|j: int|
                0 <= j < i ==> opt_text(#[trigger] seeds@[j]) == stored_version(
                    record_views(stored@),
                    monitors@[j].key(),
                ),
        decreases n - i,
    {
        let key = monitors[i].name();
        seeds.push(stored_version_of(stored, &key));
        i = i + 1;
    }
    seeds
}

/// The version of the first store row for `key`.
pub fn stored_version_of(stored: &Vec<VersionRecord>, key: &String) -> (r: Option<String>)
    ensures
        opt_text(r) == stored_version(record_views(stored@), key@),
{
    let ghost rows = record_views(stored@);
    let n = stored.len();
    assert(rows.subrange(0, n as int) =~= rows);
    let mut i: usize = 0;
    while i < n
        invariant
            n == stored@.len(),
            rows == record_views(stored@),
            i <= n,
            stored_version(rows, key@) == stored_version(rows.subrange(i as int, n as int), key@),
        decreases n - i,
    {
        proof {
            assert(rows.subrange(i as int, n as int).drop_first() =~= rows.subrange(i + 1, n as int));
        }
        if stored[i].key == *key {
            return Some(stored[i].version.clone());
        }
        i = i + 1;
    }
    None
}

/// The store after upserting `rows` in order: each row sets its key's version.
pub open spec fn upserted(store: Map<Seq<char>, Seq<char>>, rows: Seq<(Seq<char>, Seq<char>)>) -> Map<
    Seq<char>,
    Seq<char>,
>
    decreases rows.len(),
{
    if rows.len() == 0 {
        store
    } else {
        upserted(store, rows.drop_last()).insert(rows.last().0, rows.last().1)
    }
}

/// A row whose key no later row repeats decides that key's version in the store.
pub proof fn lemma_upserted_row(
    store: Map<Seq<char>, Seq<char>>,
    rows: Seq<(Seq<char>, Seq<char>)>,
    i: int,
)
    requires
        0 <= i < rows.len(),
        forall|j: int| i < j < rows.len() ==> (#[trigger] rows[j]).0 != rows[i].0,
    ensures
        upserted(store, rows).contains_key(rows[i].0),
        upserted(store, rows)[rows[i].0] == rows[i].1,
    decreases rows.len(),
{
    if i < rows.len() - 1 {
        let shorter = rows.drop_last();
        assert forall|j: int| i < j < shorter.len() implies (#[trigger] shorter[j]).0 != shorter[i].0 by {
            assert(shorter[j] == rows[j]);
        }
        lemma_upserted_row(store, shorter, i);
        assert(rows[rows.len() - 1].0 != rows[i].0);
    }
}

/// The link of a release plays no part in a pass: two outcomes that found the
/// same version leave the tracker in the same state and announce alike.
pub proof fn lemma_link_ignored(
    m: Monitor,
    t: TrackerView,
    first: ReleaseData,
    second: ReleaseData,
    now: int,
    startup: bool,
)
    requires
        first.version@ == second.version@,
    ensures
        after_check(m, t, CheckOutcome::Fetched(first), now, startup) == after_check(
            m,
            t,
            CheckOutcome::Fetched(second),
            now,
            startup,
        ),
        announces(m, t, CheckOutcome::Fetched(first), now, startup) == announces(
            m,
            t,
            CheckOutcome::Fetched(second),
            now,
            startup,
        ),
{
}

/// Of two passes that both find version `version` for tracker `i`, at most one
/// announces it: the first application records it, and the second sees no change.
pub proof fn lemma_announce_once(
    s: SchedulerView,
    now: int,
    outcomes: Seq<CheckOutcome>,
    later: int,
    later_outcomes: Seq<CheckOutcome>,
    i: int,
    version: Seq<char>,
)
    requires
        s.wf(),
        outcomes.len() == s.trackers.len(),
        later_outcomes.len() == s.trackers.len(),
        0 <= i < s.trackers.len(),
        outcomes[i] matches CheckOutcome::Fetched(d) && d.version@ == version,
        later_outcomes[i] matches CheckOutcome::Fetched(d) && d.version@ == version,
    ensures
        !(s.announces_at(now, outcomes, i) && s.after_pass(now, outcomes).announces_at(
            later,
            later_outcomes,
            i,
        )),
{
}

/// Recovery after a crash that lost a pass's flush: a scheduler seeded again
/// from the store rows in `entries`, whose first pass finds `version` for
/// tracker `i`, announces it in that pass only if the stored version differs,
/// writes a flush in which the tracker's key holds `version`, so that the store
/// holds `version` once the flush is upserted, and no later pass that finds
/// `version` again announces it.
pub proof fn lemma_restart_recovers(
    entries: Seq<(Monitor, Seq<char>)>,
    store: Map<Seq<char>, Seq<char>>,
    now: int,
    outcomes: Seq<CheckOutcome>,
    later: int,
    later_outcomes: Seq<CheckOutcome>,
    i: int,
    version: Seq<char>,
)
    requires
        seeded(entries).wf(),
        outcomes.len() == entries.len(),
        later_outcomes.len() == entries.len(),
        0 <= i < entries.len(),
        outcomes[i] matches CheckOutcome::Fetched(d) && d.version@ == version,
        later_outcomes[i] matches CheckOutcome::Fetched(d) && d.version@ == version,
    ensures
        seeded(entries).announces_at(now, outcomes, i) <==> entries[i].1 != version,
        seeded(entries).flush_after(now, outcomes) matches Some(rows) && rows[i] == (
            entries[i].0.key(),
            version,
        ) && upserted(store, rows)[entries[i].0.key()] == version,
        !seeded(entries).after_pass(now, outcomes).announces_at(later, later_outcomes, i),
{
    let s = seeded(entries);
    let next = s.after_pass(now, outcomes);
    assert(s.monitors[i] == entries[i].0);
    assert(s.trackers[i].version == entries[i].1);
    let rows = next.records();
    assert(rows[i] == (entries[i].0.key(), version));
    assert forall|j: int| i < j < rows.len() implies (#[trigger] rows[j]).0 != rows[i].0 by {
        assert(rows[j].0 == s.monitors[j].key());
    }
    lemma_upserted_row(store, rows, i);
    lemma_announce_once(s, now, outcomes, later, later_outcomes, i, version);
}

} // verus!
