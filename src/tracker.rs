use crate::monitors::Monitor;
use crate::release::ReleaseData;
use vstd::prelude::*;

verus! {

/// The state of a tracker apart from its monitor.
pub struct TrackerView {
    /// The last version notified or seeded.
    pub version: Seq<char>,
    /// When the last check completed, in seconds.
    pub last_check: int,
    /// Whether a check has completed since startup.
    pub checked: bool,
}

impl TrackerView {
    /// Due for a check: never checked since startup, or `frequency` seconds
    /// have passed since the last check.
    pub open spec fn needs_check(self, now: int, frequency: int) -> bool {
        !self.checked || now - self.last_check >= frequency
    }

    /// The state after a check at `now` that found `version`.
    pub open spec fn observe(self, version: Seq<char>, now: int) -> TrackerView {
        TrackerView { version, last_check: now, checked: true }
    }

    /// The state after a check at `now` that failed: the version stays.
    pub open spec fn miss(self, now: int) -> TrackerView {
        TrackerView { version: self.version, last_check: now, checked: true }
    }
}

/// A monitor paired with the last version seen of it and the time of its last check.
#[derive(Debug)]
pub struct ReleaseTracker {
    pub monitor: Monitor,
    pub version: String,
    /// Seconds since the Unix epoch.
    pub last_check: i64,
    pub checked: bool,
}

impl View for ReleaseTracker {
    type V = TrackerView;

    open spec fn view(&self) -> TrackerView {
        TrackerView {
            version: self.version@,
            last_check: self.last_check as int,
            checked: self.checked,
        }
    }
}

impl ReleaseTracker {
    /// A tracker seeded with `version` that has not been checked yet.
    pub fn new(monitor: Monitor, version: String) -> (r: ReleaseTracker)
        ensures
            r.monitor == monitor,
            r@ == (TrackerView { version: version@, last_check: 0, checked: false }),
    {
        ReleaseTracker { monitor, version, last_check: 0, checked: false }
    }

    /// Whether the tracker is due for a check at `now`.
    pub fn needs_check(&self, now: i64) -> (r: bool)
        ensures
            r == self@.needs_check(now as int, self.monitor.frequency_spec()),
    {
        if !self.checked {
            return true;
        }
        let frequency = self.monitor.frequency();
        (now as i128) - (self.last_check as i128) >= frequency.seconds as i128
    }

    /// Records a check at `now` that found `latest`; tells whether its version
    /// differs, literally, from the one held. The link plays no part.
    pub fn apply(&mut self, latest: ReleaseData, now: i64) -> (changed: bool)
        ensures
            changed == (old(self).version@ != latest.version@),
            final(self)@ == old(self)@.observe(latest.version@, now as int),
            final(self).monitor == old(self).monitor,
    {
        let changed = self.version != latest.version;
        if changed {
            self.version = latest.version;
        }
        self.last_check = now;
        self.checked = true;
        changed
    }

    /// Records a check at `now` that failed.
    pub fn check_failed(&mut self, now: i64)
        ensures
            final(self)@ == old(self)@.miss(now as int),
            final(self).monitor == old(self).monitor,
    {
        self.last_check = now;
        self.checked = true;
    }

    pub fn key(&self) -> (r: String)
        ensures
            r@ == self.monitor.key(),
    {
        self.monitor.name()
    }
}

/// A tracker is due as soon as it is made; after a check at `now`, successful
/// or not, it is not due at `now`, and at any later time it is due exactly
/// when `frequency` seconds have passed since `now`.
pub proof fn lemma_check_gating(
    t: TrackerView,
    seed: Seq<char>,
    found: Seq<char>,
    frequency: int,
    now: int,
    later: int,
)
    requires
        frequency > 0,
    ensures
        (TrackerView { version: seed, last_check: 0, checked: false }).needs_check(later, frequency),
        !t.observe(found, now).needs_check(now, frequency),
        !t.miss(now).needs_check(now, frequency),
        t.observe(found, now).needs_check(later, frequency) <==> later - now >= frequency,
        t.miss(now).needs_check(later, frequency) <==> later - now >= frequency,
{
}

} // verus!
