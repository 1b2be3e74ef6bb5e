use release_monitor::configuration::GlobalConfiguration;
use release_monitor::error::Error;
use release_monitor::frequency::{FrequencyPeriod, FrequencyValue};
use release_monitor::monitors::github_release::{GithubConfiguration, GithubConfigurationInner};
use release_monitor::monitors::rancher_channel_server::{
    RancherChannelServerConfiguration, RancherChannelServerConfigurationInner,
};
use release_monitor::monitors::{FetchRequest, Monitor};
use release_monitor::release::ReleaseData;
use release_monitor::scheduler::{initial_versions, CheckOutcome, Scheduler, VersionRecord};
use release_monitor::tracker::ReleaseTracker;

fn github(name: &str, value: u64, period: FrequencyPeriod) -> Monitor {
    Monitor::Github(GithubConfiguration {
        name: name.to_string(),
        inner: GithubConfigurationInner {
            owner: "owner".to_string(),
            repo: "repo".to_string(),
            notification: "releases".to_string(),
            frequency: FrequencyValue(value),
            period,
            github_personal_token: None,
        },
    })
}

fn channel(name: &str) -> Monitor {
    Monitor::RancherChannel(RancherChannelServerConfiguration {
        name: name.to_string(),
        inner: RancherChannelServerConfigurationInner {
            url: "https://channels.example/v1-release/channels".to_string(),
            channel: "stable".to_string(),
            notification: "clusters".to_string(),
            frequency: FrequencyValue(1),
            period: FrequencyPeriod::Hour,
        },
    })
}

fn fetched(version: &str) -> CheckOutcome {
    CheckOutcome::Fetched(ReleaseData { version: version.to_string(), link: None })
}

fn record(key: &str, version: &str) -> VersionRecord {
    VersionRecord { key: key.to_string(), version: version.to_string() }
}

const T0: i64 = 1_700_000_000;

#[test]
fn unchanged_then_changed_release_notifies_once() {
    let mut s = Scheduler::new(
        vec![github("key", 1, FrequencyPeriod::Hour)],
        vec![Some("v1.0.0".to_string())],
    )
    .unwrap();
    let first = s.run_pass(T0, vec![fetched("v1.0.0")]);
    assert!(first.notifications.is_empty());
    assert_eq!(first.flush, Some(vec![record("key", "v1.0.0")]));
    s.record_flush(true);

    let plan = s.plan_pass(T0 + 3599, &GlobalConfiguration::default());
    assert!(plan[0].is_none());

    let second = s.run_pass(T0 + 3600, vec![fetched("v1.1.0")]);
    assert_eq!(second.notifications.len(), 1);
    assert_eq!(second.notifications[0].notification, "releases");
    assert_eq!(
        second.notifications[0].text,
        "Release v1.1.0 now available for owner/repo. "
    );
    assert_eq!(second.flush, Some(vec![record("key", "v1.1.0")]));
}

#[test]
fn failed_check_leaves_its_version_alone() {
    let mut s = Scheduler::new(
        vec![github("a", 1, FrequencyPeriod::Hour), channel("b")],
        vec![Some("1.0".to_string()), Some("v1.30.1".to_string())],
    )
    .unwrap();
    let report = s.run_pass(
        T0,
        vec![
            CheckOutcome::Failed(Error::Fetch("connection refused".to_string())),
            fetched("v1.31.0"),
        ],
    );
    assert_eq!(report.notifications.len(), 1);
    assert_eq!(report.notifications[0].notification, "clusters");
    assert_eq!(
        report.notifications[0].text,
        "Version v1.31.0 now available for channel stable at https://channels.example/v1-release/channels"
    );
    assert_eq!(report.flush, Some(vec![record("a", "1.0"), record("b", "v1.31.0")]));
    assert_eq!(s.tracker(0).version, "1.0");
    assert!(s.tracker(0).checked);
}

#[test]
fn no_monitors_means_no_scheduler() {
    let r = Scheduler::new(vec![], vec![]);
    assert!(matches!(r, Err(Error::NoMonitors)));
    let r = Scheduler::new(vec![github("a", 1, FrequencyPeriod::Hour)], vec![None]);
    assert!(matches!(r, Err(Error::NoMonitors)));
}

#[test]
fn quiet_pass_writes_nothing() {
    let mut s =
        Scheduler::new(vec![github("a", 1, FrequencyPeriod::Minute)], vec![Some("1".to_string())])
            .unwrap();
    let first = s.run_pass(T0, vec![fetched("1")]);
    assert!(first.flush.is_some());
    s.record_flush(true);
    let second = s.run_pass(T0 + 60, vec![fetched("1")]);
    assert!(second.notifications.is_empty());
    assert_eq!(second.flush, None);
}

#[test]
fn failed_flush_is_retried() {
    let mut s =
        Scheduler::new(vec![github("a", 1, FrequencyPeriod::Minute)], vec![Some("1".to_string())])
            .unwrap();
    s.run_pass(T0, vec![fetched("2")]);
    s.record_flush(false);
    let next = s.run_pass(T0 + 1, vec![CheckOutcome::Skipped]);
    assert_eq!(next.flush, Some(vec![record("a", "2")]));
}

#[test]
fn same_version_twice_notifies_once() {
    let mut s =
        Scheduler::new(vec![github("a", 1, FrequencyPeriod::Minute)], vec![Some("1".to_string())])
            .unwrap();
    let first = s.run_pass(T0, vec![fetched("2")]);
    assert_eq!(first.notifications.len(), 1);
    let second = s.run_pass(T0 + 60, vec![fetched("2")]);
    assert!(second.notifications.is_empty());
}

#[test]
fn restart_after_lost_flush_notifies_again_once() {
    let stored = vec![record("a", "v0")];
    let monitors = vec![github("a", 1, FrequencyPeriod::Minute)];
    let seeds = initial_versions(&monitors, &stored);
    let mut crashed = Scheduler::new(monitors, seeds).unwrap();
    let before = crashed.run_pass(T0, vec![fetched("v1")]);
    assert_eq!(before.notifications.len(), 1);

    // the flush never reached the store; a new process seeds from it again
    let monitors = vec![github("a", 1, FrequencyPeriod::Minute)];
    let seeds = initial_versions(&monitors, &stored);
    assert_eq!(seeds, vec![Some("v0".to_string())]);
    let mut restarted = Scheduler::new(monitors, seeds).unwrap();
    let first = restarted.run_pass(T0 + 10, vec![fetched("v1")]);
    assert_eq!(first.notifications.len(), 1);
    assert_eq!(first.flush, Some(vec![record("a", "v1")]));
    restarted.record_flush(true);
    let later = restarted.run_pass(T0 + 70, vec![fetched("v1")]);
    assert!(later.notifications.is_empty());
}

#[test]
fn startup_checks_every_tracker() {
    let s = Scheduler::new(
        vec![github("a", 1, FrequencyPeriod::Week), channel("b")],
        vec![Some("1".to_string()), Some("2".to_string())],
    )
    .unwrap();
    let plan = s.plan_pass(0, &GlobalConfiguration::default());
    assert_eq!(plan.len(), 2);
    assert!(matches!(&plan[0], Some(FetchRequest::GithubLatestRelease(q)) if q.owner == "owner" && q.repo == "repo"));
    assert!(matches!(&plan[1], Some(FetchRequest::ChannelServer(u)) if u == "https://channels.example/v1-release/channels"));
}

#[test]
fn tracker_not_due_ignores_outcome() {
    let mut s =
        Scheduler::new(vec![github("a", 1, FrequencyPeriod::Hour)], vec![Some("1".to_string())])
            .unwrap();
    s.run_pass(T0, vec![fetched("1")]);
    let report = s.run_pass(T0 + 60, vec![fetched("2")]);
    assert!(report.notifications.is_empty());
    assert_eq!(s.tracker(0).version, "1");
}

#[test]
fn duplicate_keys_keep_first_monitor() {
    let s = Scheduler::new(
        vec![github("a", 1, FrequencyPeriod::Hour), channel("a"), channel("b")],
        vec![Some("1".to_string()), Some("2".to_string()), Some("3".to_string())],
    )
    .unwrap();
    assert_eq!(s.len(), 2);
    assert!(matches!(s.tracker(0).monitor, Monitor::Github(_)));
    assert_eq!(s.tracker(1).key(), "b");
}

#[test]
fn seeds_come_from_matching_rows() {
    let monitors = vec![github("a", 1, FrequencyPeriod::Hour), channel("b")];
    let stored = vec![record("b", "v2"), record("c", "v3")];
    let seeds = initial_versions(&monitors, &stored);
    assert_eq!(seeds, vec![None, Some("v2".to_string())]);
}

#[test]
fn tracker_gating_follows_frequency() {
    let mut t = ReleaseTracker::new(github("a", 2, FrequencyPeriod::Minute), "1".to_string());
    assert!(t.needs_check(0));
    let changed = t.apply(ReleaseData { version: "1".to_string(), link: Some("x".to_string()) }, T0);
    assert!(!changed);
    assert!(!t.needs_check(T0));
    assert!(!t.needs_check(T0 + 119));
    assert!(t.needs_check(T0 + 120));
    t.check_failed(T0 + 120);
    assert!(!t.needs_check(T0 + 200));
    assert_eq!(t.last_check, T0 + 120);
}

#[test]
fn apply_compares_versions_literally() {
    let mut t = ReleaseTracker::new(channel("b"), "v1.2.3".to_string());
    assert!(t.apply(ReleaseData { version: "v1.2.3-rc1".to_string(), link: None }, 5));
    assert_eq!(t.version, "v1.2.3-rc1");
    assert!(!t.apply(ReleaseData { version: "v1.2.3-rc1".to_string(), link: Some("l".to_string()) }, 6));
    assert!(t.apply(ReleaseData { version: "V1.2.3-RC1".to_string(), link: None }, 7));
}
