use release_monitor::configuration::GlobalConfiguration;
use release_monitor::error::Error;
use release_monitor::frequency::{FrequencyPeriod, FrequencyValue};
use release_monitor::monitors::github_release::{
    release_data, GithubConfiguration, GithubConfigurationInner, GithubRelease,
};
use release_monitor::monitors::rancher_channel_server::{
    Actions, Channels, Collection, Links, RancherChannelServerConfiguration,
    RancherChannelServerConfigurationInner,
};
use release_monitor::monitors::{decoded_monitors, monitor_kind, FetchResponse, Monitor, MonitorKind};
use release_monitor::release::ReleaseData;

fn github_config(token: Option<&str>) -> GithubConfiguration {
    GithubConfiguration {
        name: "verus".to_string(),
        inner: GithubConfigurationInner {
            owner: "verus-lang".to_string(),
            repo: "verus".to_string(),
            notification: "dev".to_string(),
            frequency: FrequencyValue(3),
            period: FrequencyPeriod::Day,
            github_personal_token: token.map(|t| t.to_string()),
        },
    }
}

fn channel_config(channel: &str) -> RancherChannelServerConfiguration {
    RancherChannelServerConfiguration {
        name: "rke2".to_string(),
        inner: RancherChannelServerConfigurationInner {
            url: "https://update.rke2.io/v1-release/channels".to_string(),
            channel: channel.to_string(),
            notification: "ops".to_string(),
            frequency: FrequencyValue::default(),
            period: FrequencyPeriod::default(),
        },
    }
}

fn links() -> Links {
    Links { link: "https://update.rke2.io/v1-release/channels/x".to_string() }
}

fn chan(id: &str, latest: &str) -> Channels {
    Channels { id: id.to_string(), name: id.to_string(), latest: latest.to_string(), links: links() }
}

fn collection(data: Vec<Channels>) -> Collection {
    Collection { links: links(), data, actions: Actions, resource_type: "channel".to_string() }
}

#[test]
fn github_message_names_release_and_link() {
    let m = github_config(None);
    let msg = m.message(ReleaseData {
        version: "0.2025.1".to_string(),
        link: Some("https://github.com/verus-lang/verus/releases/tag/0.2025.1".to_string()),
    });
    assert_eq!(
        msg.text,
        "Release 0.2025.1 now available for verus-lang/verus. https://github.com/verus-lang/verus/releases/tag/0.2025.1"
    );
    assert_eq!(msg.notification, "dev");
}

#[test]
fn github_accessors() {
    let m = github_config(None);
    assert_eq!(m.monitor_type(), "github");
    assert_eq!(m.name(), "verus");
    assert_eq!(m.frequency().seconds, 3 * 86400);
}

#[test]
fn monitor_token_takes_precedence() {
    let mut global = GlobalConfiguration::default();
    assert_eq!(github_config(None).get_github_personal_token(&global), None);
    global.github_personal_token = Some("global".to_string());
    assert_eq!(github_config(None).get_github_personal_token(&global), Some("global".to_string()));
    assert_eq!(
        github_config(Some("own")).get_github_personal_token(&global),
        Some("own".to_string())
    );
    let q = github_config(None).release_request(&global);
    assert_eq!(q.owner, "verus-lang");
    assert_eq!(q.repo, "verus");
    assert_eq!(q.token, Some("global".to_string()));
}

#[test]
fn github_release_becomes_release_data() {
    let d = release_data(GithubRelease {
        tag_name: "v2".to_string(),
        html_url: "https://example.org/v2".to_string(),
    });
    assert_eq!(d.version, "v2");
    assert_eq!(d.link, Some("https://example.org/v2".to_string()));
}

#[test]
fn channel_message_and_accessors() {
    let m = channel_config("stable");
    let msg = m.message(ReleaseData { version: "v1.31.1+rke2r1".to_string(), link: None });
    assert_eq!(
        msg.text,
        "Version v1.31.1+rke2r1 now available for channel stable at https://update.rke2.io/v1-release/channels"
    );
    assert_eq!(msg.notification, "ops");
    assert_eq!(m.monitor_type(), "rancher-channel");
    assert_eq!(m.frequency().seconds, 3600);
}

#[test]
fn channel_lookup_ignores_ascii_case_and_takes_first() {
    let m = channel_config("Stable");
    let found = m
        .check_channel(collection(vec![
            chan("latest", "v1.32.0"),
            chan("stable", "v1.31.1"),
            chan("STABLE", "v0"),
        ]))
        .unwrap();
    assert_eq!(found.version, "v1.31.1");
    assert_eq!(found.link, None);
}

#[test]
fn channel_lookup_reports_missing_channel() {
    let m = channel_config("v1.99");
    let r = m.check_channel(collection(vec![chan("stable", "v1.31.1")]));
    assert_eq!(r.unwrap_err(), Error::RancherChannelNotFound("v1.99".to_string()));
    let r = m.check_channel(collection(vec![]));
    assert!(matches!(r, Err(Error::RancherChannelNotFound(_))));
}

#[test]
fn release_from_matches_response_to_monitor() {
    let g = Monitor::Github(github_config(None));
    let c = Monitor::RancherChannel(channel_config("stable"));
    let rel = GithubRelease { tag_name: "t".to_string(), html_url: "u".to_string() };
    let d = g.release_from(FetchResponse::GithubRelease(rel.clone())).unwrap();
    assert_eq!(d.version, "t");
    assert!(matches!(c.release_from(FetchResponse::GithubRelease(rel)), Err(Error::Decode(_))));
    let d = c.release_from(FetchResponse::Channels(collection(vec![chan("stable", "v9")]))).unwrap();
    assert_eq!(d.version, "v9");
    assert!(matches!(
        g.release_from(FetchResponse::Channels(collection(vec![]))),
        Err(Error::Decode(_))
    ));
}

#[test]
fn registry_knows_both_kinds() {
    assert_eq!(monitor_kind("github").unwrap(), MonitorKind::Github);
    assert_eq!(monitor_kind("rancher-channel").unwrap(), MonitorKind::RancherChannel);
    assert_eq!(MonitorKind::Github.discriminator(), "github");
    assert_eq!(MonitorKind::RancherChannel.discriminator(), "rancher-channel");
}

#[test]
fn unknown_discriminator_is_excluded_alone() {
    let unknown = monitor_kind("gitlab");
    assert_eq!(unknown.clone().unwrap_err(), Error::UnknownMonitorType("gitlab".to_string()));
    let results = vec![
        Ok(Monitor::Github(github_config(None))),
        unknown.map(|_| Monitor::Github(github_config(None))),
        Ok(Monitor::RancherChannel(channel_config("stable"))),
    ];
    let (monitors, failures) = decoded_monitors(results);
    assert_eq!(monitors.len(), 2);
    assert_eq!(monitors[0].name(), "verus");
    assert_eq!(monitors[1].name(), "rke2");
    assert_eq!(failures, vec![Error::UnknownMonitorType("gitlab".to_string())]);
}

#[test]
fn monitor_dispatch() {
    let g = Monitor::Github(github_config(None));
    assert_eq!(g.kind(), MonitorKind::Github);
    assert_eq!(g.monitor_type(), "github");
    assert_eq!(g.frequency().seconds, 259200);
    let msg = g.message(ReleaseData { version: "1".to_string(), link: None });
    assert_eq!(msg.text, "Release 1 now available for verus-lang/verus. ");
}
