use crate::configuration::GlobalConfiguration;
use crate::error::Error;
use crate::frequency::TimeSpan;
use crate::release::{MessageView, NotificationMessage, ReleaseData};
use crate::text::same_text;
use vstd::prelude::*;

pub mod github_release;
pub mod rancher_channel_server;

use github_release::{
    release_data, GithubConfiguration, GithubRelease, GithubReleaseRequest, TYPE_NAME_GITHUB,
};
use rancher_channel_server::{Collection, RancherChannelServerConfiguration, TYPE_NAME_RANCHER_CHANNEL};

verus! {

/// One watched release source.
#[derive(Debug, Clone)]
pub enum Monitor {
    Github(GithubConfiguration),
    RancherChannel(RancherChannelServerConfiguration),
}

/// The registered kinds of monitor, one per type discriminator.
#[derive(Debug, Clone, Copy, PartialEq, Eq, Structural)]
pub enum MonitorKind {
    Github,
    RancherChannel,
}

/// What has to be fetched to check a monitor.
#[derive(Debug, Clone)]
pub enum FetchRequest {
    /// The latest release of a GitHub repository.
    GithubLatestRelease(GithubReleaseRequest),
    /// The channel list at a channel server's address.
    ChannelServer(String),
}

/// What a fetch returned.
#[derive(Debug, Clone)]
pub enum FetchResponse {
    GithubRelease(GithubRelease),
    Channels(Collection),
}

impl MonitorKind {
    pub open spec fn discriminator_spec(self) -> Seq<char> {
        match self {
            MonitorKind::Github => TYPE_NAME_GITHUB@,
            MonitorKind::RancherChannel => TYPE_NAME_RANCHER_CHANNEL@,
        }
    }

    /// The discriminator under which this kind is registered.
    pub fn discriminator(&self) -> (r: &'static str)
        ensures
            r@ == self.discriminator_spec(),
    {
        match self {
            MonitorKind::Github => TYPE_NAME_GITHUB,
            MonitorKind::RancherChannel => TYPE_NAME_RANCHER_CHANNEL,
        }
    }
}

/// A type discriminator is registered when some kind carries it.
pub open spec fn is_registered(discriminator: Seq<char>) -> bool {
    discriminator == TYPE_NAME_GITHUB@ || discriminator == TYPE_NAME_RANCHER_CHANNEL@
}

/// Looks a type discriminator up in the registry of monitor kinds.
pub fn monitor_kind(discriminator: &str) -> (r: Result<MonitorKind, Error>)
    ensures
        r is Ok <==> is_registered(discriminator@),
        discriminator@ == TYPE_NAME_GITHUB@ ==> r == Ok::<MonitorKind, Error>(MonitorKind::Github),
        discriminator@ == TYPE_NAME_RANCHER_CHANNEL@ ==> r == Ok::<MonitorKind, Error>(
            MonitorKind::RancherChannel,
        ),
        r matches Ok(k) ==> k.discriminator_spec() == discriminator@,
        r matches Err(e) ==> e matches Error::UnknownMonitorType(t) && t@ == discriminator@,
{
    proof {
        reveal_strlit("github");
        reveal_strlit("rancher-channel");
        assert(TYPE_NAME_GITHUB@.len() != TYPE_NAME_RANCHER_CHANNEL@.len());
    }
    if same_text(discriminator, TYPE_NAME_GITHUB) {
        Ok(MonitorKind::Github)
    } else if same_text(discriminator, TYPE_NAME_RANCHER_CHANNEL) {
        Ok(MonitorKind::RancherChannel)
    } else {
        Err(Error::UnknownMonitorType(String::from_str(discriminator)))
    }
}

impl Monitor {
    /// The stable key of the monitor.
    pub open spec fn key(self) -> Seq<char> {
        match self {
            Monitor::Github(m) => m.name@,
            Monitor::RancherChannel(m) => m.name@,
        }
    }

    /// The minimum number of seconds between two checks.
    pub open spec fn frequency_spec(self) -> int {
        match self {
            Monitor::Github(m) => m.frequency_spec(),
            Monitor::RancherChannel(m) => m.frequency_spec(),
        }
    }

    pub open spec fn kind_spec(self) -> MonitorKind {
        match self {
            Monitor::Github(_) => MonitorKind::Github,
            Monitor::RancherChannel(_) => MonitorKind::RancherChannel,
        }
    }

    /// The notification that announces `data`.
    pub open spec fn message_spec(self, data: ReleaseData) -> MessageView {
        match self {
            Monitor::Github(m) => MessageView {
                text: m.message_text(data),
                notification: m.inner.notification@,
            },
            Monitor::RancherChannel(m) => MessageView {
                text: m.message_text(data),
                notification: m.inner.notification@,
            },
        }
    }

    pub fn kind(&self) -> (r: MonitorKind)
        ensures
            r == self.kind_spec(),
    {
        match self {
            Monitor::Github(_) => MonitorKind::Github,
            Monitor::RancherChannel(_) => MonitorKind::RancherChannel,
        }
    }

    pub fn monitor_type(&self) -> (r: String)
        ensures
            r@ == self.kind_spec().discriminator_spec(),
    {
        match self {
            Monitor::Github(m) => m.monitor_type(),
            Monitor::RancherChannel(m) => m.monitor_type(),
        }
    }

    pub fn name(&self) -> (r: String)
        ensures
            r@ == self.key(),
    {
        match self {
            Monitor::Github(m) => m.name(),
            Monitor::RancherChannel(m) => m.name(),
        }
    }

    pub fn frequency(&self) -> (r: TimeSpan)
        ensures
            r.seconds == self.frequency_spec(),
    {
        match self {
            Monitor::Github(m) => m.frequency(),
            Monitor::RancherChannel(m) => m.frequency(),
        }
    }

    pub fn message(&self, version: ReleaseData) -> (r: NotificationMessage)
        ensures
            r@ == self.message_spec(version),
    {
        match self {
            Monitor::Github(m) => m.message(version),
            Monitor::RancherChannel(m) => m.message(version),
        }
    }

    /// The fetch that checks this monitor: the latest release of a GitHub
    /// repository, or the channel list at a channel server's address.
    pub open spec fn fetch_request_spec(self, global: GlobalConfiguration) -> FetchRequest {
        match self {
            Monitor::Github(m) => FetchRequest::GithubLatestRelease(m.release_request_spec(global)),
            Monitor::RancherChannel(m) => FetchRequest::ChannelServer(m.inner.url),
        }
    }

    pub fn fetch_request(&self, global_config: &GlobalConfiguration) -> (r: FetchRequest)
        ensures
            r == self.fetch_request_spec(*global_config),
    {
        match self {
            Monitor::Github(m) => FetchRequest::GithubLatestRelease(
                m.release_request(global_config),
            ),
            Monitor::RancherChannel(m) => FetchRequest::ChannelServer(m.inner.url.clone()),
        }
    }

    /// The release data in what a fetch for this monitor returned; a response
    /// of the other kind is a decode error.
    pub fn release_from(&self, response: FetchResponse) -> (r: Result<ReleaseData, Error>)
        ensures
            self matches Monitor::Github(_) ==> match response {
                FetchResponse::GithubRelease(rel) => r == Ok::<ReleaseData, Error>(
                    ReleaseData { version: rel.tag_name, link: Some(rel.html_url) },
                ),
                FetchResponse::Channels(_) => r matches Err(Error::Decode(_)),
            },
            self matches Monitor::RancherChannel(m) ==> match response {
                FetchResponse::Channels(c) => r == m.channel_release(c),
                FetchResponse::GithubRelease(_) => r matches Err(Error::Decode(_)),
            },
    {
        match (self, response) {
            (Monitor::Github(_), FetchResponse::GithubRelease(rel)) => Ok(release_data(rel)),
            (Monitor::RancherChannel(m), FetchResponse::Channels(c)) => m.check_channel(c),
            _ => Err(Error::Decode(String::from_str("response does not belong to the monitor"))),
        }
    }
}

/// The monitors among decode results, in order.
pub open spec fn decoded(results: Seq<Result<Monitor, Error>>) -> Seq<Monitor>
    decreases results.len(),
{
    if results.len() == 0 {
        Seq::empty()
    } else {
        let rest = decoded(results.drop_last());
        match results.last() {
            Ok(m) => rest.push(m),
            Err(_) => rest,
        }
    }
}

/// The errors among decode results, in order.
pub open spec fn decode_failures(results: Seq<Result<Monitor, Error>>) -> Seq<Error>
    decreases results.len(),
{
    if results.len() == 0 {
        Seq::empty()
    } else {
        let rest = decode_failures(results.drop_last());
        match results.last() {
            Ok(_) => rest,
            Err(e) => rest.push(e),
        }
    }
}

/// Splits decode results into the monitors that run and the errors that keep
/// the others out; a failure excludes only its own monitor.
pub fn decoded_monitors(results: Vec<Result<Monitor, Error>>) -> (r: (Vec<Monitor>, Vec<Error>))
    ensures
        r.0@ == decoded(results@),
        r.1@ == decode_failures(results@),
{
    let mut monitors: Vec<Monitor> = Vec::new();
    let mut failures: Vec<Error> = Vec::new();
    let mut rest = results;
    let ghost taken: Seq<Result<Monitor, Error>> = Seq::empty();
    while rest.len() > 0
        invariant
            results@ == taken + rest@,
            monitors@ == decoded(taken),
            failures@ == decode_failures(taken),
        decreases rest.len(),
    {
        let item = rest.remove(0);
        proof {
            assert(taken.push(item).drop_last() == taken);
            taken = taken.push(item);
        }
        match item {
            Ok(m) => monitors.push(m),
            Err(e) => failures.push(e),
        }
    }
    assert(rest@.len() == 0);
    assert(taken == results@);
    (monitors, failures)
}

/// A failed decode excludes only its own monitor: dropping it from the results
/// leaves the monitors that run unchanged.
pub proof fn lemma_failure_excludes_only_itself(results: Seq<Result<Monitor, Error>>, i: int)
    requires
        0 <= i < results.len(),
        results[i] is Err,
    ensures
        decoded(results) == decoded(results.remove(i)),
    decreases results.len(),
{
    if i == results.len() - 1 {
        assert(results.remove(i) =~= results.drop_last());
    } else {
        let shorter = results.drop_last();
        lemma_failure_excludes_only_itself(shorter, i);
        assert(results.remove(i).drop_last() =~= shorter.remove(i));
        assert(results.remove(i).last() == results.last());
    }
}

} // verus!
