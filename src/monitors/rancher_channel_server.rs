use crate::error::Error;
use crate::frequency::{saturate, FrequencyPeriod, FrequencyValue, TimeSpan};
use crate::release::{NotificationMessage, ReleaseData};
use crate::text::{eq_ignore_ascii_case, same_ignoring_ascii_case};
use vstd::prelude::*;

verus! {

pub const TYPE_NAME_RANCHER_CHANNEL: &'static str = "rancher-channel";

/// A monitor of one channel of a Rancher channel server.
#[derive(Debug, Clone)]
pub struct RancherChannelServerConfiguration {
    /// The monitor's stable key.
    pub name: String,
    pub inner: RancherChannelServerConfigurationInner,
}

/// The channel-server-specific part of a monitor, as it is persisted.
#[derive(Debug, Clone)]
pub struct RancherChannelServerConfigurationInner {
    pub url: String,
    /// The id of the channel to follow, matched regardless of ASCII case.
    pub channel: String,
    /// The notification group that messages are addressed to.
    pub notification: String,
    pub frequency: FrequencyValue,
    pub period: FrequencyPeriod,
}

/// The channel list that a channel server returns.
#[derive(Debug, Clone)]
pub struct Collection {
    pub links: Links,
    pub data: Vec<Channels>,
    pub actions: Actions,
    pub resource_type: String,
}

/// One channel of a channel server and its latest version.
#[derive(Debug, Clone)]
pub struct Channels {
    pub id: String,
    pub name: String,
    pub latest: String,
    pub links: Links,
}

#[derive(Debug, Clone)]
pub struct Links {
    pub link: String,
}

#[derive(Debug, Clone, Copy, Default)]
pub struct Actions;

/// Whether `channel` is the one searched for.
pub open spec fn is_channel(channel: Channels, search: Seq<char>) -> bool {
    same_ignoring_ascii_case(channel.id@, search)
}

/// `i` is the position of the first channel in `data` that is the one searched for.
pub open spec fn first_channel(data: Seq<Channels>, search: Seq<char>, i: int) -> bool {
    &&& 0 <= i < data.len()
    &&& is_channel(data[i], search)
    &&& forall|j: int| 0 <= j < i ==> !is_channel(#[trigger] data[j], search)
}

impl RancherChannelServerConfiguration {
    pub open spec fn frequency_spec(self) -> int {
        saturate(self.inner.frequency.0 * self.inner.period.unit_seconds())
    }

    pub open spec fn message_text(self, data: ReleaseData) -> Seq<char> {
        "Version "@ + data.version@ + " now available for channel "@ + self.inner.channel@
            + " at "@ + self.inner.url@
    }

    /// The announcement of `version`, addressed to this monitor's group.
    pub fn message(&self, version: ReleaseData) -> (r: NotificationMessage)
        ensures
            r.text@ == self.message_text(version),
            r.notification@ == self.inner.notification@,
    {
        let mut text = String::from_str("Version ");
        text.append(version.version.as_str());
        text.append(" now available for channel ");
        text.append(self.inner.channel.as_str());
        text.append(" at ");
        text.append(self.inner.url.as_str());
        NotificationMessage { text, notification: self.inner.notification.clone() }
    }

    pub fn monitor_type(&self) -> (r: String)
        ensures
            r@ == TYPE_NAME_RANCHER_CHANNEL@,
    {
        String::from_str(TYPE_NAME_RANCHER_CHANNEL)
    }

    pub fn name(&self) -> (r: String)
        ensures
            r@ == self.name@,
    {
        self.name.clone()
    }

    pub fn frequency(&self) -> (r: TimeSpan)
        ensures
            r.seconds == self.frequency_spec(),
    {
        self.inner.period.to_duration(self.inner.frequency.0)
    }

    /// The latest version of the first channel in `channels` whose id is the
    /// followed one, without a link; not found where no id matches.
    pub open spec fn channel_release(self, channels: Collection) -> Result<ReleaseData, Error> {
        let search = self.inner.channel@;
        if exists|i: int| first_channel(channels.data@, search, i) {
            let i = choose|i: int| first_channel(channels.data@, search, i);
            Ok(ReleaseData { version: channels.data@[i].latest, link: None })
        } else {
            Err(Error::RancherChannelNotFound(self.inner.channel))
        }
    }

    /// The release data of the followed channel in a fetched channel list.
    pub fn check_channel(&self, channels: Collection) -> (r: Result<ReleaseData, Error>)
        ensures
            r == self.channel_release(channels),
    {
        let search = self.inner.channel.as_str();
        let n = channels.data.len();
        let mut i: usize = 0;
        while i < n
            invariant
                n == channels.data@.len(),
                i <= n,
                search@ == self.inner.channel@,
                forall|j: int| 0 <= j < i ==> !is_channel(#[trigger] channels.data@[j], search@),
            decreases n - i,
        {
            if eq_ignore_ascii_case(channels.data[i].id.as_str(), search) {
                let found = ReleaseData { version: channels.data[i].latest.clone(), link: None };
                assert(first_channel(channels.data@, search@, i as int));
                let ghost k = choose|k: int| first_channel(channels.data@, search@, k);
                assert(k == i) by {
                    if k < i {
                    } else if k > i {
                        assert(!is_channel(channels.data@[i as int], search@));
                    }
                }
                return Ok(found);
            }
            i = i + 1;
        }
        Err(Error::RancherChannelNotFound(self.inner.channel.clone()))
    }
}

} // verus!
