use crate::configuration::GlobalConfiguration;
use crate::frequency::{saturate, FrequencyPeriod, FrequencyValue, TimeSpan};
use crate::release::{NotificationMessage, ReleaseData};
use crate::text::{copy_optional, text_or_empty};
use vstd::prelude::*;

verus! {

pub const TYPE_NAME_GITHUB: &'static str = "github";

/// A monitor of the latest release of a GitHub repository.
#[derive(Debug, Clone)]
pub struct GithubConfiguration {
    /// The monitor's stable key.
    pub name: String,
    pub inner: GithubConfigurationInner,
}

/// The GitHub-specific part of a monitor, as it is persisted.
#[derive(Debug, Clone)]
pub struct GithubConfigurationInner {
    pub owner: String,
    pub repo: String,
    /// The notification group that messages are addressed to.
    pub notification: String,
    pub frequency: FrequencyValue,
    pub period: FrequencyPeriod,
    /// Token for authenticated lookups; takes precedence over the global one.
    pub github_personal_token: Option<String>,
}

/// The fields of a GitHub release that a check uses.
#[derive(Debug, Clone)]
pub struct GithubRelease {
    pub tag_name: String,
    pub html_url: String,
}

/// A lookup of the latest release of one repository.
#[derive(Debug, Clone)]
pub struct GithubReleaseRequest {
    pub owner: String,
    pub repo: String,
    pub token: Option<String>,
}

impl GithubConfiguration {
    pub open spec fn frequency_spec(self) -> int {
        saturate(self.inner.frequency.0 * self.inner.period.unit_seconds())
    }

    pub open spec fn message_text(self, data: ReleaseData) -> Seq<char> {
        "Release "@ + data.version@ + " now available for "@ + self.inner.owner@ + "/"@
            + self.inner.repo@ + ". "@ + text_or_empty(data.link)
    }

    /// The announcement of `version`, addressed to this monitor's group.
    pub fn message(&self, version: ReleaseData) -> (r: NotificationMessage)
        ensures
            r.text@ == self.message_text(version),
            r.notification@ == self.inner.notification@,
    {
        let mut text = String::from_str("Release ");
        text.append(version.version.as_str());
        text.append(" now available for ");
        text.append(self.inner.owner.as_str());
        text.append("/");
        text.append(self.inner.repo.as_str());
        text.append(". ");
        match &version.link {
            Some(link) => text.append(link.as_str()),
            None => {},
        }
        NotificationMessage { text, notification: self.inner.notification.clone() }
    }

    pub fn monitor_type(&self) -> (r: String)
        ensures
            r@ == TYPE_NAME_GITHUB@,
    {
        String::from_str(TYPE_NAME_GITHUB)
    }

    pub fn name(&self) -> (r: String)
        ensures
            r@ == self.name@,
    {
        self.name.clone()
    }

    pub fn frequency(&self) -> (r: TimeSpan)
        ensures
            r.seconds == self.frequency_spec(),
    {
        self.inner.period.to_duration(self.inner.frequency.0)
    }

    pub open spec fn token_spec(self, global: GlobalConfiguration) -> Option<String> {
        if self.inner.github_personal_token is Some {
            self.inner.github_personal_token
        } else {
            global.github_personal_token
        }
    }

    /// The token to authenticate with: the monitor's own, else the global one.
    pub fn get_github_personal_token(&self, global_config: &GlobalConfiguration) -> (r: Option<
        String,
    >)
        ensures
            r == self.token_spec(*global_config),
    {
        if self.inner.github_personal_token.is_some() {
            copy_optional(&self.inner.github_personal_token)
        } else {
            copy_optional(&global_config.github_personal_token)
        }
    }

    pub open spec fn release_request_spec(self, global: GlobalConfiguration) -> GithubReleaseRequest {
        GithubReleaseRequest {
            owner: self.inner.owner,
            repo: self.inner.repo,
            token: self.token_spec(global),
        }
    }

    /// The lookup that checks this monitor.
    pub fn release_request(&self, global_config: &GlobalConfiguration) -> (r: GithubReleaseRequest)
        ensures
            r == self.release_request_spec(*global_config),
    {
        GithubReleaseRequest {
            owner: self.inner.owner.clone(),
            repo: self.inner.repo.clone(),
            token: self.get_github_personal_token(global_config),
        }
    }
}

/// The release data of a GitHub release: its tag is the version, its page the link.
pub fn release_data(release: GithubRelease) -> (r: ReleaseData)
    ensures
        r.version == release.tag_name,
        r.link == Some(release.html_url),
{
    ReleaseData { version: release.tag_name, link: Some(release.html_url) }
}

} // verus!
