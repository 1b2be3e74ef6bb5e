use crate::frequency::{period_named, FrequencyPeriod, FrequencyValue};
use crate::monitors::github_release::{GithubConfiguration, GithubConfigurationInner};
use crate::monitors::rancher_channel_server::{
    RancherChannelServerConfiguration, RancherChannelServerConfigurationInner,
};
use crate::monitors::Monitor;
use crate::text::{decimal_value, is_decimal, parse_decimal};
use vstd::prelude::*;

verus! {

/// The fields that every monitor form carries.
#[derive(Debug, Clone)]
pub struct CommonFormValues {
    pub name: String,
    pub notification: String,
    pub frequency: FrequencyValue,
    pub period: FrequencyPeriod,
}

/// The frequency that a form field gives: its decimal number, else one.
pub open spec fn form_frequency(field: Seq<char>) -> int {
    if is_decimal(field) && decimal_value(field) <= u64::MAX {
        decimal_value(field)
    } else {
        1
    }
}

/// The period that a form field gives: the one it names, else an hour.
pub open spec fn form_period(field: Seq<char>) -> FrequencyPeriod {
    match period_named(field) {
        Some(p) => p,
        None => FrequencyPeriod::Hour,
    }
}

/// Reads the common fields of a monitor form; a frequency or a period that
/// does not parse takes its default.
pub fn common_form_values(name: &str, notification: &str, frequency: &str, period: &str) -> (r:
    CommonFormValues)
    ensures
        r.name@ == name@,
        r.notification@ == notification@,
        r.frequency.0 == form_frequency(frequency@),
        r.period == form_period(period@),
{
    let frequency = match parse_decimal(frequency) {
        Some(v) => FrequencyValue(v),
        None => FrequencyValue::default(),
    };
    let period = match FrequencyPeriod::from_name(period) {
        Some(p) => p,
        None => FrequencyPeriod::default(),
    };
    CommonFormValues {
        name: String::from_str(name),
        notification: String::from_str(notification),
        frequency,
        period,
    }
}

/// Reads the GitHub fields of a form; an empty token means none.
pub fn github_form_values(owner: &str, repo: &str, token: &str) -> (r: (
    String,
    String,
    Option<String>,
))
    ensures
        r.0@ == owner@,
        r.1@ == repo@,
        token@.len() == 0 ==> r.2 is None,
        token@.len() > 0 ==> (r.2 matches Some(t) && t@ == token@),
{
    let token = if token.unicode_len() == 0 {
        None
    } else {
        Some(String::from_str(token))
    };
    (String::from_str(owner), String::from_str(repo), token)
}

/// Reads the channel-server fields of a form.
pub fn rancher_channel_form_values(url: &str, channel: &str) -> (r: (String, String))
    ensures
        r.0@ == url@,
        r.1@ == channel@,
{
    (String::from_str(url), String::from_str(channel))
}

/// A GitHub monitor from the values of its form.
pub fn github_monitor(
    common: CommonFormValues,
    owner: String,
    repo: String,
    github_personal_token: Option<String>,
) -> (r: Monitor)
    ensures
        r == Monitor::Github(
            GithubConfiguration {
                name: common.name,
                inner: GithubConfigurationInner {
                    owner,
                    repo,
                    notification: common.notification,
                    frequency: common.frequency,
                    period: common.period,
                    github_personal_token,
                },
            },
        ),
{
    Monitor::Github(
        GithubConfiguration {
            name: common.name,
            inner: GithubConfigurationInner {
                owner,
                repo,
                notification: common.notification,
                frequency: common.frequency,
                period: common.period,
                github_personal_token,
            },
        },
    )
}

/// A channel-server monitor from the values of its form.
pub fn rancher_channel_monitor(common: CommonFormValues, url: String, channel: String) -> (r:
    Monitor)
    ensures
        r == Monitor::RancherChannel(
            RancherChannelServerConfiguration {
                name: common.name,
                inner: RancherChannelServerConfigurationInner {
                    url,
                    channel,
                    notification: common.notification,
                    frequency: common.frequency,
                    period: common.period,
                },
            },
        ),
{
    Monitor::RancherChannel(
        RancherChannelServerConfiguration {
            name: common.name,
            inner: RancherChannelServerConfigurationInner {
                url,
                channel,
                notification: common.notification,
                frequency: common.frequency,
                period: common.period,
            },
        },
    )
}

} // verus!
