use vstd::prelude::*;

verus! {

/// Failures that the monitoring engine reports.
#[derive(Debug, Clone, PartialEq, Eq)]
pub enum Error {
    /// A network or transport failure while fetching a release source.
    Fetch(String),
    /// The fetched channel list holds no channel with the requested id.
    RancherChannelNotFound(String),
    /// A response or a stored configuration did not have the expected shape.
    Decode(String),
    /// A monitor record names a type that no decoder is registered for.
    UnknownMonitorType(String),
    /// No monitor survived initialization, so there is nothing to schedule.
    NoMonitors,
    /// The configuration needed to run is absent.
    MissingConfiguration(String),
}

} // verus!
