//! The station that one process serves: its address, its cadence, and where
//! its audio and its results go.

use crate::text::ends_with;
use vstd::prelude::*;

verus! {

/// The grace that every watchdog budget holds beside the work itself, in
/// milliseconds.
pub const GRACE_MS: u64 = 60_000;

/// The longest interval, in seconds, whose watchdog budget still fits in 64
/// bits of milliseconds.
pub const MAX_INTERVAL: u64 = 9_223_372_036_854_745;

/// What kind of resource a station address names, told by how it ends.
#[derive(Debug, Clone, Copy, PartialEq, Eq, Structural)]
pub enum AddressKind {
    /// `.m3u8`: a master or media playlist.
    Manifest,
    /// `.m3u`: a text that names the stream, one address to a line.
    RedirectList,
    /// Anything else: the stream itself.
    Direct,
}

/// The kind of the address `address`.
pub open spec fn kind_of(address: Seq<char>) -> AddressKind {
    if ".m3u8"@.is_suffix_of(address) {
        AddressKind::Manifest
    } else if ".m3u"@.is_suffix_of(address) {
        AddressKind::RedirectList
    } else {
        AddressKind::Direct
    }
}

/// Tells the kind of the address `address`.
pub fn address_kind(address: &str) -> (kind: AddressKind)
    ensures
        kind == kind_of(address@),
{
    if ends_with(address, ".m3u8") {
        AddressKind::Manifest
    } else if ends_with(address, ".m3u") {
        AddressKind::RedirectList
    } else {
        AddressKind::Direct
    }
}

/// Why a configuration is turned down at startup.
#[derive(Debug, Clone, Copy, PartialEq, Eq, Structural)]
pub enum ConfigError {
    /// The interval is zero.
    ZeroInterval,
    /// The interval is above `MAX_INTERVAL`.
    IntervalTooLong,
}

/// A station target as a mathematical value.
pub struct TargetModel {
    pub address: Seq<char>,
    pub interval: nat,
    pub scratch: Seq<char>,
    pub endpoint: Option<Seq<char>>,
}

impl TargetModel {
    /// What every station target meets: an interval above zero whose
    /// watchdog budget can be counted.
    pub open spec fn valid(self) -> bool {
        0 < self.interval <= MAX_INTERVAL
    }

    /// The kind of the station's address.
    pub open spec fn kind(self) -> AddressKind {
        kind_of(self.address)
    }

    /// The interval in milliseconds.
    pub open spec fn interval_millis(self) -> nat {
        self.interval * 1000
    }

    /// The watchdog's budget for one work cycle, in milliseconds: twice the
    /// interval, and the grace.
    pub open spec fn timeout_budget(self) -> nat {
        2 * self.interval * 1000 + GRACE_MS as nat
    }
}

/// The configuration of one process: made once at startup, and read only
/// after that.
#[derive(Debug, PartialEq, Eq)]
pub struct StationTarget {
    address: String,
    interval: u64,
    scratch: String,
    endpoint: Option<String>,
}

impl View for StationTarget {
    type V = TargetModel;

    closed spec fn view(&self) -> TargetModel {
        TargetModel {
            address: self.address@,
            interval: self.interval as nat,
            scratch: self.scratch@,
            endpoint: self.endpoint.deep_view(),
        }
    }
}

impl StationTarget {
    #[verifier::type_invariant]
    spec fn well_formed(self) -> bool {
        self@.valid()
    }

    /// Checks a configuration and makes the target from it. The interval
    /// is in seconds.
    pub fn new(
        address: String,
        interval: u64,
        scratch: String,
        endpoint: Option<String>,
    ) -> (made: Result<StationTarget, ConfigError>)
        ensures
            interval == 0 ==> made == Err::<StationTarget, ConfigError>(ConfigError::ZeroInterval),
            interval > MAX_INTERVAL ==> made == Err::<StationTarget, ConfigError>(
                ConfigError::IntervalTooLong,
            ),
            0 < interval <= MAX_INTERVAL ==> (made matches Ok(target) && target@ == (TargetModel {
                address: address@,
                interval: interval as nat,
                scratch: scratch@,
                endpoint: endpoint.deep_view(),
            })),
            made matches Ok(target) ==> target@.valid(),
    {
        if interval == 0 {
            Err(ConfigError::ZeroInterval)
        } else if interval > MAX_INTERVAL {
            Err(ConfigError::IntervalTooLong)
        } else {
            Ok(StationTarget { address, interval, scratch, endpoint })
        }
    }

    /// A copy of the target.
    pub fn duplicate(&self) -> (copy: StationTarget)
        ensures
            copy@ == self@,
    {
        proof {
            use_type_invariant(self);
        }
        let endpoint = match &self.endpoint {
            Some(url) => Some(url.clone()),
            None => None,
        };
        StationTarget {
            address: self.address.clone(),
            interval: self.interval,
            scratch: self.scratch.clone(),
            endpoint,
        }
    }

    /// The station's address, as it was configured.
    pub fn address(&self) -> (address: &str)
        ensures
            address@ == self@.address,
    {
        self.address.as_str()
    }

    /// The configured seconds between two recognitions.
    pub fn interval(&self) -> (interval: u64)
        ensures
            interval == self@.interval,
            self@.valid(),
    {
        proof {
            use_type_invariant(self);
        }
        self.interval
    }

    /// The configured interval in milliseconds. It is never zero.
    pub fn interval_millis(&self) -> (millis: u64)
        ensures
            millis == self@.interval_millis(),
            millis > 0,
    {
        proof {
            use_type_invariant(self);
        }
        self.interval * 1000
    }

    /// The path of the file that each window is written to.
    pub fn scratch(&self) -> (path: &str)
        ensures
            path@ == self@.scratch,
    {
        self.scratch.as_str()
    }

    /// Where results are sent, if anywhere.
    pub fn endpoint(&self) -> (endpoint: Option<&str>)
        ensures
            endpoint.deep_view() == self@.endpoint,
    {
        match &self.endpoint {
            Some(url) => Some(url.as_str()),
            None => None,
        }
    }

    /// The kind of the station's address.
    pub fn kind(&self) -> (kind: AddressKind)
        ensures
            kind == self@.kind(),
    {
        address_kind(self.address.as_str())
    }

    /// The watchdog's budget for one work cycle, in milliseconds. It
    /// depends on the configured interval alone.
    pub fn timeout_budget(&self) -> (budget: u64)
        ensures
            budget == self@.timeout_budget(),
    {
        proof {
            use_type_invariant(self);
        }
        self.interval * 2 * 1000 + GRACE_MS
    }
}

} // verus!
