//! What one invocation is asked to do: which provider, which address, which
//! zone and which record. A flag wins over its fallback.

use crate::error::ConfigError;
use crate::plan::{DesiredState, DesiredStateView};
use vstd::prelude::*;

verus! {

/// The providers that a record can be kept at.
#[derive(Debug, Clone, Copy, PartialEq, Eq, Structural)]
pub enum DnsProvider {
    Cloudflare,
    Hetzner,
}

/// What the command line gave.
#[derive(Debug, PartialEq, Eq)]
pub struct Flags {
    /// Use Cloudflare instead of Hetzner.
    pub cloudflare_dns: bool,
    /// The address to publish.
    pub ip: Option<String>,
    /// The zone that holds the record.
    pub zone: Option<String>,
    /// The name of the record.
    pub domain: Option<String>,
}

/// What stands in for a flag that was not given.
#[derive(Debug, PartialEq, Eq)]
pub struct Fallbacks {
    /// The address of this machine, where it could be found out.
    pub local_ip: Option<String>,
    /// The zone named by the environment.
    pub dns_zone: Option<String>,
    /// The record name given by the environment.
    pub dns_domain: Option<String>,
}

/// The settings of one invocation.
#[derive(Debug, PartialEq, Eq)]
pub struct Settings {
    pub provider: DnsProvider,
    pub ip: String,
    pub zone: String,
    pub domain: String,
}

/// [`Settings`] as plain values.
pub struct SettingsView {
    pub provider: DnsProvider,
    pub ip: Seq<char>,
    pub zone: Seq<char>,
    pub domain: Seq<char>,
}

impl View for Settings {
    type V = SettingsView;

    open spec fn view(&self) -> SettingsView {
        SettingsView { provider: self.provider, ip: self.ip@, zone: self.zone@, domain: self.domain@ }
    }
}

/// The text of a flag, or else that of its fallback.
pub open spec fn chosen(flag: Option<String>, fallback: Option<String>) -> Option<Seq<char>> {
    match (flag, fallback) {
        (Some(s), _) => Some(s@),
        (None, Some(s)) => Some(s@),
        (None, None) => None,
    }
}

/// The provider that the flag selects.
pub open spec fn selected(cloudflare_dns: bool) -> DnsProvider {
    if cloudflare_dns {
        DnsProvider::Cloudflare
    } else {
        DnsProvider::Hetzner
    }
}

/// The settings that flags and fallbacks give, or what is missing. Of
/// several things missing the address is named first, then the zone, then
/// the record name.
pub open spec fn resolution(flags: Flags, fallbacks: Fallbacks) -> Result<
    SettingsView,
    ConfigError,
> {
    match (
        chosen(flags.ip, fallbacks.local_ip),
        chosen(flags.zone, fallbacks.dns_zone),
        chosen(flags.domain, fallbacks.dns_domain),
    ) {
        (None, _, _) => Err(ConfigError::MissingAddress),
        (Some(_), None, _) => Err(ConfigError::MissingZone),
        (Some(_), Some(_), None) => Err(ConfigError::MissingDomain),
        (Some(ip), Some(zone), Some(domain)) => Ok(
            SettingsView { provider: selected(flags.cloudflare_dns), ip, zone, domain },
        ),
    }
}

fn choose_value(flag: Option<String>, fallback: Option<String>) -> (r: Option<String>)
    ensures
        match r {
            Some(s) => chosen(flag, fallback) == Some(s@),
            None => chosen(flag, fallback) is None,
        },
{
    match flag {
        Some(s) => Some(s),
        None => fallback,
    }
}

impl Settings {
    /// Settles address, zone and record name, each from its flag or else
    /// from its fallback. What is missing both ways is an error.
    pub fn resolve(flags: Flags, fallbacks: Fallbacks) -> (r: Result<Settings, ConfigError>)
        ensures
            match r {
                Ok(settings) => resolution(flags, fallbacks) == Ok::<SettingsView, ConfigError>(
                    settings@,
                ),
                Err(e) => resolution(flags, fallbacks) == Err::<SettingsView, ConfigError>(e),
            },
    {
        let provider = if flags.cloudflare_dns {
            DnsProvider::Cloudflare
        } else {
            DnsProvider::Hetzner
        };
        let ip = match choose_value(flags.ip, fallbacks.local_ip) {
            Some(ip) => ip,
            None => {
                return Err(ConfigError::MissingAddress);
            },
        };
        let zone = match choose_value(flags.zone, fallbacks.dns_zone) {
            Some(zone) => zone,
            None => {
                return Err(ConfigError::MissingZone);
            },
        };
        let domain = match choose_value(flags.domain, fallbacks.dns_domain) {
            Some(domain) => domain,
            None => {
                return Err(ConfigError::MissingDomain);
            },
        };
        Ok(Settings { provider, ip, zone, domain })
    }

    /// The record that these settings ask for: an address record for the
    /// record name, holding the address.
    pub fn desired(&self) -> (d: DesiredState)
        ensures
            d@ == (DesiredStateView {
                zone_name: self.zone@,
                record_name: self.domain@,
                record_type: "A"@,
                value: self.ip@,
            }),
    {
        DesiredState::new(self.zone.as_str(), self.domain.as_str(), self.ip.as_str(), "A")
    }
}

} // verus!
