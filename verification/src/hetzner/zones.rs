//! Zones: their shape in an answer, and the requests that fetch them.

use crate::hetzner::records::{RecordCreate, RecordCreateView};
use crate::hetzner::{client_request, hetzner_client, Config, ConfigView};
use crate::http::{Method, Request, RequestView};
use crate::plan::{zone_views, ZoneEntry, ZoneView};
use vstd::prelude::*;
use vstd::string::*;

verus! {

/// A zone as the provider describes it.
#[derive(Debug, PartialEq, Eq)]
pub struct Zone {
    pub id: String,
    pub created: String,
    pub modified: String,
    pub legacy_dns_host: String,
    pub legacy_ns: Vec<String>,
    pub name: String,
    pub ns: Vec<String>,
    pub owner: String,
    pub paused: bool,
    pub permission: String,
    pub project: String,
    pub registrar: String,
    pub status: String,
    pub ttl: i32,
    pub verified: String,
    pub records_count: i32,
    pub is_secondary_dns: bool,
    pub txt_verification: TxtVerification,
}

/// The text record by which the ownership of a zone is verified.
#[derive(Debug, PartialEq, Eq)]
pub struct TxtVerification {
    pub name: String,
    pub token: String,
}

/// A listing of zones.
#[derive(Debug, PartialEq, Eq)]
pub struct Zones {
    pub zones: Vec<Zone>,
}

/// The answer to a zone listing; the list may be missing.
#[derive(Debug, PartialEq, Eq)]
pub struct ZonesResponse {
    pub zones: Option<Vec<Zone>>,
}

/// The answer to the request for one zone; the zone may be missing.
#[derive(Debug, PartialEq, Eq)]
pub struct ZoneResponse {
    pub zone: Option<Zone>,
}

/// A zone as plain values: what the reconciler reads of it.
impl View for Zone {
    type V = ZoneView;

    open spec fn view(&self) -> ZoneView {
        ZoneView { id: self.id@, name: self.name@ }
    }
}

impl Zone {
    /// What the reconciler reads of this zone.
    pub fn entry(&self) -> (e: ZoneEntry)
        ensures
            e@ == self@,
    {
        ZoneEntry { id: self.id.clone(), name: self.name.clone() }
    }
}

/// What the reconciler reads of each of `zones`, in the same order.
pub open spec fn zone_entry_views(zones: Seq<Zone>) -> Seq<ZoneView> {
    zones.map_values(|z: Zone| z@)
}

/// What the reconciler reads of each zone, in the order of the listing.
pub fn zone_entries(zones: &Vec<Zone>) -> (entries: Vec<ZoneEntry>)
    ensures
        zone_views(entries@) == zone_entry_views(zones@),
{
    let mut entries: Vec<ZoneEntry> = Vec::new();
    let mut i: usize = 0;
    while i < zones.len()
        invariant
            i <= zones.len(),
            entries@.len() == i,
            forall|j: int| 0 <= j < i ==> (#[trigger] entries@[j])@ == zones@[j]@,
        decreases zones.len() - i,
    {
        entries.push(zones[i].entry());
        i = i + 1;
    }
    entries
}

/// The listing of all zones, or of those called `name`.
pub open spec fn zones_request(config: ConfigView, name: Option<Seq<char>>) -> RequestView<
    RecordCreateView,
> {
    let all = client_request(config, "zones"@, Method::Get);
    match name {
        Some(name) => RequestView { query: seq![("name"@, name)], ..all },
        None => all,
    }
}

/// Describes the request that lists the zones of the account, filtered by
/// `name` where one is given.
pub fn get_zones(config: &Config, name: Option<&str>) -> (r: Request<RecordCreate>)
    ensures
        r@ == zones_request(
            config@,
            match name {
                Some(name) => Some(name@),
                None => None,
            },
        ),
{
    let client = hetzner_client(config, "zones", Method::Get);
    match name {
        Some(name) => {
            let r = client.query("name", name);
            r
        },
        None => client,
    }
}

/// The request for the one zone `zone_id`.
pub open spec fn zone_request(config: ConfigView, zone_id: Seq<char>) -> RequestView<
    RecordCreateView,
> {
    client_request(config, "zones/"@ + zone_id, Method::Get)
}

/// Describes the request that fetches one zone by its identity.
pub fn get_zone(config: &Config, zone_id: &str) -> (r: Request<RecordCreate>)
    ensures
        r@ == zone_request(config@, zone_id@),
{
    let mut path = String::from_str("zones/");
    path.append(zone_id);
    hetzner_client(config, path.as_str(), Method::Get)
}

} // verus!
