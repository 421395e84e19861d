//! Zones: their shape in an answer, and the request that lists them.

use crate::cloudflare::records::{RecordCreate, RecordCreateView};
use crate::cloudflare::{client_request, cloudflare_client, Config, ConfigView};
use crate::http::{Method, Request, RequestView};
use crate::plan::{zone_views, ZoneEntry, ZoneView};
use vstd::prelude::*;

verus! {

/// The owner of a zone.
#[derive(Debug, PartialEq, Eq)]
pub struct Owner {
    pub id: Option<String>,
    pub email: Option<String>,
    pub owner_type: Option<String>,
}

/// The account that a zone belongs to.
#[derive(Debug, PartialEq, Eq)]
pub struct Account {
    pub id: String,
    pub name: String,
}

/// A zone as the provider describes it.
#[derive(Debug, PartialEq, Eq)]
pub struct Zone {
    pub id: String,
    pub name: String,
    pub development_mode: i32,
    pub original_registrar: Option<String>,
    pub original_dnshost: Option<String>,
    pub original_name_servers: Option<Vec<String>>,
    pub name_servers: Vec<String>,
    pub permissions: Vec<String>,
    pub owner: Option<Owner>,
    pub account: Option<Account>,
    pub created_on: String,
    pub modified_on: String,
    pub activated_on: String,
    pub zone_type: String,
    pub status: String,
    pub paused: bool,
}

/// A zone as plain values: what the reconciler reads of it.
impl View for Zone {
    type V = ZoneView;

    open spec fn view(&self) -> ZoneView {
        ZoneView { id: self.id@, name: self.name@ }
    }
}

impl Zone {
    /// What the reconciler reads of this zone.
    pub fn entry(&self) -> (e: ZoneEntry)
        ensures
            e@ == self@,
    {
        ZoneEntry { id: self.id.clone(), name: self.name.clone() }
    }
}

/// What the reconciler reads of each of `zones`, in the same order.
pub open spec fn zone_entry_views(zones: Seq<Zone>) -> Seq<ZoneView> {
    zones.map_values(|z: Zone| z@)
}

/// What the reconciler reads of each zone, in the order of the listing.
pub fn zone_entries(zones: &Vec<Zone>) -> (entries: Vec<ZoneEntry>)
    ensures
        zone_views(entries@) == zone_entry_views(zones@),
{
    let mut entries: Vec<ZoneEntry> = Vec::new();
    let mut i: usize = 0;
    while i < zones.len()
        invariant
            i <= zones.len(),
            entries@.len() == i,
            forall|j: int| 0 <= j < i ==> (#[trigger] entries@[j])@ == zones@[j]@,
        decreases zones.len() - i,
    {
        entries.push(zones[i].entry());
        i = i + 1;
    }
    entries
}

/// The listing of all zones, or of those called `name`.
pub open spec fn zones_request(config: ConfigView, name: Option<Seq<char>>) -> RequestView<
    RecordCreateView,
> {
    let all = client_request(config, "zones"@, Method::Get);
    match name {
        Some(name) => RequestView { query: seq![("name"@, name)], ..all },
        None => all,
    }
}

/// Describes the request that lists the zones of the account, filtered by
/// `name` where one is given.
pub fn get_zones(config: &Config, name: Option<&str>) -> (r: Request<RecordCreate>)
    ensures
        r@ == zones_request(
            config@,
            match name {
                Some(name) => Some(name@),
                None => None,
            },
        ),
{
    let client = cloudflare_client(config, "zones", Method::Get);
    match name {
        Some(name) => {
            let r = client.query("name", name);
            r
        },
        None => client,
    }
}

} // verus!
