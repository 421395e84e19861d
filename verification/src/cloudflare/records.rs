//! Records: their shape in an answer, and the requests that list, create,
//! change and delete them.

use crate::cloudflare::{client_request, cloudflare_client, Config, ConfigView};
use crate::http::{Method, Request, RequestView};
use crate::plan::{record_views, RecordEntry, RecordView};
use crate::text::same_text;
use vstd::prelude::*;
use vstd::string::*;

verus! {

/// A record as the provider describes it.
#[derive(Debug, PartialEq, Eq)]
pub struct Record {
    pub id: String,
    pub record_type: String,
    pub name: String,
    pub content: String,
    pub proxiable: Option<bool>,
    pub proxied: Option<bool>,
    pub ttl: i16,
    pub locked: bool,
    pub zone_id: String,
    pub zone_name: String,
    pub created_on: String,
    pub modified_on: String,
}

/// A record as plain values: what the reconciler reads of it. The content
/// is the record's value.
impl View for Record {
    type V = RecordView;

    open spec fn view(&self) -> RecordView {
        RecordView {
            id: self.id@,
            name: self.name@,
            record_type: self.record_type@,
            value: self.content@,
        }
    }
}

/// What the reconciler reads of each of `records`, in the same order.
pub open spec fn record_entry_views(records: Seq<Record>) -> Seq<RecordView> {
    records.map_values(|r: Record| r@)
}

/// What the reconciler reads of each record, in the order of the listing.
pub fn record_entries(records: &Vec<Record>) -> (entries: Vec<RecordEntry>)
    ensures
        record_views(entries@) == record_entry_views(records@),
{
    let mut entries: Vec<RecordEntry> = Vec::new();
    let mut i: usize = 0;
    while i < records.len()
        invariant
            i <= records.len(),
            entries@.len() == i,
            forall|j: int| 0 <= j < i ==> (#[trigger] entries@[j])@ == records@[j]@,
        decreases records.len() - i,
    {
        entries.push(records[i].entry());
        i = i + 1;
    }
    entries
}

impl Record {
    /// Whether this record is of the type `record_type`.
    pub fn has_type(&self, record_type: &str) -> (b: bool)
        ensures
            b == (self@.record_type == record_type@),
    {
        same_text(self.record_type.as_str(), record_type)
    }

    /// What the reconciler reads of this record.
    pub fn entry(&self) -> (e: RecordEntry)
        ensures
            e@ == self@,
    {
        RecordEntry {
            id: self.id.clone(),
            name: self.name.clone(),
            record_type: self.record_type.clone(),
            value: self.content.clone(),
        }
    }
}

/// The fields of a record to create, or those to change: a field left out
/// is not sent.
#[derive(Debug, PartialEq, Eq)]
pub struct RecordCreate {
    pub record_type: Option<String>,
    pub name: Option<String>,
    pub content: Option<String>,
    pub ttl: Option<i16>,
}

/// A [`RecordCreate`] as plain values.
pub struct RecordCreateView {
    pub record_type: Option<Seq<char>>,
    pub name: Option<Seq<char>>,
    pub content: Option<Seq<char>>,
    pub ttl: Option<i16>,
}

/// The text of an optional string.
pub open spec fn text_of(s: Option<String>) -> Option<Seq<char>> {
    match s {
        Some(s) => Some(s@),
        None => None,
    }
}

/// The text of an optional string slice.
pub open spec fn str_of(s: Option<&str>) -> Option<Seq<char>> {
    match s {
        Some(s) => Some(s@),
        None => None,
    }
}

impl View for RecordCreate {
    type V = RecordCreateView;

    open spec fn view(&self) -> RecordCreateView {
        RecordCreateView {
            record_type: text_of(self.record_type),
            name: text_of(self.name),
            content: text_of(self.content),
            ttl: self.ttl,
        }
    }
}

fn owned(s: Option<&str>) -> (r: Option<String>)
    ensures
        text_of(r) == str_of(s),
{
    match s {
        Some(s) => Some(String::from_str(s)),
        None => None,
    }
}

/// The path of the records of the zone `zone_id`.
pub open spec fn records_path(zone_id: Seq<char>) -> Seq<char> {
    "zones/"@ + zone_id + "/dns_records"@
}

/// The path of the record `record_id` in the zone `zone_id`.
pub open spec fn record_path(zone_id: Seq<char>, record_id: Seq<char>) -> Seq<char> {
    records_path(zone_id) + "/"@ + record_id
}

fn make_records_path(zone_id: &str) -> (path: String)
    ensures
        path@ == records_path(zone_id@),
{
    let mut path = String::from_str("zones/");
    path.append(zone_id);
    path.append("/dns_records");
    path
}

fn make_record_path(zone_id: &str, record_id: &str) -> (path: String)
    ensures
        path@ == record_path(zone_id@, record_id@),
{
    let mut path = make_records_path(zone_id);
    path.append("/");
    path.append(record_id);
    path
}

/// The listing of all records of the zone `zone_id`.
pub open spec fn listing_request(config: ConfigView, zone_id: Seq<char>) -> RequestView<
    RecordCreateView,
> {
    client_request(config, records_path(zone_id), Method::Get)
}

/// Describes the request that lists all records of a zone.
pub fn get_all_records(config: &Config, zone_id: &str) -> (r: Request<RecordCreate>)
    ensures
        r@ == listing_request(config@, zone_id@),
{
    let path = make_records_path(zone_id);
    cloudflare_client(config, path.as_str(), Method::Get)
}

/// The creation of a record with the given name, type and content in the
/// zone `zone_id`; no time to live is sent.
pub open spec fn creation_request(
    config: ConfigView,
    name: Seq<char>,
    record_type: Seq<char>,
    value: Seq<char>,
    zone_id: Seq<char>,
) -> RequestView<RecordCreateView> {
    RequestView {
        body: Some(
            RecordCreateView {
                record_type: Some(record_type),
                name: Some(name),
                content: Some(value),
                ttl: None,
            },
        ),
        ..client_request(config, records_path(zone_id), Method::Post)
    }
}

/// Describes the request that creates a record.
pub fn create_record(config: &Config, name: &str, record_type: &str, value: &str, zone_id: &str) -> (r:
    Request<RecordCreate>)
    ensures
        r@ == creation_request(config@, name@, record_type@, value@, zone_id@),
{
    let path = make_records_path(zone_id);
    let new_record = RecordCreate {
        record_type: Some(String::from_str(record_type)),
        content: Some(String::from_str(value)),
        name: Some(String::from_str(name)),
        ttl: None,
    };
    cloudflare_client(config, path.as_str(), Method::Post).json(new_record)
}

/// The deletion of the record `record_id` of the zone `zone_id`.
pub open spec fn deletion_request(
    config: ConfigView,
    zone_id: Seq<char>,
    record_id: Seq<char>,
) -> RequestView<RecordCreateView> {
    client_request(config, record_path(zone_id, record_id), Method::Delete)
}

/// Describes the request that deletes a record.
pub fn delete_record(config: &Config, zone_id: &str, record_id: &str) -> (r: Request<RecordCreate>)
    ensures
        r@ == deletion_request(config@, zone_id@, record_id@),
{
    let path = make_record_path(zone_id, record_id);
    cloudflare_client(config, path.as_str(), Method::Delete)
}

/// The method of an update: a full replacement where every field is given,
/// a partial change where one is left out.
pub open spec fn update_method(
    name: Option<Seq<char>>,
    record_type: Option<Seq<char>>,
    value: Option<Seq<char>>,
    ttl: Option<i16>,
) -> Method {
    if name is Some && record_type is Some && value is Some && ttl is Some {
        Method::Put
    } else {
        Method::Patch
    }
}

/// The update of the record `record_id` of the zone `zone_id` with the
/// fields given.
pub open spec fn update_request(
    config: ConfigView,
    record_id: Seq<char>,
    zone_id: Seq<char>,
    name: Option<Seq<char>>,
    record_type: Option<Seq<char>>,
    value: Option<Seq<char>>,
    ttl: Option<i16>,
) -> RequestView<RecordCreateView> {
    RequestView {
        body: Some(RecordCreateView { record_type, name, content: value, ttl }),
        ..client_request(
            config,
            record_path(zone_id, record_id),
            update_method(name, record_type, value, ttl),
        )
    }
}

/// Describes the request that changes a record. The fields given are sent,
/// the others are not; the record is replaced as a whole where all four are
/// given, and changed in part otherwise.
pub fn update_record(
    config: &Config,
    record_id: &str,
    zone_id: &str,
    name: Option<&str>,
    record_type: Option<&str>,
    value: Option<&str>,
    ttl: Option<i16>,
) -> (r: Request<RecordCreate>)
    ensures
        r@ == update_request(
            config@,
            record_id@,
            zone_id@,
            str_of(name),
            str_of(record_type),
            str_of(value),
            ttl,
        ),
{
    let path = make_record_path(zone_id, record_id);
    let method = if name.is_some() && record_type.is_some() && value.is_some() && ttl.is_some() {
        Method::Put
    } else {
        Method::Patch
    };
    let update_record = RecordCreate {
        record_type: owned(record_type),
        content: owned(value),
        name: owned(name),
        ttl,
    };
    cloudflare_client(config, path.as_str(), method).json(update_record)
}

} // verus!
