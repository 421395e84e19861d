//! Records: their shape in an answer, and the requests that list, create,
//! replace and delete them.

use crate::hetzner::{client_request, hetzner_client, Config, ConfigView};
use crate::http::{Method, Request, RequestView};
use crate::plan::{record_views, RecordEntry, RecordView};
use crate::text::same_text;
use vstd::prelude::*;
use vstd::string::*;

verus! {

/// A record as the provider describes it.
#[derive(Debug, PartialEq, Eq)]
pub struct Record {
    pub record_type: String,
    pub id: String,
    pub created: String,
    pub modified: String,
    pub zone_id: String,
    pub name: String,
    pub value: String,
}

/// The fields of a record to create, or those to replace a record with.
#[derive(Debug, PartialEq, Eq)]
pub struct RecordCreate {
    pub record_type: String,
    pub zone_id: String,
    pub name: String,
    pub value: String,
}

/// A [`RecordCreate`] as plain values.
pub struct RecordCreateView {
    pub record_type: Seq<char>,
    pub zone_id: Seq<char>,
    pub name: Seq<char>,
    pub value: Seq<char>,
}

impl View for RecordCreate {
    type V = RecordCreateView;

    open spec fn view(&self) -> RecordCreateView {
        RecordCreateView {
            record_type: self.record_type@,
            zone_id: self.zone_id@,
            name: self.name@,
            value: self.value@,
        }
    }
}

/// A listing of records.
#[derive(Debug, PartialEq, Eq)]
pub struct Records {
    pub records: Vec<Record>,
}

/// A record as plain values: what the reconciler reads of it.
impl View for Record {
    type V = RecordView;

    open spec fn view(&self) -> RecordView {
        RecordView {
            id: self.id@,
            name: self.name@,
            record_type: self.record_type@,
            value: self.value@,
        }
    }
}

impl Record {
    /// Whether this record is of the type `record_type`.
    pub fn has_type(&self, record_type: &str) -> (b: bool)
        ensures
            b == (self@.record_type == record_type@),
    {
        same_text(self.record_type.as_str(), record_type)
    }

    /// What the reconciler reads of this record.
    pub fn entry(&self) -> (e: RecordEntry)
        ensures
            e@ == self@,
    {
        RecordEntry {
            id: self.id.clone(),
            name: self.name.clone(),
            record_type: self.record_type.clone(),
            value: self.value.clone(),
        }
    }
}

/// What the reconciler reads of each of `records`, in the same order.
pub open spec fn record_entry_views(records: Seq<Record>) -> Seq<RecordView> {
    records.map_values(|r: Record| r@)
}

/// What the reconciler reads of each record, in the order of the listing.
pub fn record_entries(records: &Vec<Record>) -> (entries: Vec<RecordEntry>)
    ensures
        record_views(entries@) == record_entry_views(records@),
{
    let mut entries: Vec<RecordEntry> = Vec::new();
    let mut i: usize = 0;
    while i < records.len()
        invariant
            i <= records.len(),
            entries@.len() == i,
            forall|j: int| 0 <= j < i ==> (#[trigger] entries@[j])@ == records@[j]@,
        decreases records.len() - i,
    {
        entries.push(records[i].entry());
        i = i + 1;
    }
    entries
}

/// The path of the record `record_id`.
pub open spec fn record_path(record_id: Seq<char>) -> Seq<char> {
    "records/"@ + record_id
}

fn make_record_path(record_id: &str) -> (path: String)
    ensures
        path@ == record_path(record_id@),
{
    let mut path = String::from_str("records/");
    path.append(record_id);
    path
}

fn new_record(name: &str, record_type: &str, value: &str, zone_id: &str) -> (body: RecordCreate)
    ensures
        body@ == (RecordCreateView {
            record_type: record_type@,
            zone_id: zone_id@,
            name: name@,
            value: value@,
        }),
{
    RecordCreate {
        record_type: String::from_str(record_type),
        value: String::from_str(value),
        name: String::from_str(name),
        zone_id: String::from_str(zone_id),
    }
}

/// The creation of a record with the given name, type and value in the zone
/// `zone_id`.
pub open spec fn creation_request(
    config: ConfigView,
    name: Seq<char>,
    record_type: Seq<char>,
    value: Seq<char>,
    zone_id: Seq<char>,
) -> RequestView<RecordCreateView> {
    RequestView {
        body: Some(RecordCreateView { record_type, zone_id, name, value }),
        ..client_request(config, "records"@, Method::Post)
    }
}

/// Describes the request that creates a record.
pub fn create_record(config: &Config, name: &str, record_type: &str, value: &str, zone_id: &str) -> (r:
    Request<RecordCreate>)
    ensures
        r@ == creation_request(config@, name@, record_type@, value@, zone_id@),
{
    hetzner_client(config, "records", Method::Post).json(
        new_record(name, record_type, value, zone_id),
    )
}

/// The deletion of the record `record_id`.
pub open spec fn deletion_request(config: ConfigView, record_id: Seq<char>) -> RequestView<
    RecordCreateView,
> {
    client_request(config, record_path(record_id), Method::Delete)
}

/// Describes the request that deletes a record.
pub fn delete_record(config: &Config, record_id: &str) -> (r: Request<RecordCreate>)
    ensures
        r@ == deletion_request(config@, record_id@),
{
    let path = make_record_path(record_id);
    hetzner_client(config, path.as_str(), Method::Delete)
}

/// The listing of all records of the zone `zone_id`.
pub open spec fn listing_request(config: ConfigView, zone_id: Seq<char>) -> RequestView<
    RecordCreateView,
> {
    RequestView {
        query: seq![("zone_id"@, zone_id)],
        ..client_request(config, "records"@, Method::Get)
    }
}

/// Describes the request that lists all records of a zone.
pub fn get_all_records(config: &Config, zone_id: &str) -> (r: Request<RecordCreate>)
    ensures
        r@ == listing_request(config@, zone_id@),
{
    let r = hetzner_client(config, "records", Method::Get).query("zone_id", zone_id);
    r
}

/// The replacement of the record `id` by one with the given name, type and
/// value in the zone `zone_id`.
pub open spec fn update_request(
    config: ConfigView,
    id: Seq<char>,
    name: Seq<char>,
    record_type: Seq<char>,
    value: Seq<char>,
    zone_id: Seq<char>,
) -> RequestView<RecordCreateView> {
    RequestView {
        body: Some(RecordCreateView { record_type, zone_id, name, value }),
        ..client_request(config, record_path(id), Method::Put)
    }
}

/// Describes the request that replaces a record as a whole.
pub fn update_record(
    config: &Config,
    id: &str,
    name: &str,
    record_type: &str,
    value: &str,
    zone_id: &str,
) -> (r: Request<RecordCreate>)
    ensures
        r@ == update_request(config@, id@, name@, record_type@, value@, zone_id@),
{
    let path = make_record_path(id);
    hetzner_client(config, path.as_str(), Method::Put).json(
        new_record(name, record_type, value, zone_id),
    )
}

} // verus!
