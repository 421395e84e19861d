//! The plan: from the records that a zone holds and the record that is
//! wanted, which changes to make.

use crate::error::{zone_not_found_text, Error, ErrorView, ResultError};
use crate::text::{same_text, starts_with, texts};
use vstd::prelude::*;
use vstd::string::*;

verus! {

/// How a record's name is held against the wanted name.
#[derive(Debug, Clone, Copy, PartialEq, Eq, Structural)]
pub enum NameMatch {
    /// The two names are equal.
    Exact,
    /// The record's name begins with the wanted name.
    Prefix,
}

/// The record that should exist once the reconciliation is over.
#[derive(Debug, PartialEq, Eq)]
pub struct DesiredState {
    pub zone_name: String,
    pub record_name: String,
    pub record_type: String,
    pub value: String,
}

/// A [`DesiredState`] as plain values.
pub struct DesiredStateView {
    pub zone_name: Seq<char>,
    pub record_name: Seq<char>,
    pub record_type: Seq<char>,
    pub value: Seq<char>,
}

impl View for DesiredState {
    type V = DesiredStateView;

    open spec fn view(&self) -> DesiredStateView {
        DesiredStateView {
            zone_name: self.zone_name@,
            record_name: self.record_name@,
            record_type: self.record_type@,
            value: self.value@,
        }
    }
}

impl DesiredState {
    /// The wish for a record `record_name` of type `record_type` with the
    /// value `value`, in the zone `zone_name`.
    pub fn new(zone_name: &str, record_name: &str, value: &str, record_type: &str) -> (d: Self)
        ensures
            d@ == (DesiredStateView {
                zone_name: zone_name@,
                record_name: record_name@,
                record_type: record_type@,
                value: value@,
            }),
    {
        DesiredState {
            zone_name: String::from_str(zone_name),
            record_name: String::from_str(record_name),
            record_type: String::from_str(record_type),
            value: String::from_str(value),
        }
    }
}

/// What the reconciler reads of a zone: its identity and its name.
#[derive(Debug, PartialEq, Eq)]
pub struct ZoneEntry {
    pub id: String,
    pub name: String,
}

/// A [`ZoneEntry`] as plain values.
pub struct ZoneView {
    pub id: Seq<char>,
    pub name: Seq<char>,
}

impl View for ZoneEntry {
    type V = ZoneView;

    open spec fn view(&self) -> ZoneView {
        ZoneView { id: self.id@, name: self.name@ }
    }
}

/// The zones of `zones` as plain values, in the same order.
pub open spec fn zone_views(zones: Seq<ZoneEntry>) -> Seq<ZoneView> {
    zones.map_values(|z: ZoneEntry| z@)
}

/// What the reconciler reads of a record.
#[derive(Debug, PartialEq, Eq)]
pub struct RecordEntry {
    pub id: String,
    pub name: String,
    pub record_type: String,
    pub value: String,
}

/// A [`RecordEntry`] as plain values.
pub struct RecordView {
    pub id: Seq<char>,
    pub name: Seq<char>,
    pub record_type: Seq<char>,
    pub value: Seq<char>,
}

impl View for RecordEntry {
    type V = RecordView;

    open spec fn view(&self) -> RecordView {
        RecordView {
            id: self.id@,
            name: self.name@,
            record_type: self.record_type@,
            value: self.value@,
        }
    }
}

/// The records of `records` as plain values, in the same order.
pub open spec fn record_views(records: Seq<RecordEntry>) -> Seq<RecordView> {
    records.map_values(|r: RecordEntry| r@)
}

/// One change to the records of a zone.
#[derive(Debug, PartialEq, Eq)]
pub enum Mutation {
    Create { zone_id: String, name: String, record_type: String, value: String },
    Update { zone_id: String, record_id: String, name: String, record_type: String, value: String },
    Delete { zone_id: String, record_id: String },
}

/// A [`Mutation`] as plain values.
pub enum MutationView {
    Create { zone_id: Seq<char>, name: Seq<char>, record_type: Seq<char>, value: Seq<char> },
    Update {
        zone_id: Seq<char>,
        record_id: Seq<char>,
        name: Seq<char>,
        record_type: Seq<char>,
        value: Seq<char>,
    },
    Delete { zone_id: Seq<char>, record_id: Seq<char> },
}

impl View for Mutation {
    type V = MutationView;

    open spec fn view(&self) -> MutationView {
        match self {
            Mutation::Create { zone_id, name, record_type, value } => MutationView::Create {
                zone_id: zone_id@,
                name: name@,
                record_type: record_type@,
                value: value@,
            },
            Mutation::Update { zone_id, record_id, name, record_type, value } => {
                MutationView::Update {
                    zone_id: zone_id@,
                    record_id: record_id@,
                    name: name@,
                    record_type: record_type@,
                    value: value@,
                }
            },
            Mutation::Delete { zone_id, record_id } => MutationView::Delete {
                zone_id: zone_id@,
                record_id: record_id@,
            },
        }
    }
}

/// The mutations of `mutations` as plain values, in the same order.
pub open spec fn mutation_views(mutations: Seq<Mutation>) -> Seq<MutationView> {
    mutations.map_values(|m: Mutation| m@)
}

/// Whether a record called `name` counts as the wanted record.
pub open spec fn name_matches(policy: NameMatch, name: Seq<char>, wanted: Seq<char>) -> bool {
    match policy {
        NameMatch::Exact => name == wanted,
        NameMatch::Prefix => wanted.is_prefix_of(name),
    }
}

/// The test that picks the records which count as the record called `wanted`.
pub open spec fn is_wanted(policy: NameMatch, wanted: Seq<char>) -> spec_fn(RecordView) -> bool {
    |r: RecordView| name_matches(policy, r.name, wanted)
}

/// The records that count as the wanted record, in the order of the listing.
pub open spec fn matching(records: Seq<RecordView>, policy: NameMatch, wanted: Seq<char>) -> Seq<
    RecordView,
> {
    records.filter(is_wanted(policy, wanted))
}

/// The creation of the wanted record in the zone `zone_id`.
pub open spec fn creation(zone_id: Seq<char>, desired: DesiredStateView) -> MutationView {
    MutationView::Create {
        zone_id,
        name: desired.record_name,
        record_type: desired.record_type,
        value: desired.value,
    }
}

/// The update that gives the record `record_id` the wanted name, type and value.
pub open spec fn replacement(
    zone_id: Seq<char>,
    record_id: Seq<char>,
    desired: DesiredStateView,
) -> MutationView {
    MutationView::Update {
        zone_id,
        record_id,
        name: desired.record_name,
        record_type: desired.record_type,
        value: desired.value,
    }
}

/// One deletion for each of `ids`, in their order.
pub open spec fn deletions(zone_id: Seq<char>, ids: Seq<Seq<char>>) -> Seq<MutationView> {
    ids.map_values(|id: Seq<char>| MutationView::Delete { zone_id, record_id: id })
}

/// The identities of `records`, in their order.
pub open spec fn ids_of(records: Seq<RecordView>) -> Seq<Seq<char>> {
    records.map_values(|r: RecordView| r.id)
}

/// The changes that leave exactly one record for the wanted name: a creation
/// where no record matches, an update in place where one does, and otherwise
/// the deletion of every match followed by one creation.
pub open spec fn planned(
    zone_id: Seq<char>,
    records: Seq<RecordView>,
    desired: DesiredStateView,
    policy: NameMatch,
) -> Seq<MutationView> {
    let matched = matching(records, policy, desired.record_name);
    if matched.len() == 0 {
        seq![creation(zone_id, desired)]
    } else if matched.len() == 1 {
        seq![replacement(zone_id, matched[0].id, desired)]
    } else {
        deletions(zone_id, ids_of(matched)).push(creation(zone_id, desired))
    }
}

/// Picks the zone that a name stands for from the zones listed under that
/// name: the first one. Where none is listed the zone is not found.
pub fn resolve_zone<Z>(name: &str, zones: Vec<Z>) -> (r: Result<Z, Error>)
    ensures
        zones@.len() > 0 ==> r == Ok::<Z, Error>(zones@[0]),
        zones@.len() == 0 ==> r is Err && r->Err_0@ == ErrorView::ZoneNotFound(
            zone_not_found_text(name@),
        ),
{
    let mut zones = zones;
    if zones.len() == 0 {
        Err(Error::ZoneNotFound(ResultError::zone_not_found(name)))
    } else {
        Ok(zones.remove(0))
    }
}

/// Whether `name` counts as the wanted name under `policy`.
pub fn is_match(policy: NameMatch, name: &str, wanted: &str) -> (b: bool)
    ensures
        b == name_matches(policy, name@, wanted@),
{
    match policy {
        NameMatch::Exact => same_text(name, wanted),
        NameMatch::Prefix => starts_with(name, wanted),
    }
}

/// The identities of the records that count as the wanted record, in the
/// order of the listing.
pub fn matching_ids(records: &Vec<RecordEntry>, policy: NameMatch, wanted: &str) -> (ids: Vec<
    String,
>)
    ensures
        texts(ids@) == ids_of(matching(record_views(records@), policy, wanted@)),
{
    let ghost all = record_views(records@);
    let ghost pred = is_wanted(policy, wanted@);
    let mut ids: Vec<String> = Vec::new();
    let mut i: usize = 0;
    while i < records.len()
        invariant
            i <= records.len(),
            all == record_views(records@),
            pred == is_wanted(policy, wanted@),
            texts(ids@) =~= ids_of(all.take(i as int).filter(pred)),
        decreases records.len() - i,
    {
        let ghost seen = texts(ids@);
        proof {
            assert(all.take(i as int + 1) =~= all.take(i as int).push(all[i as int]));
            all.take(i as int).lemma_filter_push(all[i as int], pred);
        }
        if is_match(policy, records[i].name.as_str(), wanted) {
            ids.push(records[i].id.clone());
            assert(texts(ids@) =~= seen.push(all[i as int].id));
        }
        i = i + 1;
    }
    assert(all.take(i as int) =~= all);
    ids
}

fn make_creation(zone_id: &str, desired: &DesiredState) -> (m: Mutation)
    ensures
        m@ == creation(zone_id@, desired@),
{
    Mutation::Create {
        zone_id: String::from_str(zone_id),
        name: desired.record_name.clone(),
        record_type: desired.record_type.clone(),
        value: desired.value.clone(),
    }
}

/// Decides the changes for one zone listing, by the number of records that
/// count as the wanted record.
pub fn plan(
    zone_id: &str,
    records: &Vec<RecordEntry>,
    desired: &DesiredState,
    policy: NameMatch,
) -> (mutations: Vec<Mutation>)
    ensures
        mutation_views(mutations@) == planned(zone_id@, record_views(records@), desired@, policy),
{
    let mut ids = matching_ids(records, policy, desired.record_name.as_str());
    let ghost id_views = texts(ids@);
    let mut mutations: Vec<Mutation> = Vec::new();
    if ids.len() == 0 {
        mutations.push(make_creation(zone_id, desired));
    } else if ids.len() == 1 {
        let record_id = ids.remove(0);
        assert(record_id@ == id_views[0]);
        mutations.push(
            Mutation::Update {
                zone_id: String::from_str(zone_id),
                record_id,
                name: desired.record_name.clone(),
                record_type: desired.record_type.clone(),
                value: desired.value.clone(),
            },
        );
    } else {
        let mut i: usize = 0;
        while i < ids.len()
            invariant
                i <= ids.len(),
                id_views == texts(ids@),
                mutation_views(mutations@) =~= deletions(zone_id@, id_views.take(i as int)),
            decreases ids.len() - i,
        {
            let ghost issued = mutation_views(mutations@);
            mutations.push(
                Mutation::Delete { zone_id: String::from_str(zone_id), record_id: ids[i].clone() },
            );
            assert(mutation_views(mutations@) =~= issued.push(
                MutationView::Delete { zone_id: zone_id@, record_id: id_views[i as int] },
            ));
            i = i + 1;
        }
        assert(id_views.take(i as int) =~= id_views);
        mutations.push(make_creation(zone_id, desired));
    }
    mutations
}

} // verus!
