//! A model of the provider's side: what each change does to the records of a
//! zone, how the provider answers each command, and what a whole
//! reconciliation therefore asks for and leaves behind.

pub mod changes;
pub mod filtering;
pub mod runs;

use crate::error::ErrorView;
use crate::plan::{
    is_wanted, matching, DesiredStateView, MutationView, NameMatch, RecordView, ZoneView,
};
use crate::reconcile::{initial, transition, CommandView, ReconcilerView, ReplyView};
use vstd::prelude::*;

verus! {

/// `r` after an update addressed to `record_id`: the record with that
/// identity takes the new name, type and value, any other stays as it is.
pub open spec fn updated(
    r: RecordView,
    record_id: Seq<char>,
    name: Seq<char>,
    record_type: Seq<char>,
    value: Seq<char>,
) -> RecordView {
    if r.id == record_id {
        RecordView { id: r.id, name, record_type, value }
    } else {
        r
    }
}

/// The records of a zone after the change `m`. A created record gets the
/// identity `fresh` and stands last.
pub open spec fn applied(records: Seq<RecordView>, m: MutationView, fresh: Seq<char>) -> Seq<
    RecordView,
> {
    match m {
        MutationView::Create { zone_id, name, record_type, value } => records.push(
            RecordView { id: fresh, name, record_type, value },
        ),
        MutationView::Update { zone_id, record_id, name, record_type, value } => records.map_values(
            |r: RecordView| updated(r, record_id, name, record_type, value),
        ),
        MutationView::Delete { zone_id, record_id } => records.filter(
            |r: RecordView| r.id != record_id,
        ),
    }
}

/// The records of a zone after the changes `mutations`, made in their order.
pub open spec fn applied_all(
    records: Seq<RecordView>,
    mutations: Seq<MutationView>,
    fresh: Seq<char>,
) -> Seq<RecordView>
    decreases mutations.len(),
{
    if mutations.len() == 0 {
        records
    } else {
        applied_all(applied(records, mutations[0], fresh), mutations.drop_first(), fresh)
    }
}

/// No two records share an identity.
pub open spec fn distinct_ids(records: Seq<RecordView>) -> bool {
    forall|i: int, j: int| 0 <= i < j < records.len() ==> records[i].id != records[j].id
}

/// No record has the identity `id`.
pub open spec fn unused_id(records: Seq<RecordView>, id: Seq<char>) -> bool {
    forall|i: int| 0 <= i < records.len() ==> records[i].id != id
}

/// Where exactly one record counts as the wanted record, every record that
/// shares its identity counts too: so none but that record has its identity.
pub open spec fn match_stands_alone(
    records: Seq<RecordView>,
    policy: NameMatch,
    wanted: Seq<char>,
) -> bool {
    let matched = matching(records, policy, wanted);
    matched.len() == 1 ==> forall|i: int|
        0 <= i < records.len() && records[i].id == matched[0].id ==> is_wanted(policy, wanted)(
            #[trigger] records[i],
        )
}

/// The records can take the planned changes: the only match, if there is
/// one, stands alone; and where a record is to be created, `fresh` is the
/// identity of none.
pub open spec fn ready(
    records: Seq<RecordView>,
    desired: DesiredStateView,
    policy: NameMatch,
    fresh: Seq<char>,
) -> bool {
    &&& match_stands_alone(records, policy, desired.record_name)
    &&& matching(records, policy, desired.record_name).len() != 1 ==> unused_id(records, fresh)
}

/// The record that holds the wanted state once the planned changes are made:
/// the one record that matched, under its old identity, or else a new one.
pub open spec fn settled(
    records: Seq<RecordView>,
    desired: DesiredStateView,
    policy: NameMatch,
    fresh: Seq<char>,
) -> RecordView {
    let matched = matching(records, policy, desired.record_name);
    RecordView {
        id: if matched.len() == 1 {
            matched[0].id
        } else {
            fresh
        },
        name: desired.record_name,
        record_type: desired.record_type,
        value: desired.value,
    }
}

/// The provider as one reconciliation meets it.
pub struct Provider {
    /// The zones that it lists under the wanted zone's name.
    pub zones: Seq<ZoneView>,
    /// The records of the zone that the reconciliation works on.
    pub records: Seq<RecordView>,
    /// The identity that a record created now would get.
    pub fresh: Seq<char>,
    /// The failure that a zone lookup meets, if it meets one.
    pub zone_fault: Option<ErrorView>,
    /// The failure that a record listing meets, if it meets one.
    pub list_fault: Option<ErrorView>,
}

/// No lookup fails and the wanted zone exists.
pub open spec fn healthy(provider: Provider) -> bool {
    &&& provider.zone_fault is None
    &&& provider.list_fault is None
    &&& provider.zones.len() > 0
}

/// No two records share an identity, and `fresh` is the identity of none.
pub open spec fn well_formed(provider: Provider) -> bool {
    &&& distinct_ids(provider.records)
    &&& unused_id(provider.records, provider.fresh)
}

/// The provider after `command`, and its answer. Lookups change nothing;
/// a change is made and acknowledged.
pub open spec fn answer(provider: Provider, command: CommandView) -> (Provider, ReplyView) {
    match command {
        CommandView::ResolveZone { name } => (
            provider,
            match provider.zone_fault {
                Some(e) => ReplyView::Failed(e),
                None => ReplyView::Zones(provider.zones),
            },
        ),
        CommandView::ListRecords { zone_id } => (
            provider,
            match provider.list_fault {
                Some(e) => ReplyView::Failed(e),
                None => ReplyView::Records(provider.records),
            },
        ),
        CommandView::Apply(m) => (
            Provider { records: applied(provider.records, m, provider.fresh), ..provider },
            ReplyView::Done,
        ),
        CommandView::Finish(_) => (provider, ReplyView::Done),
    }
}

/// How a reconciliation ended.
pub struct Outcome {
    /// The provider as the reconciliation left it.
    pub provider: Provider,
    /// Every command that was given, in order, the last one included.
    pub commands: Seq<CommandView>,
    /// The result of the reconciliation; `None` while it is still going on.
    pub result: Option<Result<(), ErrorView>>,
}

/// Carries out `command` and what follows from it, for at most `fuel`
/// commands that need an answer.
pub open spec fn drive(
    provider: Provider,
    state: ReconcilerView,
    command: CommandView,
    fuel: nat,
) -> Outcome
    decreases fuel,
{
    match command {
        CommandView::Finish(result) => Outcome {
            provider,
            commands: seq![command],
            result: Some(result),
        },
        _ => if fuel == 0 {
            Outcome { provider, commands: seq![command], result: None }
        } else {
            let (after, reply) = answer(provider, command);
            let (next, following) = transition(state, reply);
            let rest = drive(after, next, following, (fuel - 1) as nat);
            Outcome {
                provider: rest.provider,
                commands: seq![command] + rest.commands,
                result: rest.result,
            }
        },
    }
}

/// A whole reconciliation towards `desired` against `provider`. Two lookups
/// and at most one change more than there are records are ever needed.
pub open spec fn run(provider: Provider, desired: DesiredStateView, policy: NameMatch) -> Outcome {
    let (state, command) = initial(desired, policy);
    drive(provider, state, command, provider.records.len() + 3)
}

/// One command for each of `changes`, in their order.
pub open spec fn requests(changes: Seq<MutationView>) -> Seq<CommandView> {
    changes.map_values(|m: MutationView| CommandView::Apply(m))
}

/// The two lookups that every reconciliation begins with.
pub open spec fn lookups(provider: Provider, desired: DesiredStateView) -> Seq<CommandView> {
    seq![
        CommandView::ResolveZone { name: desired.zone_name },
        CommandView::ListRecords { zone_id: provider.zones[0].id },
    ]
}

} // verus!
