//! What a whole reconciliation asks of the provider, and how it ends.

use crate::error::{zone_not_found_text, ErrorView};
use crate::model::changes::{
    lemma_applied_all_one, lemma_named_once, lemma_plan_keeps_distinct, lemma_plan_settles,
};
use crate::model::filtering::lemma_single_index;
use crate::model::{
    answer, applied_all, distinct_ids, drive, healthy, lookups, ready, requests, run, settled,
    unused_id, well_formed, Outcome, Provider,
};
use crate::plan::{
    creation, deletions, ids_of, is_wanted, matching, planned, replacement, DesiredStateView,
    MutationView, NameMatch, RecordView,
};
use crate::reconcile::{
    finished, proceed, transition, CommandView, PhaseView, ReconcilerView, ReplyView,
};
use vstd::prelude::*;

verus! {

proof fn lemma_drive_changes(
    provider: Provider,
    desired: DesiredStateView,
    policy: NameMatch,
    changes: Seq<MutationView>,
    fuel: nat,
)
    requires
        changes.len() > 0,
        fuel >= changes.len(),
    ensures
        drive(
            provider,
            ReconcilerView {
                desired,
                policy,
                phase: PhaseView::Mutating { pending: changes.drop_first() },
            },
            CommandView::Apply(changes[0]),
            fuel,
        ) == (Outcome {
            provider: Provider {
                records: applied_all(provider.records, changes, provider.fresh),
                ..provider
            },
            commands: requests(changes).push(CommandView::Finish(Ok(()))),
            result: Some(Ok(())),
        }),
    decreases changes.len(),
{
    let state = ReconcilerView {
        desired,
        policy,
        phase: PhaseView::Mutating { pending: changes.drop_first() },
    };
    let command = CommandView::Apply(changes[0]);
    let rest = changes.drop_first();
    let (after, reply) = answer(provider, command);
    let (next, following) = transition(state, reply);
    let tail = drive(after, next, following, (fuel - 1) as nat);
    assert((next, following) == proceed(desired, policy, rest));
    if rest.len() == 0 {
        // The last change: what follows is the end, in success.
        assert(tail.commands == seq![CommandView::Finish(Ok(()))]);
        assert(applied_all(after.records, rest, provider.fresh) == after.records);
    } else {
        lemma_drive_changes(after, desired, policy, rest, (fuel - 1) as nat);
    }
    assert(seq![command] + tail.commands =~= requests(changes).push(CommandView::Finish(Ok(()))));
}

/// Against a provider that answers every lookup, a reconciliation asks for
/// the two lookups, then for the planned changes in their order, and ends in
/// success; the provider is left with the records that those changes give.
pub proof fn lemma_run_carries_out_plan(
    provider: Provider,
    desired: DesiredStateView,
    policy: NameMatch,
)
    requires
        healthy(provider),
    ensures
        run(provider, desired, policy) == ({
            let changes = planned(provider.zones[0].id, provider.records, desired, policy);
            Outcome {
                provider: Provider {
                    records: applied_all(provider.records, changes, provider.fresh),
                    ..provider
                },
                commands: lookups(provider, desired) + requests(changes).push(
                    CommandView::Finish(Ok(())),
                ),
                result: Some(Ok(())),
            }
        }),
{
    let changes = planned(provider.zones[0].id, provider.records, desired, policy);
    reveal_with_fuel(drive, 2);
    lemma_drive_changes(provider, desired, policy, changes, provider.records.len() + 1);
    assert(run(provider, desired, policy).commands =~= lookups(provider, desired) + requests(
        changes,
    ).push(CommandView::Finish(Ok(()))));
}

/// Where no record counts as the wanted record, a reconciliation asks for
/// exactly one change, the creation of the wanted record, and for no
/// deletion.
pub proof fn lemma_creates_when_absent(
    provider: Provider,
    desired: DesiredStateView,
    policy: NameMatch,
)
    requires
        healthy(provider),
        matching(provider.records, policy, desired.record_name).len() == 0,
    ensures
        run(provider, desired, policy).commands == lookups(provider, desired) + seq![
            CommandView::Apply(creation(provider.zones[0].id, desired)),
            CommandView::Finish(Ok(())),
        ],
        run(provider, desired, policy).result == Some(Ok::<(), ErrorView>(())),
        run(provider, desired, policy).provider.records == provider.records.push(
            RecordView {
                id: provider.fresh,
                name: desired.record_name,
                record_type: desired.record_type,
                value: desired.value,
            },
        ),
{
    lemma_run_carries_out_plan(provider, desired, policy);
    lemma_applied_all_one(provider.records, creation(provider.zones[0].id, desired), provider.fresh);
}

/// Where exactly one record counts as the wanted record, a reconciliation
/// asks for exactly one change, an update addressed to that record, and for
/// no creation or deletion.
pub proof fn lemma_updates_when_single(
    provider: Provider,
    desired: DesiredStateView,
    policy: NameMatch,
)
    requires
        healthy(provider),
        matching(provider.records, policy, desired.record_name).len() == 1,
    ensures
        run(provider, desired, policy).commands == lookups(provider, desired) + seq![
            CommandView::Apply(
                replacement(
                    provider.zones[0].id,
                    matching(provider.records, policy, desired.record_name)[0].id,
                    desired,
                ),
            ),
            CommandView::Finish(Ok(())),
        ],
        run(provider, desired, policy).result == Some(Ok::<(), ErrorView>(())),
{
    lemma_run_carries_out_plan(provider, desired, policy);
}

/// Where several records count as the wanted record, a reconciliation asks
/// for the deletion of each of them, in the order of the listing, then for
/// one creation of the wanted record, and for nothing else.
pub proof fn lemma_collapses_duplicates(
    provider: Provider,
    desired: DesiredStateView,
    policy: NameMatch,
)
    requires
        healthy(provider),
        matching(provider.records, policy, desired.record_name).len() > 1,
    ensures
        run(provider, desired, policy).commands == lookups(provider, desired) + requests(
            deletions(
                provider.zones[0].id,
                ids_of(matching(provider.records, policy, desired.record_name)),
            ),
        ) + seq![
            CommandView::Apply(creation(provider.zones[0].id, desired)),
            CommandView::Finish(Ok(())),
        ],
        deletions(
            provider.zones[0].id,
            ids_of(matching(provider.records, policy, desired.record_name)),
        ).len() == matching(provider.records, policy, desired.record_name).len(),
        run(provider, desired, policy).result == Some(Ok::<(), ErrorView>(())),
{
    lemma_run_carries_out_plan(provider, desired, policy);
}

/// After a reconciliation, exactly one record counts as the wanted record,
/// and it holds the wanted name, type and value; so exactly one record is
/// called by the wanted name. A record that was the only match before keeps
/// its identity. The records can take a further reconciliation.
pub proof fn lemma_reconcile_settles(
    provider: Provider,
    desired: DesiredStateView,
    policy: NameMatch,
)
    requires
        healthy(provider),
        ready(provider.records, desired, policy, provider.fresh),
    ensures
        run(provider, desired, policy).result == Some(Ok::<(), ErrorView>(())),
        matching(run(provider, desired, policy).provider.records, policy, desired.record_name)
            == seq![settled(provider.records, desired, policy, provider.fresh)],
        matching(
            run(provider, desired, policy).provider.records,
            NameMatch::Exact,
            desired.record_name,
        ) == seq![settled(provider.records, desired, policy, provider.fresh)],
        healthy(run(provider, desired, policy).provider),
        ready(run(provider, desired, policy).provider.records, desired, policy, provider.fresh),
{
    lemma_run_carries_out_plan(provider, desired, policy);
    lemma_plan_settles(provider.zones[0].id, provider.records, desired, policy, provider.fresh);
    lemma_named_once(run(provider, desired, policy).provider.records, policy, desired.record_name);
}

/// A second reconciliation towards the same state, right after the first,
/// succeeds as the first did, and leaves exactly one record that is called
/// by the wanted name; it holds the wanted type and value.
pub proof fn lemma_reconcile_twice(
    provider: Provider,
    desired: DesiredStateView,
    policy: NameMatch,
)
    requires
        healthy(provider),
        unused_id(provider.records, provider.fresh),
    ensures
        ({
            let once = run(provider, desired, policy);
            let twice = run(once.provider, desired, policy);
            let named = matching(twice.provider.records, NameMatch::Exact, desired.record_name);
            &&& once.result == Some(Ok::<(), ErrorView>(()))
            &&& twice.result == Some(Ok::<(), ErrorView>(()))
            &&& named.len() == 1
            &&& named[0].name == desired.record_name
            &&& named[0].record_type == desired.record_type
            &&& named[0].value == desired.value
            &&& matching(twice.provider.records, policy, desired.record_name) == named
        }),
{
    let once = run(provider, desired, policy);
    let pred = is_wanted(policy, desired.record_name);
    lemma_run_carries_out_plan(provider, desired, policy);
    if ready(provider.records, desired, policy, provider.fresh) {
        lemma_reconcile_settles(provider, desired, policy);
    } else {
        // One record matched, and another shared its identity: the update
        // met both, so that several records match now.
        let matched = matching(provider.records, policy, desired.record_name);
        lemma_single_index(provider.records, pred);
        lemma_applied_all_one(
            provider.records,
            replacement(provider.zones[0].id, matched[0].id, desired),
            provider.fresh,
        );
        if matching(once.provider.records, policy, desired.record_name).len() == 1 {
            lemma_single_index(once.provider.records, pred);
        }
    }
    lemma_reconcile_settles(once.provider, desired, policy);
}

/// Where no two records share an identity, a second reconciliation towards
/// the same state leaves the records as the first one left them. All it
/// asks for is one update of the record that holds the wanted state.
pub proof fn lemma_second_run_changes_nothing(
    provider: Provider,
    desired: DesiredStateView,
    policy: NameMatch,
)
    requires
        healthy(provider),
        well_formed(provider),
    ensures
        ({
            let once = run(provider, desired, policy);
            let twice = run(once.provider, desired, policy);
            let kept = settled(provider.records, desired, policy, provider.fresh);
            &&& twice.provider.records == once.provider.records
            &&& distinct_ids(once.provider.records)
            &&& matching(twice.provider.records, policy, desired.record_name) == seq![kept]
            &&& twice.commands == lookups(provider, desired) + seq![
                CommandView::Apply(replacement(provider.zones[0].id, kept.id, desired)),
                CommandView::Finish(Ok(())),
            ]
        }),
{
    let once = run(provider, desired, policy);
    let twice = run(once.provider, desired, policy);
    let kept = settled(provider.records, desired, policy, provider.fresh);
    lemma_plan_keeps_distinct(
        provider.zones[0].id,
        provider.records,
        desired,
        policy,
        provider.fresh,
    );
    lemma_reconcile_settles(provider, desired, policy);
    lemma_run_carries_out_plan(provider, desired, policy);
    lemma_run_carries_out_plan(once.provider, desired, policy);
    lemma_applied_all_one(
        once.provider.records,
        replacement(provider.zones[0].id, kept.id, desired),
        once.provider.fresh,
    );
    // The update meets the one record that already holds the wanted state.
    lemma_single_index(once.provider.records, is_wanted(policy, desired.record_name));
    assert(twice.provider.records =~= once.provider.records);
}

/// A lookup that fails ends the reconciliation with that failure, and no
/// change is asked for: the provider is left as it was.
pub proof fn lemma_lookup_failure_changes_nothing(
    provider: Provider,
    desired: DesiredStateView,
    policy: NameMatch,
    e: ErrorView,
)
    requires
        provider.zone_fault == Some(e) || (provider.zone_fault is None && provider.zones.len() > 0
            && provider.list_fault == Some(e)),
    ensures
        run(provider, desired, policy).result == Some(Err::<(), ErrorView>(e)),
        run(provider, desired, policy).provider == provider,
        run(provider, desired, policy).commands == if provider.zone_fault is Some {
            seq![
                CommandView::ResolveZone { name: desired.zone_name },
                CommandView::Finish(Err(e)),
            ]
        } else {
            lookups(provider, desired).push(CommandView::Finish(Err(e)))
        },
{
    reveal_with_fuel(drive, 3);
}

/// Where the provider lists no zone under the wanted name, the
/// reconciliation ends with the zone reported as not found, and no record
/// is listed or changed.
pub proof fn lemma_zone_not_found(provider: Provider, desired: DesiredStateView, policy: NameMatch)
    requires
        provider.zone_fault is None,
        provider.zones.len() == 0,
    ensures
        ({
            let e = ErrorView::ZoneNotFound(zone_not_found_text(desired.zone_name));
            run(provider, desired, policy) == (Outcome {
                provider,
                commands: seq![
                    CommandView::ResolveZone { name: desired.zone_name },
                    CommandView::Finish(Err(e)),
                ],
                result: Some(Err(e)),
            })
        }),
{
    reveal_with_fuel(drive, 2);
    assert(run(provider, desired, policy).commands =~= seq![
        CommandView::ResolveZone { name: desired.zone_name },
        CommandView::Finish(Err(ErrorView::ZoneNotFound(zone_not_found_text(desired.zone_name)))),
    ]);
}

/// Whatever is in flight, a failure ends the reconciliation with that
/// failure, and nothing more is asked for.
pub proof fn lemma_failure_ends_reconciliation(state: ReconcilerView, e: ErrorView)
    requires
        !(state.phase is Finished),
    ensures
        transition(state, ReplyView::Failed(e)) == finished(state.desired, state.policy, Err(e)),
{
}

} // verus!
