//! What the planned changes do to the records of a zone.

use crate::model::filtering::{lemma_filter_nothing, lemma_filter_only, lemma_single_index};
use crate::model::{
    applied, applied_all, distinct_ids, match_stands_alone, ready, settled, unused_id,
};
use crate::plan::{
    creation, deletions, ids_of, is_wanted, matching, planned, replacement,
    DesiredStateView, MutationView, NameMatch, RecordView,
};
use vstd::prelude::*;

verus! {

proof fn lemma_filter_keeps(records: Seq<RecordView>, pred: spec_fn(RecordView) -> bool)
    ensures
        forall|i: int|
            0 <= i < records.filter(pred).len() ==> records.contains(
                #[trigger] records.filter(pred)[i],
            ) && pred(records.filter(pred)[i]),
        distinct_ids(records) ==> distinct_ids(records.filter(pred)),
    decreases records.len(),
{
    reveal(Seq::filter);
    if records.len() > 0 {
        let rest = records.drop_last();
        lemma_filter_keeps(rest, pred);
        // What is kept of the records is what is kept of all but the last,
        // and the last one where it passes the test.
        assert(records.filter(pred) == if pred(records.last()) {
            rest.filter(pred).push(records.last())
        } else {
            rest.filter(pred)
        });
    }
}

/// Changes made one after the other: the last one acts on what the others left.
pub proof fn lemma_applied_all_push(
    records: Seq<RecordView>,
    mutations: Seq<MutationView>,
    m: MutationView,
    fresh: Seq<char>,
)
    ensures
        applied_all(records, mutations.push(m), fresh) == applied(
            applied_all(records, mutations, fresh),
            m,
            fresh,
        ),
    decreases mutations.len(),
{
    let all = mutations.push(m);
    if mutations.len() == 0 {
        assert(applied_all(applied(records, m, fresh), all.drop_first(), fresh) == applied(
            records,
            m,
            fresh,
        ));
    } else {
        assert(all.drop_first() =~= mutations.drop_first().push(m));
        lemma_applied_all_push(applied(records, mutations[0], fresh), mutations.drop_first(), m, fresh);
    }
}

/// A single change made alone.
pub(crate) proof fn lemma_applied_all_one(records: Seq<RecordView>, m: MutationView, fresh: Seq<char>)
    ensures
        applied_all(records, seq![m], fresh) == applied(records, m, fresh),
{
    lemma_applied_all_push(records, Seq::empty(), m, fresh);
}

proof fn lemma_deletions_remove(
    zone_id: Seq<char>,
    records: Seq<RecordView>,
    ids: Seq<Seq<char>>,
    fresh: Seq<char>,
)
    ensures
        forall|i: int|
            #![trigger applied_all(records, deletions(zone_id, ids), fresh)[i]]
            0 <= i < applied_all(records, deletions(zone_id, ids), fresh).len() ==> {
                let r = applied_all(records, deletions(zone_id, ids), fresh)[i];
                records.contains(r) && !ids.contains(r.id)
            },
        distinct_ids(records) ==> distinct_ids(
            applied_all(records, deletions(zone_id, ids), fresh),
        ),
    decreases ids.len(),
{
    let changes = deletions(zone_id, ids);
    let after = applied_all(records, changes, fresh);
    if ids.len() > 0 {
        let pred = |r: RecordView| r.id != ids[0];
        let first = records.filter(pred);
        assert(changes.drop_first() =~= deletions(zone_id, ids.drop_first()));
        assert(after == applied_all(first, deletions(zone_id, ids.drop_first()), fresh));
        lemma_filter_keeps(records, pred);
        lemma_deletions_remove(zone_id, first, ids.drop_first(), fresh);
        assert forall|i: int| 0 <= i < after.len() implies records.contains(#[trigger] after[i])
            && !ids.contains(after[i].id) by {
            let r = after[i];
            if ids.contains(r.id) {
                let k = choose|k: int| 0 <= k < ids.len() && ids[k] == r.id;
                assert(ids.drop_first()[k - 1] == r.id);
            }
        }
    }
}

/// Where one record counts as the wanted record and is called exactly by
/// the wanted name, it is also the one record called by that name.
pub proof fn lemma_named_once(records: Seq<RecordView>, policy: NameMatch, wanted: Seq<char>)
    requires
        matching(records, policy, wanted).len() == 1,
        matching(records, policy, wanted)[0].name == wanted,
    ensures
        matching(records, NameMatch::Exact, wanted) == matching(records, policy, wanted),
{
    let k = lemma_single_index(records, is_wanted(policy, wanted));
    lemma_filter_only(records, is_wanted(NameMatch::Exact, wanted), k);
}

/// What the planned changes leave behind: of the records that count as the
/// wanted record exactly one, and it holds the wanted name, type and value.
/// Where one record matched before, it is that record, under the identity it
/// had. The record stands alone again, so the records can take the changes
/// of a second plan.
pub proof fn lemma_plan_settles(
    zone_id: Seq<char>,
    records: Seq<RecordView>,
    desired: DesiredStateView,
    policy: NameMatch,
    fresh: Seq<char>,
)
    requires
        ready(records, desired, policy, fresh),
    ensures
        matching(
            applied_all(records, planned(zone_id, records, desired, policy), fresh),
            policy,
            desired.record_name,
        ) == seq![settled(records, desired, policy, fresh)],
        match_stands_alone(
            applied_all(records, planned(zone_id, records, desired, policy), fresh),
            policy,
            desired.record_name,
        ),
{
    let pred = is_wanted(policy, desired.record_name);
    let matched = matching(records, policy, desired.record_name);
    let after = applied_all(records, planned(zone_id, records, desired, policy), fresh);
    let target = settled(records, desired, policy, fresh);
    if matched.len() == 0 {
        lemma_applied_all_one(records, creation(zone_id, desired), fresh);
        records.lemma_filter_push(target, pred);
    } else if matched.len() == 1 {
        let k = lemma_single_index(records, pred);
        lemma_applied_all_one(records, replacement(zone_id, matched[0].id, desired), fresh);
        lemma_filter_only(after, pred, k);
    } else {
        let ids = ids_of(matched);
        let left = applied_all(records, deletions(zone_id, ids), fresh);
        lemma_applied_all_push(records, deletions(zone_id, ids), creation(zone_id, desired), fresh);
        lemma_deletions_remove(zone_id, records, ids, fresh);
        assert forall|i: int| 0 <= i < left.len() implies !pred(#[trigger] left[i]) && left[i].id
            != fresh by {
            let r = left[i];
            let j = choose|j: int| 0 <= j < records.len() && records[j] == r;
            if pred(r) {
                records.lemma_filter_contains(pred, j);
                let m = choose|m: int| 0 <= m < matched.len() && matched[m] == r;
                assert(ids[m] == r.id);
            }
        }
        lemma_filter_nothing(left, pred);
        left.lemma_filter_push(target, pred);
    }
}

/// Records without a shared identity can take the planned changes, and are
/// without a shared identity afterwards.
pub proof fn lemma_plan_keeps_distinct(
    zone_id: Seq<char>,
    records: Seq<RecordView>,
    desired: DesiredStateView,
    policy: NameMatch,
    fresh: Seq<char>,
)
    requires
        distinct_ids(records),
        unused_id(records, fresh),
    ensures
        ready(records, desired, policy, fresh),
        distinct_ids(applied_all(records, planned(zone_id, records, desired, policy), fresh)),
{
    let pred = is_wanted(policy, desired.record_name);
    let matched = matching(records, policy, desired.record_name);
    if matched.len() == 0 {
        lemma_applied_all_one(records, creation(zone_id, desired), fresh);
    } else if matched.len() == 1 {
        lemma_single_index(records, pred);
        lemma_applied_all_one(records, replacement(zone_id, matched[0].id, desired), fresh);
    } else {
        let ids = ids_of(matched);
        lemma_applied_all_push(records, deletions(zone_id, ids), creation(zone_id, desired), fresh);
        lemma_deletions_remove(zone_id, records, ids, fresh);
    }
}

} // verus!
