//! The reconciler as a state machine: in which order to ask the provider, and
//! what to do with each answer.
//!
//! The reconciler sends nothing itself. It hands out one [`Command`] at a
//! time; the caller carries it out and hands back a [`Reply`], until the
//! command is [`Command::Finish`].

use crate::error::{zone_not_found_text, Error, ErrorView, ProviderError, ProviderErrorView};
use crate::plan::{
    mutation_views, plan, planned, record_views, resolve_zone, zone_views, DesiredState,
    DesiredStateView, Mutation, MutationView, NameMatch, RecordEntry, RecordView, ZoneEntry,
    ZoneView,
};
use vstd::prelude::*;

verus! {

/// What the caller is asked to do next.
#[derive(Debug, PartialEq, Eq)]
pub enum Command {
    /// List the zones called `name`.
    ResolveZone { name: String },
    /// List all records of the zone `zone_id`.
    ListRecords { zone_id: String },
    /// Make one change.
    Apply(Mutation),
    /// Stop: the reconciliation is over, with this result.
    Finish(Result<(), Error>),
}

/// A [`Command`] as plain values.
pub enum CommandView {
    ResolveZone { name: Seq<char> },
    ListRecords { zone_id: Seq<char> },
    Apply(MutationView),
    Finish(Result<(), ErrorView>),
}

impl View for Command {
    type V = CommandView;

    open spec fn view(&self) -> CommandView {
        match self {
            Command::ResolveZone { name } => CommandView::ResolveZone { name: name@ },
            Command::ListRecords { zone_id } => CommandView::ListRecords { zone_id: zone_id@ },
            Command::Apply(m) => CommandView::Apply(m@),
            Command::Finish(Ok(())) => CommandView::Finish(Ok(())),
            Command::Finish(Err(e)) => CommandView::Finish(Err(e@)),
        }
    }
}

/// What came of the last command.
#[derive(Debug, PartialEq, Eq)]
pub enum Reply {
    /// The zones that the provider lists under the requested name.
    Zones(Vec<ZoneEntry>),
    /// All records of the requested zone.
    Records(Vec<RecordEntry>),
    /// The change was made.
    Done,
    /// The command failed.
    Failed(Error),
}

/// A [`Reply`] as plain values.
pub enum ReplyView {
    Zones(Seq<ZoneView>),
    Records(Seq<RecordView>),
    Done,
    Failed(ErrorView),
}

impl View for Reply {
    type V = ReplyView;

    open spec fn view(&self) -> ReplyView {
        match self {
            Reply::Zones(zones) => ReplyView::Zones(zone_views(zones@)),
            Reply::Records(records) => ReplyView::Records(record_views(records@)),
            Reply::Done => ReplyView::Done,
            Reply::Failed(e) => ReplyView::Failed(e@),
        }
    }
}

/// Where a reconciliation stands.
#[derive(Debug, PartialEq, Eq)]
pub enum Phase {
    /// The zone lookup is in flight.
    ResolvingZone,
    /// The record listing of the zone `zone_id` is in flight.
    ListingRecords { zone_id: String },
    /// A change is in flight; `pending` are the changes still to be asked for.
    Mutating { pending: Vec<Mutation> },
    /// Nothing is in flight and nothing is left to do.
    Finished,
}

/// A [`Phase`] as plain values.
pub enum PhaseView {
    ResolvingZone,
    ListingRecords { zone_id: Seq<char> },
    Mutating { pending: Seq<MutationView> },
    Finished,
}

impl View for Phase {
    type V = PhaseView;

    open spec fn view(&self) -> PhaseView {
        match self {
            Phase::ResolvingZone => PhaseView::ResolvingZone,
            Phase::ListingRecords { zone_id } => PhaseView::ListingRecords { zone_id: zone_id@ },
            Phase::Mutating { pending } => PhaseView::Mutating {
                pending: mutation_views(pending@),
            },
            Phase::Finished => PhaseView::Finished,
        }
    }
}

/// One reconciliation in progress.
#[derive(Debug, PartialEq, Eq)]
pub struct Reconciler {
    pub desired: DesiredState,
    pub policy: NameMatch,
    pub phase: Phase,
}

/// A [`Reconciler`] as plain values.
pub struct ReconcilerView {
    pub desired: DesiredStateView,
    pub policy: NameMatch,
    pub phase: PhaseView,
}

impl View for Reconciler {
    type V = ReconcilerView;

    open spec fn view(&self) -> ReconcilerView {
        ReconcilerView { desired: self.desired@, policy: self.policy, phase: self.phase@ }
    }
}

/// The state and the first command of a reconciliation towards `desired`.
pub open spec fn initial(desired: DesiredStateView, policy: NameMatch) -> (
    ReconcilerView,
    CommandView,
) {
    (
        ReconcilerView { desired, policy, phase: PhaseView::ResolvingZone },
        CommandView::ResolveZone { name: desired.zone_name },
    )
}

/// The reconciliation towards `desired` stops with `result`.
pub open spec fn finished(
    desired: DesiredStateView,
    policy: NameMatch,
    result: Result<(), ErrorView>,
) -> (ReconcilerView, CommandView) {
    (ReconcilerView { desired, policy, phase: PhaseView::Finished }, CommandView::Finish(result))
}

/// The error of an answer that does not belong to the command in flight.
pub open spec fn unexpected() -> ErrorView {
    ErrorView::Provider(ProviderErrorView::UnexpectedReply)
}

/// The first of `pending` is asked for and the rest is kept; with nothing
/// pending the reconciliation has succeeded.
pub open spec fn proceed(
    desired: DesiredStateView,
    policy: NameMatch,
    pending: Seq<MutationView>,
) -> (ReconcilerView, CommandView) {
    if pending.len() == 0 {
        finished(desired, policy, Ok(()))
    } else {
        (
            ReconcilerView {
                desired,
                policy,
                phase: PhaseView::Mutating { pending: pending.drop_first() },
            },
            CommandView::Apply(pending[0]),
        )
    }
}

/// The state after `reply`, and the next command.
///
/// A failure ends the reconciliation with that failure, whatever was in
/// flight. Of the zones listed the first one is taken; with none listed the
/// reconciliation ends with [`Error::ZoneNotFound`]. The record listing
/// decides the changes, which are then asked for one by one. An answer of
/// another kind than the command in flight asks for, or any answer once the
/// reconciliation is over, ends it with [`ProviderError::UnexpectedReply`].
pub open spec fn transition(state: ReconcilerView, reply: ReplyView) -> (
    ReconcilerView,
    CommandView,
) {
    let desired = state.desired;
    let policy = state.policy;
    match (state.phase, reply) {
        (PhaseView::Finished, _) => finished(desired, policy, Err(unexpected())),
        (_, ReplyView::Failed(e)) => finished(desired, policy, Err(e)),
        (PhaseView::ResolvingZone, ReplyView::Zones(zones)) => {
            if zones.len() == 0 {
                let message = zone_not_found_text(desired.zone_name);
                finished(desired, policy, Err(ErrorView::ZoneNotFound(message)))
            } else {
                let zone_id = zones[0].id;
                (
                    ReconcilerView { desired, policy, phase: PhaseView::ListingRecords { zone_id } },
                    CommandView::ListRecords { zone_id },
                )
            }
        },
        (PhaseView::ListingRecords { zone_id }, ReplyView::Records(records)) => proceed(
            desired,
            policy,
            planned(zone_id, records, desired, policy),
        ),
        (PhaseView::Mutating { pending }, ReplyView::Done) => proceed(desired, policy, pending),
        _ => finished(desired, policy, Err(unexpected())),
    }
}

impl Reconciler {
    /// Begins a reconciliation: the state, and the command to carry out first.
    pub fn start(desired: DesiredState, policy: NameMatch) -> (r: (Reconciler, Command))
        ensures
            (r.0@, r.1@) == initial(desired@, policy),
    {
        let name = desired.zone_name.clone();
        (Reconciler { desired, policy, phase: Phase::ResolvingZone }, Command::ResolveZone { name })
    }

    /// Whether the reconciliation is over.
    pub fn is_finished(&self) -> (b: bool)
        ensures
            b == (self@.phase is Finished),
    {
        match self.phase {
            Phase::Finished => true,
            _ => false,
        }
    }

    /// Takes the answer to the command in flight and gives the next command.
    pub fn step(self, reply: Reply) -> (r: (Reconciler, Command))
        ensures
            (r.0@, r.1@) == transition(self@, reply@),
    {
        let Reconciler { desired, policy, phase } = self;
        match (phase, reply) {
            (Phase::Finished, _) => finish(desired, policy, Err(unexpected_reply())),
            (_, Reply::Failed(e)) => finish(desired, policy, Err(e)),
            (Phase::ResolvingZone, Reply::Zones(zones)) => {
                match resolve_zone(desired.zone_name.as_str(), zones) {
                    Err(e) => finish(desired, policy, Err(e)),
                    Ok(zone) => {
                        let zone_id = zone.id;
                        let phase = Phase::ListingRecords { zone_id: zone_id.clone() };
                        (Reconciler { desired, policy, phase }, Command::ListRecords { zone_id })
                    },
                }
            },
            (Phase::ListingRecords { zone_id }, Reply::Records(records)) => {
                let pending = plan(zone_id.as_str(), &records, &desired, policy);
                issue(desired, policy, pending)
            },
            (Phase::Mutating { pending }, Reply::Done) => issue(desired, policy, pending),
            _ => finish(desired, policy, Err(unexpected_reply())),
        }
    }
}

fn unexpected_reply() -> (e: Error)
    ensures
        e@ == unexpected(),
{
    Error::Provider(ProviderError::UnexpectedReply)
}

fn finish(desired: DesiredState, policy: NameMatch, result: Result<(), Error>) -> (r: (
    Reconciler,
    Command,
))
    ensures
        (r.0@, r.1@) == finished(
            desired@,
            policy,
            match result {
                Ok(()) => Ok(()),
                Err(e) => Err(e@),
            },
        ),
{
    (Reconciler { desired, policy, phase: Phase::Finished }, Command::Finish(result))
}

fn issue(desired: DesiredState, policy: NameMatch, pending: Vec<Mutation>) -> (r: (
    Reconciler,
    Command,
))
    ensures
        (r.0@, r.1@) == proceed(desired@, policy, mutation_views(pending@)),
{
    let mut pending = pending;
    if pending.len() == 0 {
        finish(desired, policy, Ok(()))
    } else {
        let ghost before = mutation_views(pending@);
        let first = pending.remove(0);
        assert(mutation_views(pending@) =~= before.drop_first());
        (Reconciler { desired, policy, phase: Phase::Mutating { pending } }, Command::Apply(first))
    }
}

} // verus!
