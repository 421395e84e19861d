//! The reconciler's commands as requests to this provider, and the
//! provider's answers as the reconciler's replies.

use crate::error::{Error, ErrorView, ProviderError, ProviderErrorView};
use crate::hetzner::records::{
    create_record, creation_request, delete_record, deletion_request, get_all_records,
    listing_request, record_entries, record_entry_views, update_record, update_request,
    RecordCreate, RecordCreateView, Records,
};
use crate::hetzner::zones::{
    get_zones, zone_entries, zone_entry_views, zones_request, Zone, ZonesResponse,
};
use crate::hetzner::{Config, ConfigView};
use crate::http::{status_is_success, Request, RequestView};
use crate::plan::{zone_views, Mutation, MutationView, NameMatch, ZoneEntry};
use crate::reconcile::{Command, CommandView, Reply, ReplyView};
use vstd::prelude::*;

verus! {

/// How this provider's record names are held against the wanted name: a
/// record is listed under the name that it was given.
pub fn name_match() -> (policy: NameMatch)
    ensures
        policy == NameMatch::Exact,
{
    NameMatch::Exact
}

/// The request that carries out `command`; none for the end of the
/// reconciliation. An update replaces the record as a whole.
pub open spec fn request_of(config: ConfigView, command: CommandView) -> Option<
    RequestView<RecordCreateView>,
> {
    match command {
        CommandView::ResolveZone { name } => Some(zones_request(config, Some(name))),
        CommandView::ListRecords { zone_id } => Some(listing_request(config, zone_id)),
        CommandView::Apply(MutationView::Create { zone_id, name, record_type, value }) => Some(
            creation_request(config, name, record_type, value, zone_id),
        ),
        CommandView::Apply(
            MutationView::Update { zone_id, record_id, name, record_type, value },
        ) => Some(update_request(config, record_id, name, record_type, value, zone_id)),
        CommandView::Apply(MutationView::Delete { zone_id, record_id }) => Some(
            deletion_request(config, record_id),
        ),
        CommandView::Finish(_) => None,
    }
}

/// Describes the request that carries out `command`.
pub fn request_for(config: &Config, command: &Command) -> (r: Option<Request<RecordCreate>>)
    ensures
        match r {
            Some(r) => request_of(config@, command@) == Some(r@),
            None => request_of(config@, command@) is None,
        },
{
    match command {
        Command::ResolveZone { name } => Some(get_zones(config, Some(name.as_str()))),
        Command::ListRecords { zone_id } => Some(get_all_records(config, zone_id.as_str())),
        Command::Apply(Mutation::Create { zone_id, name, record_type, value }) => Some(
            create_record(
                config,
                name.as_str(),
                record_type.as_str(),
                value.as_str(),
                zone_id.as_str(),
            ),
        ),
        Command::Apply(Mutation::Update { zone_id, record_id, name, record_type, value }) => Some(
            update_record(
                config,
                record_id.as_str(),
                name.as_str(),
                record_type.as_str(),
                value.as_str(),
                zone_id.as_str(),
            ),
        ),
        Command::Apply(Mutation::Delete { zone_id, record_id }) => Some(
            delete_record(config, record_id.as_str()),
        ),
        Command::Finish(_) => None,
    }
}

/// The zones of an answer; an answer without a list holds none.
pub open spec fn listed(zones: Option<Vec<Zone>>) -> Seq<Zone> {
    match zones {
        Some(zones) => zones@,
        None => Seq::empty(),
    }
}

/// The reply to a zone lookup: a failure where the lookup failed,
/// otherwise the zones listed.
pub fn zones_reply(fetched: Result<ZonesResponse, ProviderError>) -> (reply: Reply)
    ensures
        reply@ == match fetched {
            Err(e) => ReplyView::Failed(ErrorView::Provider(e@)),
            Ok(response) => ReplyView::Zones(zone_entry_views(listed(response.zones))),
        },
{
    match fetched {
        Err(e) => Reply::Failed(Error::Provider(e)),
        Ok(response) => match response.zones {
            Some(zones) => Reply::Zones(zone_entries(&zones)),
            None => {
                let entries: Vec<ZoneEntry> = Vec::new();
                assert(zone_views(entries@) =~= zone_entry_views(Seq::empty()));
                Reply::Zones(entries)
            },
        },
    }
}

/// The reply to a record listing: a failure where the listing failed,
/// otherwise the records listed.
pub fn records_reply(fetched: Result<Records, ProviderError>) -> (reply: Reply)
    ensures
        reply@ == match fetched {
            Err(e) => ReplyView::Failed(ErrorView::Provider(e@)),
            Ok(listing) => ReplyView::Records(record_entry_views(listing.records@)),
        },
{
    match fetched {
        Err(e) => Reply::Failed(Error::Provider(e)),
        Ok(listing) => Reply::Records(record_entries(&listing.records)),
    }
}

/// The reply to a creation, a replacement or a deletion, of which only the
/// status is read: a failure where the request failed or the status lies
/// outside 200..=299, otherwise the change was made.
pub fn change_reply(sent: Result<u16, ProviderError>) -> (reply: Reply)
    ensures
        reply@ == match sent {
            Err(e) => ReplyView::Failed(ErrorView::Provider(e@)),
            Ok(status) => if 200 <= status < 300 {
                ReplyView::Done
            } else {
                ReplyView::Failed(ErrorView::Provider(ProviderErrorView::Status(status as int)))
            },
        },
{
    match sent {
        Err(e) => Reply::Failed(Error::Provider(e)),
        Ok(status) => if status_is_success(status) {
            Reply::Done
        } else {
            Reply::Failed(Error::Provider(ProviderError::Status(status)))
        },
    }
}

} // verus!
