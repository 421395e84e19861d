//! The reconciler's commands as requests to this provider, and the
//! provider's answers as the reconciler's replies.

use crate::cloudflare::records::{
    create_record, creation_request, delete_record, deletion_request, get_all_records,
    listing_request, record_entries, record_entry_views, update_record, update_request, Record,
    RecordCreate, RecordCreateView,
};
use crate::cloudflare::zones::{get_zones, zone_entries, zone_entry_views, zones_request, Zone};
use crate::cloudflare::{Config, ConfigView, OnlyId, OnlyResult, Response, SingleResult};
use crate::error::{reported, Error, ErrorView, ProviderError, ResultResponseError};
use crate::http::{Request, RequestView};
use crate::plan::{
    record_views, zone_views, Mutation, MutationView, NameMatch, RecordEntry, ZoneEntry,
};
use crate::reconcile::{Command, CommandView, Reply, ReplyView};
use vstd::prelude::*;

verus! {

/// How this provider's record names are held against the wanted name. The
/// provider lists a record under its full name, which begins with the name
/// that the record was given.
pub fn name_match() -> (policy: NameMatch)
    ensures
        policy == NameMatch::Prefix,
{
    NameMatch::Prefix
}

/// The request that carries out `command`; none for the end of the
/// reconciliation. An update sends name, type and value and no time to
/// live, so it changes the record in part.
pub open spec fn request_of(config: ConfigView, command: CommandView) -> Option<
    RequestView<RecordCreateView>,
> {
    match command {
        CommandView::ResolveZone { name } => Some(zones_request(config, Some(name))),
        CommandView::ListRecords { zone_id } => Some(listing_request(config, zone_id)),
        CommandView::Apply(MutationView::Create { zone_id, name, record_type, value }) => Some(
            creation_request(config, name, record_type, value, zone_id),
        ),
        CommandView::Apply(
            MutationView::Update { zone_id, record_id, name, record_type, value },
        ) => Some(
            update_request(
                config,
                record_id,
                zone_id,
                Some(name),
                Some(record_type),
                Some(value),
                None,
            ),
        ),
        CommandView::Apply(MutationView::Delete { zone_id, record_id }) => Some(
            deletion_request(config, zone_id, record_id),
        ),
        CommandView::Finish(_) => None,
    }
}

/// Describes the request that carries out `command`.
pub fn request_for(config: &Config, command: &Command) -> (r: Option<Request<RecordCreate>>)
    ensures
        match r {
            Some(r) => request_of(config@, command@) == Some(r@),
            None => request_of(config@, command@) is None,
        },
{
    match command {
        Command::ResolveZone { name } => Some(get_zones(config, Some(name.as_str()))),
        Command::ListRecords { zone_id } => Some(get_all_records(config, zone_id.as_str())),
        Command::Apply(Mutation::Create { zone_id, name, record_type, value }) => Some(
            create_record(
                config,
                name.as_str(),
                record_type.as_str(),
                value.as_str(),
                zone_id.as_str(),
            ),
        ),
        Command::Apply(Mutation::Update { zone_id, record_id, name, record_type, value }) => Some(
            update_record(
                config,
                record_id.as_str(),
                zone_id.as_str(),
                Some(name.as_str()),
                Some(record_type.as_str()),
                Some(value.as_str()),
                None,
            ),
        ),
        Command::Apply(Mutation::Delete { zone_id, record_id }) => Some(
            delete_record(config, zone_id.as_str(), record_id.as_str()),
        ),
        Command::Finish(_) => None,
    }
}

/// The items of a listing; a listing without a result holds none.
pub open spec fn listed<T>(result: Option<Vec<T>>) -> Seq<T> {
    match result {
        Some(items) => items@,
        None => Seq::empty(),
    }
}

/// The reply to a zone lookup. A failed lookup is a failure, a refused one
/// a failure with the reported entries; otherwise the zones listed.
pub fn zones_reply(fetched: Result<Response<Zone>, ProviderError>) -> (reply: Reply)
    ensures
        reply@ == match fetched {
            Err(e) => ReplyView::Failed(ErrorView::Provider(e@)),
            Ok(response) => if response.success {
                ReplyView::Zones(zone_entry_views(listed(response.result)))
            } else {
                ReplyView::Failed(ErrorView::ApiLogic(reported(response.errors)))
            },
        },
{
    match fetched {
        Err(e) => Reply::Failed(Error::Provider(e)),
        Ok(response) => match response.check() {
            Err(e) => Reply::Failed(Error::ApiLogic(e)),
            Ok(response) => match response.result {
                Some(zones) => Reply::Zones(zone_entries(&zones)),
                None => {
                    let entries: Vec<ZoneEntry> = Vec::new();
                    assert(zone_views(entries@) =~= zone_entry_views(Seq::empty()));
                    Reply::Zones(entries)
                },
            },
        },
    }
}

/// The reply to a record listing. A failed listing is a failure, a refused
/// one a failure with the reported entries; otherwise the records listed.
pub fn records_reply(fetched: Result<Response<Record>, ProviderError>) -> (reply: Reply)
    ensures
        reply@ == match fetched {
            Err(e) => ReplyView::Failed(ErrorView::Provider(e@)),
            Ok(response) => if response.success {
                ReplyView::Records(record_entry_views(listed(response.result)))
            } else {
                ReplyView::Failed(ErrorView::ApiLogic(reported(response.errors)))
            },
        },
{
    match fetched {
        Err(e) => Reply::Failed(Error::Provider(e)),
        Ok(response) => match response.check() {
            Err(e) => Reply::Failed(Error::ApiLogic(e)),
            Ok(response) => match response.result {
                Some(records) => Reply::Records(record_entries(&records)),
                None => {
                    let entries: Vec<RecordEntry> = Vec::new();
                    assert(record_views(entries@) =~= record_entry_views(Seq::empty()));
                    Reply::Records(entries)
                },
            },
        },
    }
}

/// The reply to a creation. A request that failed is a failure, a refused
/// one a failure with the reported entries; otherwise the record was made.
pub fn creation_reply(fetched: Result<SingleResult<Record>, ProviderError>) -> (reply: Reply)
    ensures
        reply@ == match fetched {
            Err(e) => ReplyView::Failed(ErrorView::Provider(e@)),
            Ok(answer) => if answer.success {
                ReplyView::Done
            } else {
                ReplyView::Failed(ErrorView::ApiLogic(reported(answer.errors)))
            },
        },
{
    match fetched {
        Err(e) => Reply::Failed(Error::Provider(e)),
        Ok(answer) => match answer.check() {
            Err(e) => Reply::Failed(Error::ApiLogic(e)),
            Ok(_) => Reply::Done,
        },
    }
}

/// The reply to an update, and what the answer held against it. A request
/// that failed is a failure. An answer that arrived counts as the update
/// made, whatever it holds; where it reports a refusal, the refusal is
/// handed back beside the reply, for the caller to report.
pub fn update_reply(fetched: Result<SingleResult<Record>, ProviderError>) -> (r: (
    Reply,
    Option<ResultResponseError>,
))
    ensures
        match fetched {
            Err(e) => r.0@ == ReplyView::Failed(ErrorView::Provider(e@)) && r.1 is None,
            Ok(answer) => r.0@ == ReplyView::Done && if answer.success {
                r.1 is None
            } else {
                r.1 is Some && r.1->Some_0@ == reported(answer.errors)
            },
        },
{
    match fetched {
        Err(e) => (Reply::Failed(Error::Provider(e)), None),
        Ok(answer) => match answer.check() {
            Err(e) => (Reply::Done, Some(e)),
            Ok(_) => (Reply::Done, None),
        },
    }
}

/// The reply to a deletion. A request that failed is a failure; an answer
/// that arrived counts as the deletion made, whatever it holds.
pub fn deletion_reply(fetched: Result<OnlyResult<OnlyId>, ProviderError>) -> (reply: Reply)
    ensures
        reply@ == match fetched {
            Err(e) => ReplyView::Failed(ErrorView::Provider(e@)),
            Ok(_) => ReplyView::Done,
        },
{
    match fetched {
        Err(e) => Reply::Failed(Error::Provider(e)),
        Ok(_) => Reply::Done,
    }
}

} // verus!
