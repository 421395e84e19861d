//! Hetzner: authentication by token, bare answers without a success flag;
//! a failure shows in the status of the answer alone.

pub mod adapter;
pub mod records;
pub mod zones;

use crate::error::{zone_not_found_text, ConfigError, Error, ErrorView, ProviderError};
use crate::hetzner::adapter::name_match;
use crate::hetzner::records::{
    delete_record, deletion_request, get_all_records, listing_request, record_entries,
    record_entry_views, Record, RecordCreate, RecordCreateView,
};
use crate::hetzner::zones::{Zone, ZonesResponse};
use crate::http::{request_views, status_is_success, Method, Request, RequestView};
use crate::plan::{
    ids_of, matching, matching_ids, resolve_zone, DesiredState, DesiredStateView, NameMatch,
};
use crate::reconcile::{initial, Command, Reconciler};
use vstd::prelude::*;
use vstd::string::*;

verus! {

/// Where the interface is reached, and the token of the account.
#[derive(Debug, PartialEq, Eq)]
pub struct Config {
    pub base_url: String,
    pub token: String,
}

/// A [`Config`] as plain values.
pub struct ConfigView {
    pub base_url: Seq<char>,
    pub token: Seq<char>,
}

impl View for Config {
    type V = ConfigView;

    open spec fn view(&self) -> ConfigView {
        ConfigView { base_url: self.base_url@, token: self.token@ }
    }
}

impl Config {
    /// The public interface, with the token given.
    pub fn new(token: &str) -> (c: Self)
        ensures
            c@ == (ConfigView { base_url: "https://dns.hetzner.com/api/v1"@, token: token@ }),
    {
        Config {
            base_url: String::from_str("https://dns.hetzner.com/api/v1"),
            token: String::from_str(token),
        }
    }
}

impl Config {
    /// The public interface with the token that the environment gave; an
    /// error where it is missing.
    pub fn from_env(token: Option<String>) -> (r: Result<Config, ConfigError>)
        ensures
            match r {
                Ok(c) => token is Some && c@ == (ConfigView {
                    base_url: "https://dns.hetzner.com/api/v1"@,
                    token: token->Some_0@,
                }),
                Err(e) => e == ConfigError::MissingCredential && token is None,
            },
    {
        match token {
            Some(token) => Ok(Config::new(token.as_str())),
            None => Err(ConfigError::MissingCredential),
        }
    }
}

/// The request that every call starts from: the address of `path` under the
/// base address, and the token header.
pub open spec fn client_request(config: ConfigView, path: Seq<char>, method: Method) -> RequestView<
    RecordCreateView,
> {
    RequestView {
        method,
        url: config.base_url + "/"@ + path,
        headers: seq![("Auth-API-Token"@, config.token)],
        query: Seq::empty(),
        body: None,
    }
}

/// Begins a request to `path` with the account's token.
pub fn hetzner_client(config: &Config, path: &str, method: Method) -> (r: Request<RecordCreate>)
    ensures
        r@ == client_request(config@, path@, method),
{
    let mut url = config.base_url.clone();
    url.append("/");
    url.append(path);
    let r = Request::new(method, url).header("Auth-API-Token", config.token.as_str());
    r
}

/// Holds an answer to its status: outside 200..=299 the status is the
/// error, whatever the body held; inside, what came of reading the body
/// stands.
pub fn with_status<T>(status: u16, body: Result<T, ProviderError>) -> (r: Result<T, ProviderError>)
    ensures
        200 <= status < 300 ==> r == body,
        !(200 <= status < 300) ==> r == Err::<T, ProviderError>(ProviderError::Status(status)),
{
    if status_is_success(status) {
        body
    } else {
        Err(ProviderError::Status(status))
    }
}

/// Resolves a zone name from the provider's listing under that name.
///
/// A failed lookup is handed on. Of the zones listed the first is the
/// answer; where none is listed the zone is not found.
pub fn get_zone_by_name(name: &str, fetched: Result<ZonesResponse, ProviderError>) -> (r: Result<
    Zone,
    Error,
>)
    ensures
        match fetched {
            Err(e) => r == Err::<Zone, Error>(Error::Provider(e)),
            Ok(response) => if response.zones is Some && response.zones->Some_0@.len() > 0 {
                r == Ok::<Zone, Error>(response.zones->Some_0@[0])
            } else {
                r is Err && r->Err_0@ == ErrorView::ZoneNotFound(zone_not_found_text(name@))
            },
        },
{
    match fetched {
        Err(e) => Err(Error::Provider(e)),
        Ok(response) => {
            let zones = match response.zones {
                None => Vec::new(),
                Some(zones) => zones,
            };
            resolve_zone(name, zones)
        },
    }
}

/// Resolves a zone name as [`get_zone_by_name`] does, and describes the
/// request that lists all records of that zone.
pub fn get_all_records_by_name(
    config: &Config,
    zone_name: &str,
    fetched: Result<ZonesResponse, ProviderError>,
) -> (r: Result<Request<RecordCreate>, Error>)
    ensures
        match fetched {
            Err(e) => r == Err::<Request<RecordCreate>, Error>(Error::Provider(e)),
            Ok(response) => if response.zones is Some && response.zones->Some_0@.len() > 0 {
                r is Ok && r->Ok_0@ == listing_request(config@, response.zones->Some_0@[0].id@)
            } else {
                r is Err && r->Err_0@ == ErrorView::ZoneNotFound(zone_not_found_text(zone_name@))
            },
        },
{
    match get_zone_by_name(zone_name, fetched) {
        Ok(zone) => Ok(get_all_records(config, zone.id.as_str())),
        Err(e) => Err(e),
    }
}

/// Describes the requests that delete every record called exactly
/// `record_name`, one request for each, in the order of the listing.
pub fn delete_records_by_name(config: &Config, records: &Vec<Record>, record_name: &str) -> (requests:
    Vec<Request<RecordCreate>>)
    ensures
        request_views(requests@) == ids_of(
            matching(record_entry_views(records@), NameMatch::Exact, record_name@),
        ).map_values(|id: Seq<char>| deletion_request(config@, id)),
{
    let entries = record_entries(records);
    let ids = matching_ids(&entries, NameMatch::Exact, record_name);
    let mut requests: Vec<Request<RecordCreate>> = Vec::new();
    let mut i: usize = 0;
    while i < ids.len()
        invariant
            i <= ids.len(),
            requests@.len() == i,
            forall|j: int|
                0 <= j < i ==> (#[trigger] requests@[j])@ == deletion_request(config@, ids@[j]@),
        decreases ids.len() - i,
    {
        requests.push(delete_record(config, ids[i].as_str()));
        i = i + 1;
    }
    requests
}

/// Begins the reconciliation that leaves exactly one record called
/// `record_name` in the zone `zone_name`, of type `record_type` and with
/// the value `value`.
pub fn create_update_record(zone_name: &str, record_name: &str, value: &str, record_type: &str) -> (r:
    (Reconciler, Command))
    ensures
        (r.0@, r.1@) == initial(
            DesiredStateView {
                zone_name: zone_name@,
                record_name: record_name@,
                record_type: record_type@,
                value: value@,
            },
            NameMatch::Exact,
        ),
{
    Reconciler::start(DesiredState::new(zone_name, record_name, value, record_type), name_match())
}

} // verus!
