//! Cloudflare: authentication by key and account e-mail, answers wrapped in
//! an envelope that carries a success flag and error entries.

pub mod adapter;
pub mod records;
pub mod zones;

use crate::cloudflare::adapter::name_match;
use crate::cloudflare::records::{
    delete_record, deletion_request, get_all_records, listing_request, record_entries,
    record_entry_views, Record, RecordCreate, RecordCreateView,
};
use crate::cloudflare::zones::Zone;
use crate::error::{
    reported, zone_not_found_text, ConfigError, Error, ErrorView, ProviderError, ResponseError,
    ResultResponseError,
};
use crate::http::{request_views, Method, Request, RequestView};
use crate::plan::{
    ids_of, matching, matching_ids, resolve_zone, DesiredState, DesiredStateView, NameMatch,
};
use crate::reconcile::{initial, Command, Reconciler};
use vstd::prelude::*;
use vstd::string::*;

verus! {

/// The envelope of a listing: the success flag, the entries that explain a
/// refusal, free messages, and the items listed.
#[derive(Debug, PartialEq, Eq)]
pub struct Response<T> {
    pub success: bool,
    pub errors: Option<Vec<ResponseError>>,
    pub messages: Option<Vec<String>>,
    pub result: Option<Vec<T>>,
}

/// The envelope of an answer that holds one item.
#[derive(Debug, PartialEq, Eq)]
pub struct SingleResult<T> {
    pub success: bool,
    pub result: Option<T>,
    pub errors: Option<Vec<ResponseError>>,
}

/// An answer that holds a result and nothing else.
#[derive(Debug, PartialEq, Eq)]
pub struct OnlyResult<T> {
    pub result: T,
}

/// The identity of the item that a request acted on.
#[derive(Debug, PartialEq, Eq)]
pub struct OnlyId {
    pub id: String,
}

impl<T> Response<T> {
    /// Holds the envelope to its success flag: a successful one is handed
    /// back as it is, a refused one becomes the error with its entries.
    pub fn check(self) -> (r: Result<Response<T>, ResultResponseError>)
        ensures
            self.success ==> r == Ok::<Response<T>, ResultResponseError>(self),
            !self.success ==> r is Err && r->Err_0@ == reported(self.errors),
    {
        if self.success {
            Ok(self)
        } else {
            Err(ResultResponseError::new(self.errors))
        }
    }
}

impl<T> SingleResult<T> {
    /// Holds the envelope to its success flag: a successful one is handed
    /// back as it is, a refused one becomes the error with its entries.
    pub fn check(self) -> (r: Result<SingleResult<T>, ResultResponseError>)
        ensures
            self.success ==> r == Ok::<SingleResult<T>, ResultResponseError>(self),
            !self.success ==> r is Err && r->Err_0@ == reported(self.errors),
    {
        if self.success {
            Ok(self)
        } else {
            Err(ResultResponseError::new(self.errors))
        }
    }
}

/// Where the interface is reached, and the credentials of the account.
#[derive(Debug, PartialEq, Eq)]
pub struct Config {
    pub base_url: String,
    pub key: String,
    pub email: String,
}

/// A [`Config`] as plain values.
pub struct ConfigView {
    pub base_url: Seq<char>,
    pub key: Seq<char>,
    pub email: Seq<char>,
}

impl View for Config {
    type V = ConfigView;

    open spec fn view(&self) -> ConfigView {
        ConfigView { base_url: self.base_url@, key: self.key@, email: self.email@ }
    }
}

impl Config {
    /// The public interface, with the credentials given.
    pub fn new(key: &str, email: &str) -> (c: Self)
        ensures
            c@ == (ConfigView {
                base_url: "https://api.cloudflare.com/client/v4"@,
                key: key@,
                email: email@,
            }),
    {
        Config {
            base_url: String::from_str("https://api.cloudflare.com/client/v4"),
            key: String::from_str(key),
            email: String::from_str(email),
        }
    }
}

impl Config {
    /// The public interface with the credentials that the environment gave;
    /// an error where the key or the e-mail is missing.
    pub fn from_env(key: Option<String>, email: Option<String>) -> (r: Result<Config, ConfigError>)
        ensures
            match r {
                Ok(c) => key is Some && email is Some && c@ == (ConfigView {
                    base_url: "https://api.cloudflare.com/client/v4"@,
                    key: key->Some_0@,
                    email: email->Some_0@,
                }),
                Err(e) => e == ConfigError::MissingCredential && (key is None || email is None),
            },
    {
        match (key, email) {
            (Some(key), Some(email)) => Ok(Config::new(key.as_str(), email.as_str())),
            _ => Err(ConfigError::MissingCredential),
        }
    }
}

/// The request that every call starts from: the address of `path` under the
/// base address, the two credential headers and the content type.
pub open spec fn client_request(config: ConfigView, path: Seq<char>, method: Method) -> RequestView<
    RecordCreateView,
> {
    RequestView {
        method,
        url: config.base_url + "/"@ + path,
        headers: seq![
            ("X-Auth-Key"@, config.key),
            ("X-Auth-Email"@, config.email),
            ("Content-Type"@, "application/json"@),
        ],
        query: Seq::empty(),
        body: None,
    }
}

/// Begins a request to `path` with the account's credentials.
pub fn cloudflare_client(config: &Config, path: &str, method: Method) -> (r: Request<RecordCreate>)
    ensures
        r@ == client_request(config@, path@, method),
{
    let mut url = config.base_url.clone();
    url.append("/");
    url.append(path);
    let r = Request::new(method, url).header("X-Auth-Key", config.key.as_str()).header(
        "X-Auth-Email",
        config.email.as_str(),
    ).header("Content-Type", "application/json");
    assert(r@.headers =~= client_request(config@, path@, method).headers);
    r
}

/// Resolves a zone name from the provider's listing under that name.
///
/// A failed lookup is handed on, a refused one becomes
/// [`Error::ApiLogic`] with the reported entries. Of the zones listed the
/// first is the answer; where none is listed the zone is not found.
pub fn get_zone_by_name(name: &str, fetched: Result<Response<Zone>, ProviderError>) -> (r: Result<
    Zone,
    Error,
>)
    ensures
        match fetched {
            Err(e) => r == Err::<Zone, Error>(Error::Provider(e)),
            Ok(response) => if !response.success {
                r is Err && r->Err_0@ == ErrorView::ApiLogic(reported(response.errors))
            } else if response.result is Some && response.result->Some_0@.len() > 0 {
                r == Ok::<Zone, Error>(response.result->Some_0@[0])
            } else {
                r is Err && r->Err_0@ == ErrorView::ZoneNotFound(zone_not_found_text(name@))
            },
        },
{
    match fetched {
        Err(e) => Err(Error::Provider(e)),
        Ok(response) => match response.check() {
            Err(e) => Err(Error::ApiLogic(e)),
            Ok(response) => {
                let zones = match response.result {
                    None => Vec::new(),
                    Some(zones) => zones,
                };
                resolve_zone(name, zones)
            },
        },
    }
}

/// Resolves a zone name as [`get_zone_by_name`] does, and describes the
/// request that lists all records of that zone.
pub fn get_all_records_by_name(
    config: &Config,
    zone_name: &str,
    fetched: Result<Response<Zone>, ProviderError>,
) -> (r: Result<Request<RecordCreate>, Error>)
    ensures
        match fetched {
            Err(e) => r == Err::<Request<RecordCreate>, Error>(Error::Provider(e)),
            Ok(response) => if !response.success {
                r is Err && r->Err_0@ == ErrorView::ApiLogic(reported(response.errors))
            } else if response.result is Some && response.result->Some_0@.len() > 0 {
                r is Ok && r->Ok_0@ == listing_request(config@, response.result->Some_0@[0].id@)
            } else {
                r is Err && r->Err_0@ == ErrorView::ZoneNotFound(zone_not_found_text(zone_name@))
            },
        },
{
    match get_zone_by_name(zone_name, fetched) {
        Ok(zone) => Ok(get_all_records(config, zone.id.as_str())),
        Err(e) => Err(e),
    }
}

/// Describes the requests that delete every record called exactly
/// `record_name`, one request for each, in the order of the listing.
pub fn delete_records_by_name(
    config: &Config,
    zone_id: &str,
    records: &Vec<Record>,
    record_name: &str,
) -> (requests: Vec<Request<RecordCreate>>)
    ensures
        request_views(requests@) == ids_of(
            matching(record_entry_views(records@), NameMatch::Exact, record_name@),
        ).map_values(|id: Seq<char>| deletion_request(config@, zone_id@, id)),
{
    let entries = record_entries(records);
    let ids = matching_ids(&entries, NameMatch::Exact, record_name);
    let mut requests: Vec<Request<RecordCreate>> = Vec::new();
    let mut i: usize = 0;
    while i < ids.len()
        invariant
            i <= ids.len(),
            requests@.len() == i,
            forall|j: int|
                0 <= j < i ==> (#[trigger] requests@[j])@ == deletion_request(
                    config@,
                    zone_id@,
                    ids@[j]@,
                ),
        decreases ids.len() - i,
    {
        requests.push(delete_record(config, zone_id, ids[i].as_str()));
        i = i + 1;
    }
    requests
}

/// Begins the reconciliation that leaves exactly one record for
/// `record_name` in the zone `zone_name`, of type `record_type` and with
/// the value `value`. Record names are matched as this provider needs it.
pub fn create_update_record(zone_name: &str, record_name: &str, value: &str, record_type: &str) -> (r:
    (Reconciler, Command))
    ensures
        (r.0@, r.1@) == initial(
            DesiredStateView {
                zone_name: zone_name@,
                record_name: record_name@,
                record_type: record_type@,
                value: value@,
            },
            NameMatch::Prefix,
        ),
{
    Reconciler::start(DesiredState::new(zone_name, record_name, value, record_type), name_match())
}

} // verus!
