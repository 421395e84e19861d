use dns_ip_sync::cloudflare::adapter::{
    creation_reply, deletion_reply, name_match, records_reply, request_for, update_reply, zones_reply,
};
use dns_ip_sync::cloudflare::records::{
    create_record, delete_record, get_all_records, update_record, Record, RecordCreate,
};
use dns_ip_sync::cloudflare::zones::{get_zones, Zone};
use dns_ip_sync::cloudflare::{
    cloudflare_client, create_update_record, delete_records_by_name, get_all_records_by_name,
    get_zone_by_name, Config, OnlyId, OnlyResult, Response, SingleResult,
};
use dns_ip_sync::error::{ConfigError, Error, ProviderError, ResponseError, ResultError, ResultResponseError};
use dns_ip_sync::http::{Method, Pair, Request};
use dns_ip_sync::plan::{Mutation, NameMatch, RecordEntry, ZoneEntry};
use dns_ip_sync::reconcile::{Command, Reply};

fn config() -> Config {
    Config { base_url: "http://127.0.0.1:1234".to_string(), key: "k".to_string(), email: "e@x".to_string() }
}

fn pair(name: &str, value: &str) -> Pair {
    Pair { name: name.to_string(), value: value.to_string() }
}

fn headers() -> Vec<Pair> {
    vec![pair("X-Auth-Key", "k"), pair("X-Auth-Email", "e@x"), pair("Content-Type", "application/json")]
}

fn request(method: Method, path: &str) -> Request<RecordCreate> {
    Request {
        method,
        url: format!("http://127.0.0.1:1234/{}", path),
        headers: headers(),
        query: Vec::new(),
        body: None,
    }
}

fn zone(id: &str, name: &str) -> Zone {
    Zone {
        id: id.to_string(),
        name: name.to_string(),
        development_mode: 1,
        original_registrar: None,
        original_dnshost: None,
        original_name_servers: None,
        name_servers: vec!["example.ns.com".to_string()],
        permissions: vec!["read".to_string(), "write".to_string()],
        owner: None,
        account: None,
        created_on: "20.05.2021".to_string(),
        modified_on: "20.05.2021".to_string(),
        activated_on: "20.05.2021".to_string(),
        zone_type: "full".to_string(),
        status: "active".to_string(),
        paused: false,
    }
}

fn record(id: &str, name: &str, record_type: &str, content: &str) -> Record {
    Record {
        id: id.to_string(),
        record_type: record_type.to_string(),
        name: name.to_string(),
        content: content.to_string(),
        proxiable: Some(false),
        proxied: Some(false),
        ttl: 3600,
        locked: false,
        zone_id: "1-1-1-1".to_string(),
        zone_name: "example.com".to_string(),
        created_on: "20.05.2021".to_string(),
        modified_on: "20.05.2021".to_string(),
    }
}

fn listing<T>(items: Vec<T>) -> Response<T> {
    Response { success: true, errors: None, messages: None, result: Some(items) }
}

fn refusal<T>(code: i32, message: &str) -> Response<T> {
    Response {
        success: false,
        errors: Some(vec![ResponseError { code, message: message.to_string() }]),
        messages: None,
        result: None,
    }
}

fn refused(code: i32, message: &str) -> ResultResponseError {
    ResultResponseError { errors: vec![ResponseError { code, message: message.to_string() }] }
}

#[test]
fn test_get_zones_successfully() {
    let sent = get_zones(&config(), None);
    assert_eq!(sent, request(Method::Get, "zones"));
    let zones = listing(vec![zone("1-1-1-1", "example.com")]).check().unwrap();
    assert!(zones.success);
    assert!(zones.result.is_some());
    let zones = zones.result.unwrap();
    assert_eq!(1, zones.len());
    assert_eq!("example.com", zones[0].name.as_str());
}

#[test]
fn test_get_zones_status_is_false() {
    let result = refusal::<Zone>(1074, "Could not find a valid zone.").check();
    assert!(result.is_err());
    let error = result.err();
    assert!(error.is_some());
    let error = error.unwrap();
    assert_eq!(1, error.errors.len());
    assert_eq!("There is an error:\n1074: Could not find a valid zone.", error.to_string());
}

#[test]
fn test_get_all_records() {
    let sent = get_all_records(&config(), "1-1-1-1");
    assert_eq!(sent, request(Method::Get, "zones/1-1-1-1/dns_records"));
    let records = listing(vec![record("1-1-1-1", "test", "test", "example.com")]).check();
    let expected = record("1-1-1-1", "test", "test", "example.com");
    assert!(records.is_ok());
    let records = records.unwrap();
    assert!(records.result.is_some());
    let records = records.result.unwrap();
    assert_eq!(records.len(), 1);
    let listed = records.first().unwrap();
    assert_eq!(listed.id, expected.id);
    assert_eq!(listed.content, expected.content);
    assert_eq!(listed.created_on, expected.created_on);
    assert_eq!(listed.ttl, expected.ttl);
    assert_eq!(listed.record_type, expected.record_type);
}

#[test]
fn test_get_all_records_with_error_data() {
    let records = refusal::<Record>(1, "Error happened!").check();
    assert!(records.is_err());
    let error = records.err();
    assert!(error.is_some());
    let error = error.unwrap();
    assert_eq!(1, error.errors.len());
    assert_eq!("There is an error:\n1: Error happened!", error.to_string());
}

#[test]
fn refusal_without_entries_reports_none() {
    let response: Response<Zone> = Response { success: false, errors: None, messages: None, result: None };
    assert_eq!(response.check(), Err(ResultResponseError { errors: Vec::new() }));
    let single: SingleResult<Record> = SingleResult { success: false, result: None, errors: None };
    assert_eq!(single.check(), Err(ResultResponseError { errors: Vec::new() }));
}

#[test]
fn successful_single_result_is_handed_back() {
    let single = SingleResult { success: true, result: Some(record("r", "n", "A", "v")), errors: None };
    let checked = single.check().unwrap();
    assert_eq!(checked.result.unwrap().id, "r");
    let refused_single: SingleResult<Record> = SingleResult {
        success: false,
        result: None,
        errors: Some(vec![ResponseError { code: 81057, message: "Record already exists.".to_string() }]),
    };
    assert_eq!(refused_single.check(), Err(refused(81057, "Record already exists.")));
}

#[test]
fn cloudflare_client_sets_address_and_headers() {
    let production = Config::new("key", "mail@example.com");
    assert_eq!(production.base_url, "https://api.cloudflare.com/client/v4");
    let r = cloudflare_client(&production, "zones", Method::Get);
    assert_eq!(r.method, Method::Get);
    assert_eq!(r.url, "https://api.cloudflare.com/client/v4/zones");
    assert_eq!(
        r.headers,
        vec![
            pair("X-Auth-Key", "key"),
            pair("X-Auth-Email", "mail@example.com"),
            pair("Content-Type", "application/json"),
        ]
    );
    assert!(r.query.is_empty());
    assert!(r.body.is_none());
}

#[test]
fn credentials_must_both_be_there() {
    let c = Config::from_env(Some("k".to_string()), Some("e".to_string())).unwrap();
    assert_eq!(c, Config::new("k", "e"));
    assert_eq!(Config::from_env(None, Some("e".to_string())), Err(ConfigError::MissingCredential));
    assert_eq!(Config::from_env(Some("k".to_string()), None), Err(ConfigError::MissingCredential));
    assert_eq!(Config::from_env(None, None), Err(ConfigError::MissingCredential));
}

#[test]
fn cloudflare_zone_listing_filters_by_name() {
    let mut expected = request(Method::Get, "zones");
    expected.query = vec![pair("name", "example.com")];
    assert_eq!(get_zones(&config(), Some("example.com")), expected);
}

#[test]
fn creation_posts_the_fields_without_ttl() {
    let mut expected = request(Method::Post, "zones/z9/dns_records");
    expected.body = Some(RecordCreate {
        record_type: Some("A".to_string()),
        name: Some("home".to_string()),
        content: Some("2.2.2.2".to_string()),
        ttl: None,
    });
    assert_eq!(create_record(&config(), "home", "A", "2.2.2.2", "z9"), expected);
}

#[test]
fn deletion_addresses_the_record() {
    assert_eq!(delete_record(&config(), "z9", "r7"), request(Method::Delete, "zones/z9/dns_records/r7"));
}

#[test]
fn update_replaces_only_when_every_field_is_given() {
    let full = update_record(&config(), "r7", "z9", Some("home"), Some("A"), Some("2.2.2.2"), Some(120));
    let mut expected = request(Method::Put, "zones/z9/dns_records/r7");
    expected.body = Some(RecordCreate {
        record_type: Some("A".to_string()),
        name: Some("home".to_string()),
        content: Some("2.2.2.2".to_string()),
        ttl: Some(120),
    });
    assert_eq!(full, expected);

    let partial = update_record(&config(), "r7", "z9", Some("home"), Some("A"), Some("2.2.2.2"), None);
    assert_eq!(partial.method, Method::Patch);
    assert_eq!(partial.url, "http://127.0.0.1:1234/zones/z9/dns_records/r7");
    assert_eq!(
        partial.body,
        Some(RecordCreate {
            record_type: Some("A".to_string()),
            name: Some("home".to_string()),
            content: Some("2.2.2.2".to_string()),
            ttl: None,
        })
    );

    assert_eq!(update_record(&config(), "r", "z", None, Some("A"), Some("v"), Some(1)).method, Method::Patch);
    assert_eq!(update_record(&config(), "r", "z", Some("n"), None, Some("v"), Some(1)).method, Method::Patch);
    assert_eq!(update_record(&config(), "r", "z", Some("n"), Some("A"), None, Some(1)).method, Method::Patch);
    let bare = update_record(&config(), "r", "z", None, None, None, None);
    assert_eq!(bare.method, Method::Patch);
    assert_eq!(bare.body, Some(RecordCreate { record_type: None, name: None, content: None, ttl: None }));
}

#[test]
fn zone_resolution_takes_the_one_match() {
    let found = get_zone_by_name("example.com", Ok(listing(vec![zone("1-1-1-1", "example.com")])));
    assert_eq!(found, Ok(zone("1-1-1-1", "example.com")));
}

#[test]
fn zone_resolution_takes_the_first_of_several() {
    let found = get_zone_by_name(
        "example.com",
        Ok(listing(vec![zone("a", "example.com"), zone("b", "example.com")])),
    );
    assert_eq!(found.unwrap().id, "a");
}

#[test]
fn zone_resolution_fails_without_a_match() {
    let not_found = Err(Error::ZoneNotFound(ResultError("No Zone found for name example.com.".to_string())));
    assert_eq!(get_zone_by_name("example.com", Ok(listing(Vec::new()))), not_found);
    let no_result = Response { success: true, errors: None, messages: None, result: None };
    assert_eq!(get_zone_by_name("example.com", Ok(no_result)), not_found);
}

#[test]
fn zone_resolution_reports_a_refusal_with_its_entries() {
    let r = get_zone_by_name("example.com", Ok(refusal(1074, "Could not find a valid zone.")));
    assert_eq!(r, Err(Error::ApiLogic(refused(1074, "Could not find a valid zone."))));
}

#[test]
fn zone_resolution_hands_a_transport_failure_on() {
    let r = get_zone_by_name("example.com", Err(ProviderError::Transport("timed out".to_string())));
    assert_eq!(r, Err(Error::Provider(ProviderError::Transport("timed out".to_string()))));
}

#[test]
fn cloudflare_records_by_zone_name_lists_the_resolved_zone() {
    let r = get_all_records_by_name(&config(), "example.com", Ok(listing(vec![zone("z9", "example.com")])));
    assert_eq!(r, Ok(request(Method::Get, "zones/z9/dns_records")));
    let r = get_all_records_by_name(&config(), "example.com", Ok(listing(Vec::new())));
    assert_eq!(
        r,
        Err(Error::ZoneNotFound(ResultError("No Zone found for name example.com.".to_string())))
    );
    let r = get_all_records_by_name(&config(), "example.com", Err(ProviderError::Status(500)));
    assert_eq!(r, Err(Error::Provider(ProviderError::Status(500))));
}

#[test]
fn cloudflare_deletes_by_exact_name_in_listing_order() {
    let records = vec![
        record("r1", "home", "A", "1.1.1.1"),
        record("r2", "homework", "A", "1.1.1.2"),
        record("r3", "home", "AAAA", "::1"),
        record("r4", "office", "A", "1.1.1.3"),
    ];
    let requests = delete_records_by_name(&config(), "z9", &records, "home");
    assert_eq!(
        requests,
        vec![
            request(Method::Delete, "zones/z9/dns_records/r1"),
            request(Method::Delete, "zones/z9/dns_records/r3"),
        ]
    );
    assert!(delete_records_by_name(&config(), "z9", &records, "absent").is_empty());
}

#[test]
fn cloudflare_record_type_is_compared_exactly() {
    assert!(record("r", "n", "A", "v").has_type("A"));
    assert!(!record("r", "n", "AAAA", "v").has_type("A"));
    assert!(!record("r", "n", "a", "v").has_type("A"));
}

#[test]
fn reconciliation_starts_with_the_zone_lookup_and_prefix_matching() {
    assert_eq!(name_match(), NameMatch::Prefix);
    let (state, command) = create_update_record("example.com", "home", "2.2.2.2", "A");
    assert_eq!(command, Command::ResolveZone { name: "example.com".to_string() });
    assert_eq!(state.policy, NameMatch::Prefix);
    assert_eq!(state.desired.zone_name, "example.com");
    assert_eq!(state.desired.record_name, "home");
    assert_eq!(state.desired.value, "2.2.2.2");
    assert_eq!(state.desired.record_type, "A");
    assert!(!state.is_finished());
}

#[test]
fn cloudflare_commands_become_requests() {
    let c = config();
    let resolve = Command::ResolveZone { name: "example.com".to_string() };
    assert_eq!(request_for(&c, &resolve), Some(get_zones(&c, Some("example.com"))));
    let list = Command::ListRecords { zone_id: "z9".to_string() };
    assert_eq!(request_for(&c, &list), Some(get_all_records(&c, "z9")));
    let create = Command::Apply(Mutation::Create {
        zone_id: "z9".to_string(),
        name: "home".to_string(),
        record_type: "A".to_string(),
        value: "2.2.2.2".to_string(),
    });
    assert_eq!(request_for(&c, &create), Some(create_record(&c, "home", "A", "2.2.2.2", "z9")));
    let update = Command::Apply(Mutation::Update {
        zone_id: "z9".to_string(),
        record_id: "r7".to_string(),
        name: "home".to_string(),
        record_type: "A".to_string(),
        value: "2.2.2.2".to_string(),
    });
    let sent = request_for(&c, &update).unwrap();
    assert_eq!(sent, update_record(&c, "r7", "z9", Some("home"), Some("A"), Some("2.2.2.2"), None));
    assert_eq!(sent.method, Method::Patch);
    let delete = Command::Apply(Mutation::Delete { zone_id: "z9".to_string(), record_id: "r7".to_string() });
    assert_eq!(request_for(&c, &delete), Some(delete_record(&c, "z9", "r7")));
    assert_eq!(request_for(&c, &Command::Finish(Ok(()))), None);
    assert_eq!(request_for(&c, &Command::Finish(Err(Error::Provider(ProviderError::UnexpectedReply)))), None);
}

#[test]
fn cloudflare_answers_become_replies() {
    assert_eq!(
        zones_reply(Ok(listing(vec![zone("z9", "example.com")]))),
        Reply::Zones(vec![ZoneEntry { id: "z9".to_string(), name: "example.com".to_string() }])
    );
    assert_eq!(
        zones_reply(Ok(Response { success: true, errors: None, messages: None, result: None })),
        Reply::Zones(Vec::new())
    );
    assert_eq!(
        zones_reply(Ok(refusal(1074, "Could not find a valid zone."))),
        Reply::Failed(Error::ApiLogic(refused(1074, "Could not find a valid zone.")))
    );
    assert_eq!(
        zones_reply(Err(ProviderError::Parse("eof".to_string()))),
        Reply::Failed(Error::Provider(ProviderError::Parse("eof".to_string())))
    );
    assert_eq!(
        records_reply(Ok(listing(vec![record("r1", "home.example.com", "A", "1.1.1.1")]))),
        Reply::Records(vec![RecordEntry {
            id: "r1".to_string(),
            name: "home.example.com".to_string(),
            record_type: "A".to_string(),
            value: "1.1.1.1".to_string(),
        }])
    );
    assert_eq!(
        records_reply(Ok(Response { success: true, errors: None, messages: None, result: None })),
        Reply::Records(Vec::new())
    );
    assert_eq!(
        records_reply(Ok(refusal(1, "Error happened!"))),
        Reply::Failed(Error::ApiLogic(refused(1, "Error happened!")))
    );
    assert_eq!(
        records_reply(Err(ProviderError::Status(502))),
        Reply::Failed(Error::Provider(ProviderError::Status(502)))
    );
    let made = || SingleResult { success: true, result: Some(record("r", "n", "A", "v")), errors: None };
    let not_made = || SingleResult {
        success: false,
        result: None,
        errors: Some(vec![ResponseError { code: 9, message: "no".to_string() }]),
    };
    let reset = || ProviderError::Transport("reset".to_string());
    assert_eq!(creation_reply(Ok(made())), Reply::Done);
    assert_eq!(creation_reply(Ok(not_made())), Reply::Failed(Error::ApiLogic(refused(9, "no"))));
    assert_eq!(creation_reply(Err(reset())), Reply::Failed(Error::Provider(reset())));
    assert_eq!(update_reply(Ok(made())), (Reply::Done, None));
    assert_eq!(update_reply(Ok(not_made())), (Reply::Done, Some(refused(9, "no"))));
    assert_eq!(update_reply(Err(reset())), (Reply::Failed(Error::Provider(reset())), None));
    assert_eq!(deletion_reply(Ok(OnlyResult { result: OnlyId { id: "r7".to_string() } })), Reply::Done);
    assert_eq!(
        deletion_reply(Err(ProviderError::Transport("reset".to_string()))),
        Reply::Failed(Error::Provider(ProviderError::Transport("reset".to_string())))
    );
}
