use dns_ip_sync::error::{Error, ProviderError, ResponseError, ResultError, ResultResponseError};
use dns_ip_sync::http::status_is_success;
use dns_ip_sync::plan::{
    is_match, matching_ids, plan, resolve_zone, DesiredState, Mutation, NameMatch, RecordEntry, ZoneEntry,
};
use dns_ip_sync::reconcile::{Command, Phase, Reconciler, Reply};

fn entry(id: &str, name: &str, record_type: &str, value: &str) -> RecordEntry {
    RecordEntry {
        id: id.to_string(),
        name: name.to_string(),
        record_type: record_type.to_string(),
        value: value.to_string(),
    }
}

fn copy(r: &RecordEntry) -> RecordEntry {
    entry(&r.id, &r.name, &r.record_type, &r.value)
}

fn zone(id: &str, name: &str) -> ZoneEntry {
    ZoneEntry { id: id.to_string(), name: name.to_string() }
}

fn create(name: &str, record_type: &str, value: &str) -> Mutation {
    Mutation::Create {
        zone_id: "z1".to_string(),
        name: name.to_string(),
        record_type: record_type.to_string(),
        value: value.to_string(),
    }
}

fn update(record_id: &str, name: &str, record_type: &str, value: &str) -> Mutation {
    Mutation::Update {
        zone_id: "z1".to_string(),
        record_id: record_id.to_string(),
        name: name.to_string(),
        record_type: record_type.to_string(),
        value: value.to_string(),
    }
}

fn delete(record_id: &str) -> Mutation {
    Mutation::Delete { zone_id: "z1".to_string(), record_id: record_id.to_string() }
}

fn timeout() -> Error {
    Error::Provider(ProviderError::Transport("timed out".to_string()))
}

/// A provider held in memory: one zone with its records, and failures to
/// hand out at chosen commands. `seen` holds the commands that were carried
/// out, in order.
struct Memory {
    zones: Vec<(String, String)>,
    records: Vec<RecordEntry>,
    created: u32,
    fail_zone_lookup: bool,
    fail_listing: bool,
    fail_change: Option<usize>,
    changes: usize,
    seen: Vec<Command>,
}

impl Memory {
    fn new(records: Vec<RecordEntry>) -> Memory {
        Memory {
            zones: vec![("z1".to_string(), "example.com".to_string())],
            records,
            created: 0,
            fail_zone_lookup: false,
            fail_listing: false,
            fail_change: None,
            changes: 0,
            seen: Vec::new(),
        }
    }

    fn answer(&mut self, command: &Command) -> Reply {
        match command {
            Command::ResolveZone { name } => {
                if self.fail_zone_lookup {
                    return Reply::Failed(timeout());
                }
                Reply::Zones(self.zones.iter().filter(|z| &z.1 == name).map(|z| zone(&z.0, &z.1)).collect())
            }
            Command::ListRecords { .. } => {
                if self.fail_listing {
                    return Reply::Failed(timeout());
                }
                Reply::Records(self.records.iter().map(copy).collect())
            }
            Command::Apply(change) => {
                if self.fail_change == Some(self.changes) {
                    return Reply::Failed(timeout());
                }
                self.changes += 1;
                match change {
                    Mutation::Create { name, record_type, value, .. } => {
                        self.created += 1;
                        let id = format!("new{}", self.created);
                        self.records.push(entry(&id, name, record_type, value));
                    }
                    Mutation::Update { record_id, name, record_type, value, .. } => {
                        for r in self.records.iter_mut() {
                            if &r.id == record_id {
                                *r = entry(record_id, name, record_type, value);
                            }
                        }
                    }
                    Mutation::Delete { record_id, .. } => self.records.retain(|r| &r.id != record_id),
                }
                Reply::Done
            }
            Command::Finish(_) => unreachable!(),
        }
    }

    fn reconcile(&mut self, zone: &str, name: &str, value: &str, record_type: &str, policy: NameMatch) -> Result<(), Error> {
        let (mut state, mut command) = Reconciler::start(DesiredState::new(zone, name, value, record_type), policy);
        self.seen = Vec::new();
        loop {
            if let Command::Finish(result) = command {
                assert!(state.is_finished());
                return result;
            }
            assert!(!state.is_finished());
            let reply = self.answer(&command);
            self.seen.push(command);
            let next = state.step(reply);
            state = next.0;
            command = next.1;
        }
    }

    fn changes_seen(&self) -> Vec<&Mutation> {
        self.seen
            .iter()
            .filter_map(|c| match c {
                Command::Apply(m) => Some(m),
                _ => None,
            })
            .collect()
    }

    fn named(&self, name: &str) -> Vec<&RecordEntry> {
        self.records.iter().filter(|r| r.name == name).collect()
    }
}

fn lookups() -> Vec<Command> {
    vec![
        Command::ResolveZone { name: "example.com".to_string() },
        Command::ListRecords { zone_id: "z1".to_string() },
    ]
}

#[test]
fn creates_when_no_record_has_the_name() {
    let mut memory = Memory::new(vec![entry("r1", "office", "A", "1.1.1.1")]);
    let result = memory.reconcile("example.com", "home", "2.2.2.2", "A", NameMatch::Exact);
    assert_eq!(result, Ok(()));
    let mut expected = lookups();
    expected.push(Command::Apply(create("home", "A", "2.2.2.2")));
    assert_eq!(memory.seen, expected);
    assert_eq!(memory.changes_seen(), vec![&create("home", "A", "2.2.2.2")]);
    assert_eq!(
        memory.records,
        vec![entry("r1", "office", "A", "1.1.1.1"), entry("new1", "home", "A", "2.2.2.2")]
    );
}

#[test]
fn creates_in_an_empty_zone() {
    let mut memory = Memory::new(Vec::new());
    assert_eq!(memory.reconcile("example.com", "home", "2.2.2.2", "A", NameMatch::Exact), Ok(()));
    assert_eq!(memory.changes_seen(), vec![&create("home", "A", "2.2.2.2")]);
    assert_eq!(memory.records, vec![entry("new1", "home", "A", "2.2.2.2")]);
}

#[test]
fn updates_the_one_record_with_the_name() {
    let mut memory = Memory::new(vec![
        entry("r1", "office", "A", "1.1.1.1"),
        entry("r2", "home", "AAAA", "::1"),
        entry("r3", "homework", "A", "3.3.3.3"),
    ]);
    assert_eq!(memory.reconcile("example.com", "home", "2.2.2.2", "A", NameMatch::Exact), Ok(()));
    let mut expected = lookups();
    expected.push(Command::Apply(update("r2", "home", "A", "2.2.2.2")));
    assert_eq!(memory.seen, expected);
    assert_eq!(
        memory.records,
        vec![
            entry("r1", "office", "A", "1.1.1.1"),
            entry("r2", "home", "A", "2.2.2.2"),
            entry("r3", "homework", "A", "3.3.3.3"),
        ]
    );
}

#[test]
fn collapses_duplicates_into_one_new_record() {
    let mut memory = Memory::new(vec![
        entry("r1", "home", "A", "1.1.1.1"),
        entry("r2", "office", "A", "9.9.9.9"),
        entry("r3", "home", "A", "1.1.1.2"),
        entry("r4", "home", "TXT", "hello"),
    ]);
    assert_eq!(memory.reconcile("example.com", "home", "2.2.2.2", "A", NameMatch::Exact), Ok(()));
    let mut expected = lookups();
    expected.push(Command::Apply(delete("r1")));
    expected.push(Command::Apply(delete("r3")));
    expected.push(Command::Apply(delete("r4")));
    expected.push(Command::Apply(create("home", "A", "2.2.2.2")));
    assert_eq!(memory.seen, expected);
    assert_eq!(
        memory.records,
        vec![entry("r2", "office", "A", "9.9.9.9"), entry("new1", "home", "A", "2.2.2.2")]
    );
}

#[test]
fn a_second_run_leaves_one_record_with_the_wanted_state() {
    for start in [
        Vec::new(),
        vec![entry("r1", "home", "A", "1.1.1.1")],
        vec![entry("r1", "home", "A", "1.1.1.1"), entry("r2", "home", "A", "1.1.1.2")],
    ] {
        let mut memory = Memory::new(start);
        assert_eq!(memory.reconcile("example.com", "home", "2.2.2.2", "A", NameMatch::Exact), Ok(()));
        let once: Vec<RecordEntry> = memory.records.iter().map(copy).collect();
        assert_eq!(memory.reconcile("example.com", "home", "2.2.2.2", "A", NameMatch::Exact), Ok(()));
        assert_eq!(memory.records, once);
        let named = memory.named("home");
        assert_eq!(named.len(), 1);
        assert_eq!(named[0].value, "2.2.2.2");
        assert_eq!(named[0].record_type, "A");
        assert_eq!(memory.changes_seen(), vec![&update(&named[0].id, "home", "A", "2.2.2.2")]);
    }
}

#[test]
fn a_failed_zone_lookup_changes_nothing() {
    let mut memory = Memory::new(vec![entry("r1", "home", "A", "1.1.1.1")]);
    memory.fail_zone_lookup = true;
    assert_eq!(memory.reconcile("example.com", "home", "2.2.2.2", "A", NameMatch::Exact), Err(timeout()));
    assert_eq!(memory.seen, vec![Command::ResolveZone { name: "example.com".to_string() }]);
    assert!(memory.changes_seen().is_empty());
    assert_eq!(memory.records, vec![entry("r1", "home", "A", "1.1.1.1")]);
}

#[test]
fn a_failed_record_listing_changes_nothing() {
    let mut memory = Memory::new(vec![entry("r1", "home", "A", "1.1.1.1")]);
    memory.fail_listing = true;
    assert_eq!(memory.reconcile("example.com", "home", "2.2.2.2", "A", NameMatch::Exact), Err(timeout()));
    assert_eq!(memory.seen, lookups());
    assert!(memory.changes_seen().is_empty());
    assert_eq!(memory.records, vec![entry("r1", "home", "A", "1.1.1.1")]);
}

#[test]
fn a_failed_change_stops_the_rest() {
    let mut memory = Memory::new(vec![
        entry("r1", "home", "A", "1.1.1.1"),
        entry("r2", "home", "A", "1.1.1.2"),
        entry("r3", "home", "A", "1.1.1.3"),
    ]);
    memory.fail_change = Some(1);
    assert_eq!(memory.reconcile("example.com", "home", "2.2.2.2", "A", NameMatch::Exact), Err(timeout()));
    assert_eq!(memory.changes_seen(), vec![&delete("r1"), &delete("r2")]);
    assert_eq!(
        memory.records,
        vec![entry("r2", "home", "A", "1.1.1.2"), entry("r3", "home", "A", "1.1.1.3")]
    );
}

#[test]
fn an_unknown_zone_is_not_found() {
    let mut memory = Memory::new(vec![entry("r1", "home", "A", "1.1.1.1")]);
    let result = memory.reconcile("other.org", "home", "2.2.2.2", "A", NameMatch::Exact);
    assert_eq!(
        result,
        Err(Error::ZoneNotFound(ResultError("No Zone found for name other.org.".to_string())))
    );
    assert_eq!(memory.seen, vec![Command::ResolveZone { name: "other.org".to_string() }]);
}

#[test]
fn the_first_of_several_zones_is_taken() {
    let mut memory = Memory::new(Vec::new());
    memory.zones = vec![
        ("za".to_string(), "example.com".to_string()),
        ("zb".to_string(), "example.com".to_string()),
    ];
    assert_eq!(memory.reconcile("example.com", "home", "2.2.2.2", "A", NameMatch::Exact), Ok(()));
    assert_eq!(memory.seen[1], Command::ListRecords { zone_id: "za".to_string() });
}

#[test]
fn home_is_updated_in_place() {
    let mut memory = Memory::new(vec![entry("r1", "home", "A", "1.1.1.1")]);
    assert_eq!(memory.reconcile("example.com", "home", "2.2.2.2", "A", NameMatch::Exact), Ok(()));
    let named = memory.named("home");
    assert_eq!(named.len(), 1);
    assert_eq!(named[0].value, "2.2.2.2");
    assert_eq!(named[0].id, "r1");
    assert_eq!(memory.changes_seen(), vec![&update("r1", "home", "A", "2.2.2.2")]);
    assert_eq!(memory.records, vec![entry("r1", "home", "A", "2.2.2.2")]);
}

#[test]
fn prefix_matching_counts_longer_names() {
    let mut memory = Memory::new(vec![
        entry("r1", "home.example.com", "A", "1.1.1.1"),
        entry("r2", "office.example.com", "A", "9.9.9.9"),
    ]);
    assert_eq!(memory.reconcile("example.com", "home", "2.2.2.2", "A", NameMatch::Prefix), Ok(()));
    assert_eq!(memory.changes_seen(), vec![&update("r1", "home", "A", "2.2.2.2")]);

    let mut memory = Memory::new(vec![
        entry("r1", "home.example.com", "A", "1.1.1.1"),
        entry("r2", "homework.example.com", "A", "9.9.9.9"),
    ]);
    assert_eq!(memory.reconcile("example.com", "home", "2.2.2.2", "A", NameMatch::Prefix), Ok(()));
    assert_eq!(
        memory.changes_seen(),
        vec![&delete("r1"), &delete("r2"), &create("home", "A", "2.2.2.2")]
    );
}

#[test]
fn names_are_matched_by_policy() {
    let home = "home".to_string();
    assert!(is_match(NameMatch::Exact, &"home".to_string(), &home));
    assert!(!is_match(NameMatch::Exact, &"home.example.com".to_string(), &home));
    assert!(!is_match(NameMatch::Exact, &"hom".to_string(), &home));
    assert!(is_match(NameMatch::Prefix, &"home".to_string(), &home));
    assert!(is_match(NameMatch::Prefix, &"home.example.com".to_string(), &home));
    assert!(!is_match(NameMatch::Prefix, &"hom".to_string(), &home));
    assert!(!is_match(NameMatch::Prefix, &"my.home".to_string(), &home));
}

#[test]
fn matching_ids_keep_the_listing_order() {
    let records = vec![
        entry("r1", "home", "A", "1"),
        entry("r2", "office", "A", "2"),
        entry("r3", "home.lan", "A", "3"),
        entry("r4", "home", "A", "4"),
    ];
    let home = "home".to_string();
    assert_eq!(matching_ids(&records, NameMatch::Exact, &home), vec!["r1".to_string(), "r4".to_string()]);
    assert_eq!(
        matching_ids(&records, NameMatch::Prefix, &home),
        vec!["r1".to_string(), "r3".to_string(), "r4".to_string()]
    );
    assert!(matching_ids(&records, NameMatch::Exact, &"absent".to_string()).is_empty());
    assert!(matching_ids(&Vec::new(), NameMatch::Exact, &home).is_empty());
}

#[test]
fn plan_by_number_of_matches() {
    let desired = DesiredState::new("example.com", "home", "2.2.2.2", "A");
    let z1 = "z1".to_string();
    let none = vec![entry("r1", "office", "A", "1")];
    assert_eq!(plan(&z1, &none, &desired, NameMatch::Exact), vec![create("home", "A", "2.2.2.2")]);
    let one = vec![entry("r1", "office", "A", "1"), entry("r2", "home", "A", "1")];
    assert_eq!(plan(&z1, &one, &desired, NameMatch::Exact), vec![update("r2", "home", "A", "2.2.2.2")]);
    let two = vec![entry("r1", "home", "A", "1"), entry("r2", "home", "A", "1")];
    assert_eq!(
        plan(&z1, &two, &desired, NameMatch::Exact),
        vec![delete("r1"), delete("r2"), create("home", "A", "2.2.2.2")]
    );
}

#[test]
fn zones_resolve_to_the_first() {
    assert_eq!(resolve_zone("example.com", vec![zone("a", "example.com"), zone("b", "example.com")]), Ok(zone("a", "example.com")));
    assert_eq!(resolve_zone("example.com", vec![7u8]), Ok(7u8));
    assert_eq!(
        resolve_zone::<ZoneEntry>("example.com", Vec::new()),
        Err(Error::ZoneNotFound(ResultError("No Zone found for name example.com.".to_string())))
    );
}

#[test]
fn a_refusal_is_handed_on_with_its_entries() {
    let refusal = || {
        Error::ApiLogic(ResultResponseError {
            errors: vec![ResponseError { code: 1074, message: "Could not find a valid zone.".to_string() }],
        })
    };
    let (state, _) = Reconciler::start(DesiredState::new("example.com", "home", "2.2.2.2", "A"), NameMatch::Exact);
    let (state, command) = state.step(Reply::Failed(refusal()));
    assert_eq!(command, Command::Finish(Err(refusal())));
    assert!(state.is_finished());
}

#[test]
fn an_answer_of_the_wrong_kind_ends_the_run() {
    let unexpected = || Command::Finish(Err(Error::Provider(ProviderError::UnexpectedReply)));
    let start = || Reconciler::start(DesiredState::new("example.com", "home", "2.2.2.2", "A"), NameMatch::Exact).0;

    let (state, command) = start().step(Reply::Done);
    assert_eq!(command, unexpected());
    assert_eq!(state.phase, Phase::Finished);

    let (state, command) = start().step(Reply::Records(Vec::new()));
    assert_eq!(command, unexpected());
    assert!(state.is_finished());

    let (state, _) = start().step(Reply::Zones(vec![zone("z1", "example.com")]));
    assert_eq!(state.phase, Phase::ListingRecords { zone_id: "z1".to_string() });
    let (state, command) = state.step(Reply::Zones(Vec::new()));
    assert_eq!(command, unexpected());
    assert!(state.is_finished());

    let (state, _) = start().step(Reply::Zones(vec![zone("z1", "example.com")]));
    let (state, command) = state.step(Reply::Records(Vec::new()));
    assert_eq!(command, Command::Apply(create("home", "A", "2.2.2.2")));
    assert_eq!(state.phase, Phase::Mutating { pending: Vec::new() });
    let (state, command) = state.step(Reply::Records(Vec::new()));
    assert_eq!(command, unexpected());
    assert!(state.is_finished());

    let (state, command) = state.step(Reply::Done);
    assert_eq!(command, unexpected());
    assert!(state.is_finished());
    let (_, command) = state.step(Reply::Failed(timeout()));
    assert_eq!(command, unexpected());
}

#[test]
fn success_statuses() {
    assert!(!status_is_success(199));
    assert!(status_is_success(200));
    assert!(status_is_success(204));
    assert!(status_is_success(299));
    assert!(!status_is_success(300));
    assert!(!status_is_success(404));
    assert!(!status_is_success(0));
}
