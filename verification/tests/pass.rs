use std::collections::HashMap;
use sync_manager::credentials::storage_init;
use sync_manager::error::ErrorKind;
use sync_manager::manager::{Availability, Guarded, MemoryCachedState, SyncManager};
use sync_manager::msg_types::{EngineFailure, PassStatus, ServiceStatus, SyncParams};
use sync_manager::pass::{collect_failures, PassPlan, PassRun, StoreOutcome};

fn names(v: &[&str]) -> Vec<String> {
    v.iter().map(|s| s.to_string()).collect()
}

fn request(engines: &[&str], all: bool, url: &str) -> SyncParams {
    SyncParams {
        engines_to_sync: names(engines),
        sync_all_engines: all,
        acct_key_id: "kid".to_string(),
        acct_access_token: "token".to_string(),
        acct_tokenserver_url: url.to_string(),
        acct_sync_key: "key".to_string(),
        engines_to_change_state: HashMap::new(),
        persisted_state: None,
    }
}

const GOOD_URL: &str = "https://token.example.com";

fn live() -> Availability {
    Availability { places: true, logins: Guarded::Live }
}

fn manager_with(places: bool, logins: bool) -> SyncManager {
    let mut m = SyncManager::new();
    if places {
        m.set_places(1);
    }
    if logins {
        m.set_logins(2);
    }
    m
}

fn ok(engine: &str) -> StoreOutcome {
    StoreOutcome { engine: engine.to_string(), error: None }
}

fn failed(engine: &str, message: &str) -> StoreOutcome {
    StoreOutcome { engine: engine.to_string(), error: Some(message.to_string()) }
}

fn run(registry_error: Option<&str>, status: PassStatus, stores: Vec<StoreOutcome>) -> PassRun {
    PassRun {
        registry_error: registry_error.map(|s| s.to_string()),
        status,
        stores,
        telemetry_json: "{}".to_string(),
        persisted_state: Some("state-2".to_string()),
        mem_cached_state: MemoryCachedState { blob: vec![1, 2, 3] },
    }
}

#[test]
fn status_mapping() {
    assert_eq!(ServiceStatus::from(PassStatus::Success), ServiceStatus::Success);
    assert_eq!(ServiceStatus::from(PassStatus::NetworkError), ServiceStatus::NetworkError);
    assert_eq!(ServiceStatus::from(PassStatus::ServiceError), ServiceStatus::ServiceError);
    assert_eq!(ServiceStatus::from(PassStatus::AuthenticationError), ServiceStatus::AuthError);
    assert_eq!(ServiceStatus::from(PassStatus::BackedOff), ServiceStatus::BackedOff);
    assert_eq!(ServiceStatus::from(PassStatus::Interrupted), ServiceStatus::OtherError);
    assert_eq!(ServiceStatus::from(PassStatus::OtherError), ServiceStatus::OtherError);
}

#[test]
fn only_credentials_registered_bookmarks_requested() {
    let mut m = manager_with(false, true);
    let r = m.begin_sync(&request(&["bookmarks"], false, GOOD_URL), &live(), None);
    assert_eq!(r.unwrap_err(), ErrorKind::UnsupportedFeature("bookmarks".to_string()));
}

#[test]
fn unknown_engine_requested() {
    let mut m = manager_with(true, true);
    let r = m.begin_sync(&request(&["history", "tabs"], false, GOOD_URL), &live(), None);
    assert_eq!(r.unwrap_err(), ErrorKind::UnknownEngine("tabs".to_string()));
}

#[test]
fn validation_comes_before_credentials() {
    let mut m = manager_with(true, true);
    let r = m.begin_sync(
        &request(&["tabs"], false, "not a url"),
        &live(),
        Some("bad key".to_string()),
    );
    assert_eq!(r.unwrap_err(), ErrorKind::UnknownEngine("tabs".to_string()));
}

#[test]
fn key_bundle_refused() {
    let mut m = manager_with(true, true);
    let r = m.begin_sync(
        &request(&["history"], false, "not a url"),
        &live(),
        Some("bad key".to_string()),
    );
    assert_eq!(r.unwrap_err(), ErrorKind::InvalidKeyBundle("bad key".to_string()));
}

#[test]
fn token_server_address_refused() {
    let mut m = manager_with(true, true);
    let r = m.begin_sync(&request(&["history"], false, "token.example.com/1.0"), &live(), None);
    assert_eq!(
        r.unwrap_err(),
        ErrorKind::UrlParseError(url::ParseError::RelativeUrlWithoutBase)
    );
    let r = m.begin_sync(&request(&[], true, ""), &live(), None);
    assert!(matches!(r, Err(ErrorKind::UrlParseError(_))));
}

#[test]
fn token_server_address_is_parsed() {
    let mut m = manager_with(true, true);
    let plan = m.begin_sync(&request(&[], true, GOOD_URL), &live(), None).unwrap();
    assert_eq!(plan.storage_init.tokenserver_url, url::Url::parse(GOOD_URL).unwrap());
    assert_eq!(plan.storage_init.tokenserver_url.as_str(), "https://token.example.com/");
    assert_eq!(plan.storage_init.tokenserver_url.host_str(), Some("token.example.com"));
    assert_eq!(plan.storage_init.key_id, "kid");
    assert_eq!(plan.storage_init.access_token, "token");
}

#[test]
fn storage_init_from_a_parse_outcome() {
    let p = request(&[], true, GOOD_URL);
    let init = storage_init(&p, url::Url::parse("https://a.example/x")).unwrap();
    assert_eq!(init.tokenserver_url.path(), "/x");
    assert_eq!(init.key_id, "kid");
    assert_eq!(init.access_token, "token");
    assert_eq!(
        storage_init(&p, Err(url::ParseError::EmptyHost)).unwrap_err(),
        ErrorKind::UrlParseError(url::ParseError::EmptyHost)
    );
}

#[test]
fn poisoned_credentials_lock_stops_the_pass() {
    let mut m = manager_with(true, true);
    let avail = Availability { places: true, logins: Guarded::Poisoned };
    let r = m.begin_sync(&request(&[], true, GOOD_URL), &avail, None);
    assert_eq!(r.unwrap_err(), ErrorKind::LockPoisoned("passwords".to_string()));
}

#[test]
fn plan_for_all_engines() {
    let mut m = manager_with(true, true);
    let plan = m.begin_sync(&request(&[], true, GOOD_URL), &live(), None).unwrap();
    assert!(plan.open_places && plan.history && plan.bookmarks && plan.logins);
    assert_eq!(plan.stores(true), names(&["history", "bookmarks", "passwords"]));
    assert_eq!(plan.stores(false), names(&["passwords"]));
    assert_eq!(plan.registry.fxa_device_id, "");
    assert_eq!(plan.registry.name, "");
    assert_eq!(plan.mem_cached_state, MemoryCachedState { blob: vec![] });
}

#[test]
fn no_store_runs_after_a_failed_registry() {
    let mut m = manager_with(true, true);
    let plan = m.begin_sync(&request(&[], true, GOOD_URL), &live(), None).unwrap();
    assert_eq!(plan.stores_after_registry(true, true), names(&[]));
    assert_eq!(
        plan.stores_after_registry(true, false),
        names(&["history", "bookmarks", "passwords"])
    );
    assert_eq!(plan.stores_after_registry(false, false), names(&["passwords"]));
}

#[test]
fn plan_for_named_engines() {
    let mut m = manager_with(true, true);
    let plan = m.begin_sync(&request(&["bookmarks"], false, GOOD_URL), &live(), None).unwrap();
    assert!(plan.open_places && plan.bookmarks);
    assert!(!plan.history && !plan.logins);
    assert_eq!(plan.stores(true), names(&["bookmarks"]));
    assert_eq!(plan.stores(false), names(&[]));
}

#[test]
fn plan_skips_what_is_not_there() {
    let mut m = manager_with(false, true);
    let plan = m.begin_sync(&request(&[], true, GOOD_URL), &live(), None).unwrap();
    assert!(!plan.open_places && !plan.history && !plan.bookmarks && plan.logins);
    let mut m = manager_with(true, true);
    let avail = Availability { places: true, logins: Guarded::Disconnected };
    let plan = m.begin_sync(&request(&[], true, GOOD_URL), &avail, None).unwrap();
    assert_eq!(plan.stores(true), names(&["history", "bookmarks"]));
}

#[test]
fn cache_passes_from_one_pass_to_the_next() {
    let mut m = manager_with(true, true);
    let _ = m.finish_sync(run(None, PassStatus::Success, vec![]));
    let plan = m.begin_sync(&request(&[], true, GOOD_URL), &live(), None).unwrap();
    assert_eq!(plan.mem_cached_state.blob, vec![1, 2, 3]);
    let plan = m.begin_sync(&request(&[], true, GOOD_URL), &live(), None).unwrap();
    assert_eq!(plan.mem_cached_state.blob, Vec::<u8>::new());
}

#[test]
fn refused_request_keeps_the_cache() {
    let mut m = manager_with(true, true);
    let _ = m.finish_sync(run(None, PassStatus::Success, vec![]));
    assert!(m.begin_sync(&request(&["tabs"], false, GOOD_URL), &live(), None).is_err());
    let plan = m.begin_sync(&request(&[], true, GOOD_URL), &live(), None).unwrap();
    assert_eq!(plan.mem_cached_state.blob, vec![1, 2, 3]);
}

#[test]
fn successful_pass() {
    let mut m = manager_with(true, true);
    let r = m.finish_sync(run(None, PassStatus::Success, vec![ok("history"), ok("passwords")]));
    assert_eq!(r.status, ServiceStatus::Success);
    assert_eq!(r.results, vec![]);
    assert!(!r.have_declined);
    assert_eq!(r.declined, Vec::<String>::new());
    assert_eq!(r.next_sync_allowed_at, None);
    assert_eq!(r.persisted_state, "state-2");
    assert_eq!(r.telemetry_json, Some("{}".to_string()));
}

#[test]
fn one_store_fails() {
    let mut m = manager_with(true, true);
    let stores = vec![ok("history"), failed("bookmarks", "merge failed"), ok("passwords")];
    let r = m.finish_sync(run(None, PassStatus::Success, stores.clone()));
    assert_eq!(
        r.results,
        vec![EngineFailure { engine: "bookmarks".to_string(), message: "merge failed".to_string() }]
    );
    assert_eq!(r.status, ServiceStatus::Success);
    let r = m.finish_sync(run(None, PassStatus::NetworkError, stores));
    assert_eq!(r.results.len(), 1);
    assert_eq!(r.status, ServiceStatus::NetworkError);
}

#[test]
fn registry_failure_aborts_the_pass() {
    let mut m = manager_with(true, true);
    let stores = vec![ok("history"), failed("bookmarks", "merge failed")];
    let r = m.finish_sync(run(Some("registry"), PassStatus::Success, stores.clone()));
    assert_eq!(r.status, ServiceStatus::OtherError);
    assert_eq!(r.results, vec![]);
    let r = m.finish_sync(run(Some("registry"), PassStatus::AuthenticationError, stores));
    assert_eq!(r.status, ServiceStatus::AuthError);
    assert_eq!(r.results, vec![]);
}

#[test]
fn cancelled_pass_is_another_error() {
    let mut m = manager_with(true, true);
    let r = m.finish_sync(run(None, PassStatus::Interrupted, vec![]));
    assert_eq!(r.status, ServiceStatus::OtherError);
}

#[test]
fn absent_blob_becomes_an_empty_one() {
    let mut m = manager_with(true, true);
    let mut pass = run(None, PassStatus::BackedOff, vec![]);
    pass.persisted_state = None;
    let r = m.finish_sync(pass);
    assert_eq!(r.persisted_state, "");
    assert_eq!(r.status, ServiceStatus::BackedOff);
}

#[test]
fn failures_keep_their_order() {
    let stores = vec![failed("history", "a"), ok("bookmarks"), failed("passwords", "b")];
    assert_eq!(
        collect_failures(&stores),
        vec![
            EngineFailure { engine: "history".to_string(), message: "a".to_string() },
            EngineFailure { engine: "passwords".to_string(), message: "b".to_string() },
        ]
    );
    assert_eq!(collect_failures(&vec![]), vec![]);
}

#[test]
fn whole_pass() {
    let mut m = manager_with(true, true);
    let r = m
        .sync(&request(&["history", "passwords"], false, GOOD_URL), &live(), None, |plan: PassPlan| {
            let stores = plan.stores_after_registry(true, false);
            assert_eq!(stores, names(&["history", "passwords"]));
            run(None, PassStatus::Success, vec![ok("history"), failed("passwords", "locked out")])
        })
        .unwrap();
    assert_eq!(r.status, ServiceStatus::Success);
    assert_eq!(
        r.results,
        vec![EngineFailure { engine: "passwords".to_string(), message: "locked out".to_string() }]
    );
    assert_eq!(r.persisted_state, "state-2");
    let plan = m.begin_sync(&request(&[], true, GOOD_URL), &live(), None).unwrap();
    assert_eq!(plan.mem_cached_state.blob, vec![1, 2, 3]);
}

#[test]
fn refused_pass_runs_nothing() {
    let mut m = manager_with(false, true);
    let mut ran = false;
    let r = m.sync(&request(&["bookmarks"], false, GOOD_URL), &live(), None, |_plan: PassPlan| {
        ran = true;
        run(None, PassStatus::Success, vec![])
    });
    assert_eq!(r.unwrap_err(), ErrorKind::UnsupportedFeature("bookmarks".to_string()));
    assert!(!ran);
}

#[test]
fn poisoned_lock_runs_nothing() {
    let mut m = manager_with(true, true);
    let avail = Availability { places: true, logins: Guarded::Poisoned };
    let mut ran = false;
    let r = m.sync(&request(&[], true, GOOD_URL), &avail, None, |_plan: PassPlan| {
        ran = true;
        run(None, PassStatus::Success, vec![ok("bookmarks")])
    });
    assert_eq!(r.unwrap_err(), ErrorKind::LockPoisoned("passwords".to_string()));
    assert!(!ran);
}

#[test]
fn an_engine_reported_twice_has_one_entry() {
    let stores = vec![failed("history", "first"), ok("bookmarks"), failed("history", "second")];
    assert_eq!(
        collect_failures(&stores),
        vec![EngineFailure { engine: "history".to_string(), message: "second".to_string() }]
    );
    let stores = vec![failed("history", "first"), failed("passwords", "p"), ok("history")];
    assert_eq!(
        collect_failures(&stores),
        vec![EngineFailure { engine: "passwords".to_string(), message: "p".to_string() }]
    );
    let mut m = manager_with(true, true);
    let r = m.finish_sync(run(
        None,
        PassStatus::OtherError,
        vec![failed("bookmarks", "a"), failed("bookmarks", "b")],
    ));
    assert_eq!(
        r.results,
        vec![EngineFailure { engine: "bookmarks".to_string(), message: "b".to_string() }]
    );
}

#[test]
fn state_changes_are_handed_on() {
    let mut p = request(&[], true, GOOD_URL);
    p.engines_to_change_state.insert("history".to_string(), false);
    let mut m = manager_with(true, true);
    let plan = m.begin_sync(&p, &live(), None).unwrap();
    assert!(plan.history);
    assert_eq!(p.engines_to_change_state.get("history"), Some(&false));
}
