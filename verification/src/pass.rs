//! One pass: what is planned before the stores run, and how what they report
//! folds into the result.

use crate::clients::Settings;
use crate::credentials::{
    parse_url, storage_init, url_parse, url_parse_error, url_parses, StorageInit,
};
use crate::error::{ErrorKind, ErrorKindView};
use crate::manager::{
    accepts, check_engine_list, engines_at_hand, lemma_verdict_unique, rejects,
    reset_all_plan, selects, should_sync, wipe_all_plan, Availability, Engine, Guarded,
    MemoryCachedState, SyncManager,
};
use crate::msg_types::{
    public_status, EngineFailure, FailureText, PassStatus, ServiceStatus, SyncParams,
    SyncResult,
};
use crate::text::{labels, names, same_text, text_of};
use vstd::prelude::*;

verus! {

/// What a pass will do, decided before any store is opened.
#[derive(Debug)]
pub struct PassPlan {
    pub storage_init: StorageInit,
    /// How this device presents itself in the device registry, which runs first.
    pub registry: Settings,
    /// Whether a connection to the places store is to be opened.
    pub open_places: bool,
    /// Whether history runs, given that connection.
    pub history: bool,
    /// Whether bookmarks run, given that connection.
    pub bookmarks: bool,
    /// Whether the credentials store runs.
    pub logins: bool,
    /// The in-memory cache for the pass to work on.
    pub mem_cached_state: MemoryCachedState,
}

/// The stores that run after the device registry, in their order.
pub open spec fn stores_to_run(history: bool, bookmarks: bool, logins: bool) -> Seq<Seq<char>> {
    (if history {
        seq![Engine::History.name()]
    } else {
        seq![]
    }) + (if bookmarks {
        seq![Engine::Bookmarks.name()]
    } else {
        seq![]
    }) + (if logins {
        seq![Engine::Passwords.name()]
    } else {
        seq![]
    })
}

impl PassPlan {
    /// The plan selects what the request selects among the stores that are
    /// live, and sets the device registry up without an identity.
    pub open spec fn is_plan_for(
        &self,
        all: bool,
        list: Seq<Seq<char>>,
        places: bool,
        logins: Guarded,
    ) -> bool {
        &&& self.history == (places && selects(all, list, Engine::History.name()))
        &&& self.bookmarks == (places && selects(all, list, Engine::Bookmarks.name()))
        &&& self.logins == (logins == Guarded::Live && selects(all, list, Engine::Passwords.name()))
        &&& self.open_places == (self.history || self.bookmarks)
        &&& self.registry.is_unconfigured()
    }

    /// The plan is the one that `params` asks for, given what the lookups
    /// found and what the in-memory cache held.
    pub open spec fn begins(
        &self,
        params: &SyncParams,
        places: bool,
        logins: Guarded,
        cache: Option<Seq<u8>>,
    ) -> bool {
        &&& self.is_plan_for(
            params.sync_all_engines,
            names(params.engines_to_sync@),
            places,
            logins,
        )
        &&& url_parse(params.acct_tokenserver_url@) == Ok::<url::Url, url::ParseError>(
            self.storage_init.tokenserver_url,
        )
        &&& self.storage_init.key_id@ == params.acct_key_id@
        &&& self.storage_init.access_token@ == params.acct_access_token@
        &&& self.mem_cached_state.blob@ == bytes_or_empty(cache)
    }

    /// The names of the stores to run after the device registry. A places
    /// connection that could not be opened takes history and bookmarks out of
    /// this pass; the credentials store does not depend on it.
    pub fn stores(&self, places_open: bool) -> (r: Vec<String>)
        ensures
            names(r@) == stores_to_run(
                self.history && places_open,
                self.bookmarks && places_open,
                self.logins,
            ),
    {
        let mut out: Vec<String> = Vec::new();
        if self.history && places_open {
            out.push(Engine::History.as_str().to_owned());
        }
        if self.bookmarks && places_open {
            out.push(Engine::Bookmarks.as_str().to_owned());
        }
        if self.logins {
            out.push(Engine::Passwords.as_str().to_owned());
        }
        assert(names(out@) =~= stores_to_run(
            self.history && places_open,
            self.bookmarks && places_open,
            self.logins,
        ));
        out
    }

    /// The names of the stores to run once the device registry has run. The
    /// registry is the one list of this account's devices and of the commands
    /// that wait for them: where it failed, the pass is over and no store runs.
    pub fn stores_after_registry(&self, places_open: bool, registry_failed: bool) -> (r: Vec<
        String,
    >)
        ensures
            names(r@) == if registry_failed {
                Seq::<Seq<char>>::empty()
            } else {
                stores_to_run(
                    self.history && places_open,
                    self.bookmarks && places_open,
                    self.logins,
                )
            },
    {
        if registry_failed {
            let none: Vec<String> = Vec::new();
            assert(names(none@) =~= Seq::<Seq<char>>::empty());
            none
        } else {
            self.stores(places_open)
        }
    }
}

/// Whether `e` is the error owed to a request that cannot begin. A request
/// is held to its names first, then to its key bundle, then to its
/// token-server address, and last to the lock of the credentials store.
pub open spec fn begin_refusal(
    list: Seq<Seq<char>>,
    have: Seq<Seq<char>>,
    key_bundle_error: Option<Seq<char>>,
    url_error: Option<url::ParseError>,
    logins: Guarded,
    e: ErrorKindView,
) -> bool {
    if !accepts(list, have) {
        rejects(list, have, e)
    } else if let Some(m) = key_bundle_error {
        e == ErrorKindView::InvalidKeyBundle(m)
    } else if let Some(u) = url_error {
        e == ErrorKindView::UrlParseError(u)
    } else {
        logins == Guarded::Poisoned && e == ErrorKindView::LockPoisoned(Engine::Passwords.name())
    }
}

/// The content of a cache; an absent one is empty.
pub open spec fn bytes_or_empty(b: Option<Seq<u8>>) -> Seq<u8> {
    match b {
        Some(s) => s,
        None => Seq::empty(),
    }
}

impl SyncManager {
    /// Begins a pass. `avail` is what the lookups of the registered stores
    /// found, and `key_bundle_error` the message of the key bundle's decoder if
    /// it refused the request's key.
    ///
    /// A request that is refused leaves the manager as it was. One that is
    /// accepted takes the in-memory cache into the plan.
    pub fn begin_sync(
        &mut self,
        params: &SyncParams,
        avail: &Availability,
        key_bundle_error: Option<String>,
    ) -> (r: Result<PassPlan, ErrorKind>)
        ensures
            ({
                let list = names(params.engines_to_sync@);
                let places = old(self).places_live(*avail);
                let logins = old(self).logins_state(*avail);
                let have = engines_at_hand(places, logins);
                let url_error = url_parse_error(params.acct_tokenserver_url@);
                match r {
                    Err(e) => *final(self) == *old(self) && begin_refusal(
                        list,
                        have,
                        text_of(key_bundle_error),
                        url_error,
                        logins,
                        e@,
                    ),
                    Ok(plan) => {
                        &&& accepts(list, have)
                        &&& key_bundle_error is None
                        &&& url_parses(params.acct_tokenserver_url@)
                        &&& logins != Guarded::Poisoned
                        &&& plan.begins(params, places, logins, old(self).cached())
                        &&& final(self).cached() is None
                        &&& final(self).places_token() == old(self).places_token()
                        &&& final(self).logins_token() == old(self).logins_token()
                    },
                }
            }),
    {
        let have = self.available_engines(avail);
        match check_engine_list(params.engines_to_sync.as_slice(), have.as_slice()) {
            Err(e) => {
                proof {
                    lemma_verdict_unique(names(params.engines_to_sync@), labels(have@), e@, e@);
                }
                return Err(e);
            },
            Ok(()) => {},
        }
        if let Some(m) = key_bundle_error {
            return Err(ErrorKind::InvalidKeyBundle(m));
        }
        let url = parse_url(params.acct_tokenserver_url.as_str());
        let init = match storage_init(params, url) {
            Err(e) => {
                return Err(e);
            },
            Ok(init) => init,
        };
        let places = self.live_places(avail);
        let logins = self.state_of_logins(avail);
        if logins == Guarded::Poisoned {
            return Err(ErrorKind::LockPoisoned(Engine::Passwords.as_str().to_owned()));
        }
        let history = places && should_sync(params, Engine::History.as_str());
        let bookmarks = places && should_sync(params, Engine::Bookmarks.as_str());
        let run_logins = logins == Guarded::Live && should_sync(params, Engine::Passwords.as_str());
        let mem_cached_state = self.take_cache();
        Ok(
            PassPlan {
                storage_init: init,
                registry: Settings::unconfigured(),
                open_places: history || bookmarks,
                history,
                bookmarks,
                logins: run_logins,
                mem_cached_state,
            },
        )
    }
}

/// What one store reported: its engine's name, and its message if it failed.
#[derive(Clone, Debug, PartialEq, Eq)]
pub struct StoreOutcome {
    pub engine: String,
    pub error: Option<String>,
}

pub struct StoreOutcomeView {
    pub engine: Seq<char>,
    pub error: Option<Seq<char>>,
}

impl View for StoreOutcome {
    type V = StoreOutcomeView;

    open spec fn view(&self) -> StoreOutcomeView {
        StoreOutcomeView { engine: self.engine@, error: text_of(self.error) }
    }
}

/// What a list of stores reported, each with its texts.
pub open spec fn outcome_views(v: Seq<StoreOutcome>) -> Seq<StoreOutcomeView> {
    v.map_values(|o: StoreOutcome| o@)
}

/// A list of failures, each with its texts.
pub open spec fn failure_views(v: Seq<EngineFailure>) -> Seq<FailureText> {
    v.map_values(|f: EngineFailure| f@)
}

/// A list of failures without the entry of one engine.
pub open spec fn without_engine(f: Seq<FailureText>, engine: Seq<char>) -> Seq<FailureText>
    decreases f.len(),
{
    if f.len() == 0 {
        seq![]
    } else {
        let before = without_engine(f.drop_last(), engine);
        if f.last().engine == engine {
            before
        } else {
            before.push(f.last())
        }
    }
}

/// The engines that failed, each with its message. The list stands for a
/// map from engine to message: an engine that succeeded has no entry, and
/// where an engine was reported more than once its last report counts.
pub open spec fn failures(s: Seq<StoreOutcomeView>) -> Seq<FailureText>
    decreases s.len(),
{
    if s.len() == 0 {
        seq![]
    } else {
        let before = without_engine(failures(s.drop_last()), s.last().engine);
        match s.last().error {
            Some(m) => before.push(FailureText { engine: s.last().engine, message: m }),
            None => before,
        }
    }
}

/// Whether a list of failures holds an entry for an engine.
pub open spec fn has_engine(f: Seq<FailureText>, engine: Seq<char>) -> bool {
    exists|i: int| 0 <= i < f.len() && (#[trigger] f[i]).engine == engine
}

/// No engine has two entries.
pub open spec fn one_entry_each(f: Seq<FailureText>) -> bool {
    forall|a: int, b: int| 0 <= a < b < f.len() ==> (#[trigger] f[a]).engine != (#[trigger] f[b]).engine
}

/// What the stores and the device registry reported of a pass.
#[derive(Debug)]
pub struct PassRun {
    /// The device registry's message, if it failed. It ran first.
    pub registry_error: Option<String>,
    /// How the pass ended as a whole.
    pub status: PassStatus,
    /// What each store that ran reported, in the order in which they ran.
    pub stores: Vec<StoreOutcome>,
    /// The pass's telemetry, serialized.
    pub telemetry_json: String,
    /// The blob to persist, if the pass produced one.
    pub persisted_state: Option<String>,
    /// The in-memory cache as the pass left it.
    pub mem_cached_state: MemoryCachedState,
}

/// The status that the caller sees. A failure of the device registry is
/// never reported as a success, whatever status came with it.
pub open spec fn final_status(registry_failed: bool, status: PassStatus) -> ServiceStatus {
    if registry_failed && status == PassStatus::Success {
        ServiceStatus::OtherError
    } else {
        public_status(status)
    }
}

/// The failures that the caller sees. A failure of the device registry
/// aborts the pass, and what the stores reported is discarded.
pub open spec fn final_failures(registry_failed: bool, stores: Seq<StoreOutcomeView>) -> Seq<
    FailureText,
> {
    if registry_failed {
        seq![]
    } else {
        failures(stores)
    }
}

/// Whether `r` is the result that the caller is owed for what was reported
/// of a pass.
pub open spec fn reports(r: SyncResult, run: PassRun) -> bool {
    &&& r.status == final_status(run.registry_error is Some, run.status)
    &&& failure_views(r.results@) == final_failures(
        run.registry_error is Some,
        outcome_views(run.stores@),
    )
    &&& one_entry_each(failure_views(r.results@))
    &&& !r.have_declined
    &&& r.declined@.len() == 0
    &&& r.next_sync_allowed_at is None
    &&& r.persisted_state@ == match run.persisted_state {
        Some(s) => s@,
        None => Seq::empty(),
    }
    &&& r.telemetry_json matches Some(t) && t@ == run.telemetry_json@
}

fn remove_engine(v: &Vec<EngineFailure>, engine: &str) -> (r: Vec<EngineFailure>)
    ensures
        failure_views(r@) == without_engine(failure_views(v@), engine@),
{
    let mut out: Vec<EngineFailure> = Vec::new();
    let mut i: usize = 0;
    assert(failure_views(v@).take(0) =~= Seq::empty());
    while i < v.len()
        invariant
            i <= v.len(),
            failure_views(out@) =~= without_engine(failure_views(v@).take(i as int), engine@),
        decreases v.len() - i,
    {
        let ghost all = failure_views(v@);
        assert(all.take(i + 1).drop_last() =~= all.take(i as int));
        assert(all.take(i + 1).last() == v@[i as int]@);
        let ghost before = failure_views(out@);
        if !same_text(v[i].engine.as_str(), engine) {
            let f = EngineFailure { engine: v[i].engine.clone(), message: v[i].message.clone() };
            out.push(f);
            assert(failure_views(out@) =~= before.push(f@));
        }
        i += 1;
    }
    assert(failure_views(v@).take(v.len() as int) =~= failure_views(v@));
    out
}

/// Collects the engines that failed, with their messages: at most one entry
/// for each engine, and for an engine reported more than once the last report.
pub fn collect_failures(stores: &Vec<StoreOutcome>) -> (r: Vec<EngineFailure>)
    ensures
        failure_views(r@) == failures(outcome_views(stores@)),
        one_entry_each(failure_views(r@)),
{
    let mut out: Vec<EngineFailure> = Vec::new();
    let mut i: usize = 0;
    assert(outcome_views(stores@).take(0) =~= Seq::empty());
    while i < stores.len()
        invariant
            i <= stores.len(),
            failure_views(out@) =~= failures(outcome_views(stores@).take(i as int)),
        decreases stores.len() - i,
    {
        let ghost all = outcome_views(stores@);
        assert(all.take(i + 1).drop_last() =~= all.take(i as int));
        assert(all.take(i + 1).last() == stores@[i as int]@);
        out = remove_engine(&out, stores[i].engine.as_str());
        let ghost before = failure_views(out@);
        match &stores[i].error {
            Some(m) => {
                let f = EngineFailure { engine: stores[i].engine.clone(), message: m.clone() };
                out.push(f);
                assert(failure_views(out@) =~= before.push(f@));
            },
            None => {},
        }
        i += 1;
    }
    assert(outcome_views(stores@).take(stores.len() as int) =~= outcome_views(stores@));
    proof {
        lemma_failures_one_entry_each(outcome_views(stores@));
    }
    out
}

/// Taking an engine's entry out leaves no entry for it, adds none for
/// another, and keeps a list with one entry each as such.
pub proof fn lemma_without_engine(f: Seq<FailureText>, engine: Seq<char>)
    ensures
        !has_engine(without_engine(f, engine), engine),
        forall|other: Seq<char>| #[trigger]
            has_engine(without_engine(f, engine), other) ==> has_engine(f, other),
        one_entry_each(f) ==> one_entry_each(without_engine(f, engine)),
        !has_engine(f, engine) ==> without_engine(f, engine) == f,
    decreases f.len(),
{
    if f.len() > 0 {
        let g = f.drop_last();
        let l = f.last();
        let wg = without_engine(g, engine);
        let w = without_engine(f, engine);
        lemma_without_engine(g, engine);
        assert forall|other: Seq<char>| has_engine(w, other) implies has_engine(f, other) by {
            let i = choose|i: int| 0 <= i < w.len() && (#[trigger] w[i]).engine == other;
            if i < wg.len() {
                assert(wg[i].engine == other);
                assert(has_engine(wg, other));
                let j = choose|j: int| 0 <= j < g.len() && (#[trigger] g[j]).engine == other;
                assert(f[j].engine == other);
            } else {
                assert(f[f.len() - 1].engine == other);
            }
        }
        if has_engine(w, engine) {
            let i = choose|i: int| 0 <= i < w.len() && (#[trigger] w[i]).engine == engine;
            if i < wg.len() {
                assert(wg[i].engine == engine);
                assert(has_engine(wg, engine));
            }
            assert(false);
        }
        if one_entry_each(f) {
            assert(one_entry_each(g)) by {
                assert forall|a: int, b: int| 0 <= a < b < g.len() implies (#[trigger] g[a]).engine
                    != (#[trigger] g[b]).engine by {
                    assert(f[a].engine != f[b].engine);
                }
            }
            if l.engine != engine {
                assert forall|a: int, b: int| 0 <= a < b < w.len() implies (#[trigger] w[a]).engine
                    != (#[trigger] w[b]).engine by {
                    if b < wg.len() {
                        assert(wg[a].engine != wg[b].engine);
                    } else {
                        assert(wg[a].engine == w[a].engine);
                        if wg[a].engine == l.engine {
                            assert(has_engine(wg, l.engine));
                            assert(has_engine(g, l.engine));
                            let j = choose|j: int|
                                0 <= j < g.len() && (#[trigger] g[j]).engine == l.engine;
                            assert(f[j].engine != f[f.len() - 1].engine);
                        }
                    }
                }
            }
        }
        if !has_engine(f, engine) {
            assert(!has_engine(g, engine)) by {
                if has_engine(g, engine) {
                    let j = choose|j: int| 0 <= j < g.len() && (#[trigger] g[j]).engine == engine;
                    assert(f[j].engine == engine);
                }
            }
            assert(f[f.len() - 1].engine != engine);
            assert(w =~= f);
        }
    }
}

/// The failures of a pass hold at most one entry for each engine, however
/// often an engine was reported.
pub proof fn lemma_failures_one_entry_each(s: Seq<StoreOutcomeView>)
    ensures
        one_entry_each(failures(s)),
    decreases s.len(),
{
    if s.len() > 0 {
        let e = s.last().engine;
        let w = without_engine(failures(s.drop_last()), e);
        lemma_failures_one_entry_each(s.drop_last());
        lemma_without_engine(failures(s.drop_last()), e);
        let r = failures(s);
        assert forall|a: int, b: int| 0 <= a < b < r.len() implies (#[trigger] r[a]).engine
            != (#[trigger] r[b]).engine by {
            if b < w.len() {
                assert(w[a].engine != w[b].engine);
            } else {
                assert(r[a] == w[a]);
                if w[a].engine == e {
                    assert(has_engine(w, e));
                }
            }
        }
    }
}

impl SyncManager {
    /// Ends a pass: folds what was reported into the result for the caller and
    /// puts the pass's in-memory cache in place of the old one.
    pub fn finish_sync(&mut self, run: PassRun) -> (r: SyncResult)
        ensures
            reports(r, run),
            final(self).cached() == Some(run.mem_cached_state.blob@),
            final(self).places_token() == old(self).places_token(),
            final(self).logins_token() == old(self).logins_token(),
    {
        let registry_failed = run.registry_error.is_some();
        let status = if registry_failed && run.status == PassStatus::Success {
            ServiceStatus::OtherError
        } else {
            ServiceStatus::from(run.status)
        };
        let results = if registry_failed {
            let none: Vec<EngineFailure> = Vec::new();
            assert(failure_views(none@) =~= Seq::empty());
            none
        } else {
            collect_failures(&run.stores)
        };
        let persisted_state = match run.persisted_state {
            Some(s) => s,
            None => String::new(),
        };
        self.put_cache(run.mem_cached_state);
        SyncResult {
            status,
            results,
            have_declined: false,
            declined: Vec::new(),
            next_sync_allowed_at: None,
            persisted_state,
            telemetry_json: Some(run.telemetry_json),
        }
    }
}

impl SyncManager {
    /// One pass from beginning to end. `run_pass` is handed the plan, runs the
    /// device registry and the stores, and reports what happened.
    ///
    /// A request that is refused leaves the manager as it was, and `run_pass`
    /// is not called. Otherwise the result is the one owed for what `run_pass`
    /// reported of the plan for this request, and the in-memory cache is the
    /// one that the pass left.
    pub fn sync<F: FnOnce(PassPlan) -> PassRun>(
        &mut self,
        params: &SyncParams,
        avail: &Availability,
        key_bundle_error: Option<String>,
        run_pass: F,
    ) -> (r: Result<SyncResult, ErrorKind>)
        requires
            forall|plan: PassPlan|
                plan.begins(
                    params,
                    old(self).places_live(*avail),
                    old(self).logins_state(*avail),
                    old(self).cached(),
                ) ==> #[trigger] run_pass.requires((plan,)),
        ensures
            ({
                let list = names(params.engines_to_sync@);
                let places = old(self).places_live(*avail);
                let logins = old(self).logins_state(*avail);
                let have = engines_at_hand(places, logins);
                let url_error = url_parse_error(params.acct_tokenserver_url@);
                match r {
                    Err(e) => *final(self) == *old(self) && begin_refusal(
                        list,
                        have,
                        text_of(key_bundle_error),
                        url_error,
                        logins,
                        e@,
                    ),
                    Ok(result) => {
                        &&& accepts(list, have)
                        &&& key_bundle_error is None
                        &&& url_parses(params.acct_tokenserver_url@)
                        &&& logins != Guarded::Poisoned
                        &&& exists|plan: PassPlan, run: PassRun|
                            {
                                &&& plan.begins(params, places, logins, old(self).cached())
                                &&& #[trigger] run_pass.ensures((plan,), run)
                                &&& reports(result, run)
                                &&& final(self).cached() == Some(run.mem_cached_state.blob@)
                            }
                        &&& final(self).places_token() == old(self).places_token()
                        &&& final(self).logins_token() == old(self).logins_token()
                    },
                }
            }),
    {
        let plan = match self.begin_sync(params, avail, key_bundle_error) {
            Err(e) => {
                return Err(e);
            },
            Ok(plan) => plan,
        };
        let ghost planned = plan;
        let run = run_pass(plan);
        let ghost reported = run;
        let result = self.finish_sync(run);
        assert(run_pass.ensures((planned,), reported));
        Ok(result)
    }
}

/// A pass whose device registry failed is not reported as a success, and
/// nothing of what the stores reported shows in its result.
pub proof fn lemma_registry_failure_is_fatal(status: PassStatus, stores: Seq<StoreOutcomeView>)
    ensures
        final_status(true, status) != ServiceStatus::Success,
        final_failures(true, stores).len() == 0,
{
}

/// Where no store failed, there are no failures.
pub proof fn lemma_no_failure(stores: Seq<StoreOutcomeView>)
    requires
        forall|j: int| 0 <= j < stores.len() ==> (#[trigger] stores[j]).error is None,
    ensures
        failures(stores).len() == 0,
    decreases stores.len(),
{
    if stores.len() > 0 {
        lemma_no_failure(stores.drop_last());
        assert(failures(stores.drop_last()) =~= seq![]);
    }
}

/// Where the device registry succeeded and exactly one store failed, each
/// store being reported once, the result holds exactly one failure, that
/// store's name with its message, and the status is the public form of the
/// status of the pass as a whole.
pub proof fn lemma_single_failure(
    status: PassStatus,
    stores: Seq<StoreOutcomeView>,
    k: int,
    message: Seq<char>,
)
    requires
        0 <= k < stores.len(),
        stores[k].error == Some(message),
        forall|j: int| 0 <= j < stores.len() && j != k ==> (#[trigger] stores[j]).error is None,
        forall|j: int|
            0 <= j < stores.len() && j != k ==> (#[trigger] stores[j]).engine != stores[k].engine,
    ensures
        final_failures(false, stores) == seq![
            FailureText { engine: stores[k].engine, message: message },
        ],
        final_status(false, status) == public_status(status),
    decreases stores.len(),
{
    let before = stores.drop_last();
    let entry = FailureText { engine: stores[k].engine, message: message };
    if k == stores.len() - 1 {
        lemma_no_failure(before);
        assert(failures(before) =~= seq![]);
        assert(failures(stores) =~= seq![entry]);
    } else {
        assert(before[k] == stores[k]);
        assert forall|j: int| 0 <= j < before.len() && j != k implies (#[trigger] before[j]).error is None
            && before[j].engine != before[k].engine by {
            assert(stores[j].error is None);
        }
        lemma_single_failure(status, before, k, message);
        let last = stores.last();
        assert(stores[stores.len() - 1].error is None);
        assert(last.engine != stores[k].engine);
        let one = seq![entry];
        assert(!has_engine(one, last.engine));
        lemma_without_engine(one, last.engine);
        assert(failures(stores) == one);
    }
}

/// With no store registered, a wipe of everything and a disconnect have
/// nothing to perform, whatever the lookups say.
pub proof fn lemma_nothing_registered_nothing_done(m: SyncManager, avail: Availability)
    requires
        m.places_token() is None,
        m.logins_token() is None,
    ensures
        wipe_all_plan(m.places_live(avail), m.logins_state(avail)).len() == 0,
        reset_all_plan(m.places_live(avail), m.logins_state(avail)).len() == 0,
{
}

} // verus!
