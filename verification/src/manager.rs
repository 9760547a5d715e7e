//! The orchestrator of a pass and the registry of the stores it may drive.

use crate::error::{ErrorKind, ErrorKindView};
use crate::msg_types::SyncParams;
use crate::text::{has_label, has_name, labels, names, same_text};
use vstd::prelude::*;

verus! {

/// The engines that can be addressed by name. The device registry is not
/// among them: it takes part in every pass and is never asked for.
#[derive(Clone, Copy, Debug, PartialEq, Eq, Hash, Structural)]
pub enum Engine {
    Passwords,
    Bookmarks,
    History,
}

impl Engine {
    /// The name under which an engine is asked for, wiped and reset.
    pub open spec fn name(self) -> Seq<char> {
        match self {
            Engine::Passwords => "passwords"@,
            Engine::Bookmarks => "bookmarks"@,
            Engine::History => "history"@,
        }
    }

    pub fn as_str(self) -> (r: &'static str)
        ensures
            r@ == self.name(),
    {
        match self {
            Engine::Passwords => "passwords",
            Engine::Bookmarks => "bookmarks",
            Engine::History => "history",
        }
    }

    /// The engine that a name addresses, if it addresses one.
    pub fn named(name: &str) -> (r: Option<Engine>)
        ensures
            r == engine_named(name@),
    {
        if same_text(name, Engine::Passwords.as_str()) {
            Some(Engine::Passwords)
        } else if same_text(name, Engine::Bookmarks.as_str()) {
            Some(Engine::Bookmarks)
        } else if same_text(name, Engine::History.as_str()) {
            Some(Engine::History)
        } else {
            None
        }
    }
}

/// The catalog: the engine that a name addresses, if it addresses one.
pub open spec fn engine_named(name: Seq<char>) -> Option<Engine> {
    if name == Engine::Passwords.name() {
        Some(Engine::Passwords)
    } else if name == Engine::Bookmarks.name() {
        Some(Engine::Bookmarks)
    } else if name == Engine::History.name() {
        Some(Engine::History)
    } else {
        None
    }
}

/// Whether a name is in the catalog.
pub open spec fn in_catalog(name: Seq<char>) -> bool {
    engine_named(name) is Some
}

/// A requested name passes when it is in the catalog and a store is there for it.
pub open spec fn entry_passes(name: Seq<char>, have: Seq<Seq<char>>) -> bool {
    in_catalog(name) && have.contains(name)
}

/// The error owed to a name that does not pass.
pub open spec fn rejection(name: Seq<char>, have: Seq<Seq<char>>) -> ErrorKindView {
    if in_catalog(name) {
        ErrorKindView::UnsupportedFeature(name)
    } else {
        ErrorKindView::UnknownEngine(name)
    }
}

/// Every requested name passes.
pub open spec fn accepts(list: Seq<Seq<char>>, have: Seq<Seq<char>>) -> bool {
    forall|i: int| 0 <= i < list.len() ==> entry_passes(#[trigger] list[i], have)
}

/// `e` is the error owed to the first requested name that does not pass.
pub open spec fn rejects(list: Seq<Seq<char>>, have: Seq<Seq<char>>, e: ErrorKindView) -> bool {
    exists|i: int|
        0 <= i < list.len() && first_failure_at(list, have, i) && e == rejection(
            #[trigger] list[i],
            have,
        )
}

/// The name at `i` does not pass, and every name before it does.
pub open spec fn first_failure_at(list: Seq<Seq<char>>, have: Seq<Seq<char>>, i: int) -> bool {
    &&& 0 <= i < list.len()
    &&& !entry_passes(list[i], have)
    &&& forall|j: int| 0 <= j < i ==> entry_passes(#[trigger] list[j], have)
}

/// Whether a request selects an engine: by the flag for all, or by name.
pub open spec fn selects(all: bool, list: Seq<Seq<char>>, engine: Seq<char>) -> bool {
    all || list.contains(engine)
}

/// Whether the request selects `engine`.
pub fn should_sync(p: &SyncParams, engine: &str) -> (r: bool)
    ensures
        r == selects(p.sync_all_engines, names(p.engines_to_sync@), engine@),
{
    p.sync_all_engines || has_name(p.engines_to_sync.as_slice(), engine)
}

/// Validates the names a request asks for against the engines at hand. The
/// names are taken in order, and the first that does not pass decides the error.
pub fn check_engine_list(list: &[String], have_engines: &[&str]) -> (r: Result<
    (),
    ErrorKind,
>)
    ensures
        match r {
            Ok(()) => accepts(names(list@), labels(have_engines@)),
            Err(e) => rejects(names(list@), labels(have_engines@), e@),
        },
{
    let mut i: usize = 0;
    while i < list.len()
        invariant
            i <= list.len(),
            forall|j: int| 0 <= j < i ==> entry_passes(#[trigger] names(list@)[j], labels(have_engines@)),
        decreases list.len() - i,
    {
        let e = &list[i];
        assert(names(list@)[i as int] == e@);
        if Engine::named(e.as_str()).is_some() {
            if !has_label(have_engines, e.as_str()) {
                assert(first_failure_at(names(list@), labels(have_engines@), i as int));
                return Err(ErrorKind::UnsupportedFeature(e.clone()));
            }
        } else {
            assert(first_failure_at(names(list@), labels(have_engines@), i as int));
            return Err(ErrorKind::UnknownEngine(e.clone()));
        }
        i += 1;
    }
    Ok(())
}

/// A request that is accepted is not rejected, and the error of a rejected
/// request is determined by the request.
pub proof fn lemma_verdict_unique(
    list: Seq<Seq<char>>,
    have: Seq<Seq<char>>,
    e1: ErrorKindView,
    e2: ErrorKindView,
)
    requires
        rejects(list, have, e1),
    ensures
        !accepts(list, have),
        rejects(list, have, e2) ==> e1 == e2,
{
    let i = choose|i: int|
        0 <= i < list.len() && first_failure_at(list, have, i) && e1 == rejection(
            #[trigger] list[i],
            have,
        );
    if rejects(list, have, e2) {
        let k = choose|k: int|
            0 <= k < list.len() && first_failure_at(list, have, k) && e2 == rejection(
                #[trigger] list[k],
                have,
            );
        assert(i == k);
    }
}

/// A request in which a name outside the catalog stands before every
/// catalog name that has no store is refused with `UnknownEngine`.
pub proof fn lemma_unknown_name_is_refused(
    list: Seq<Seq<char>>,
    have: Seq<Seq<char>>,
    i: int,
    e: ErrorKindView,
)
    requires
        0 <= i < list.len(),
        !in_catalog(list[i]),
        forall|j: int| 0 <= j < i && in_catalog(#[trigger] list[j]) ==> have.contains(list[j]),
    ensures
        !accepts(list, have),
        rejects(list, have, e) ==> e is UnknownEngine,
{
    assert(!entry_passes(list[i], have));
    if rejects(list, have, e) {
        let k = choose|k: int|
            0 <= k < list.len() && first_failure_at(list, have, k) && e == rejection(
                #[trigger] list[k],
                have,
            );
        assert(k <= i);
    }
}

/// A request in which a catalog name without a store stands before every
/// name outside the catalog is refused with `UnsupportedFeature`.
pub proof fn lemma_unavailable_name_is_refused(
    list: Seq<Seq<char>>,
    have: Seq<Seq<char>>,
    i: int,
    e: ErrorKindView,
)
    requires
        0 <= i < list.len(),
        in_catalog(list[i]),
        !have.contains(list[i]),
        forall|j: int| 0 <= j < i ==> in_catalog(#[trigger] list[j]),
    ensures
        !accepts(list, have),
        rejects(list, have, e) ==> e is UnsupportedFeature,
{
    assert(!entry_passes(list[i], have));
    if rejects(list, have, e) {
        let k = choose|k: int|
            0 <= k < list.len() && first_failure_at(list, have, k) && e == rejection(
                #[trigger] list[k],
                have,
            );
        assert(k <= i);
    }
}

/// What a lookup of the credentials store finds. The store sits behind a
/// lock, and a holder that failed while holding it leaves the lock poisoned.
#[derive(Clone, Copy, Debug, PartialEq, Eq, Structural)]
pub enum Guarded {
    Disconnected,
    Live,
    Poisoned,
}

/// What the lookups of the registered stores find at one moment.
#[derive(Clone, Copy, Debug)]
pub struct Availability {
    /// Whether the owner of the places store still holds it.
    pub places: bool,
    pub logins: Guarded,
}

/// One operation on one engine's store, for the caller to perform.
#[derive(Clone, Copy, Debug, PartialEq, Eq, Structural)]
pub enum StoreAction {
    /// Delete the engine's data, here and on the server.
    Wipe(Engine),
    /// Forget the engine's sync bookkeeping, so that the next pass
    /// reconciles everything.
    Reset(Engine),
}

impl StoreAction {
    /// The engine that an action is on.
    pub open spec fn target(self) -> Engine {
        match self {
            StoreAction::Wipe(e) => e,
            StoreAction::Reset(e) => e,
        }
    }

    pub fn engine(self) -> (r: Engine)
        ensures
            r == self.target(),
    {
        match self {
            StoreAction::Wipe(e) => e,
            StoreAction::Reset(e) => e,
        }
    }
}

/// The cache that lives as long as the process and is never persisted. Its
/// content is opaque to the orchestrator.
#[derive(Debug, PartialEq, Eq)]
pub struct MemoryCachedState {
    pub blob: Vec<u8>,
}

impl Default for MemoryCachedState {
    fn default() -> (r: MemoryCachedState)
        ensures
            r.blob@ == Seq::<u8>::empty(),
    {
        MemoryCachedState { blob: Vec::new() }
    }
}

/// The orchestrator. It holds a token for each registered store, never the
/// store itself: the owner may drop a store at any time.
pub struct SyncManager {
    mem_cached_state: Option<MemoryCachedState>,
    places: Option<u64>,
    logins: Option<u64>,
}

/// A result with its error, if it is one, taken by its texts.
pub open spec fn result_view<T>(r: Result<T, ErrorKind>) -> Result<T, ErrorKindView> {
    match r {
        Ok(v) => Ok(v),
        Err(e) => Err(e@),
    }
}

/// Why an engine's store cannot be worked on, if it cannot. The credentials
/// store sits behind its lock; bookmarks and history share the places store.
pub open spec fn refusal(engine: Engine, places: bool, logins: Guarded) -> Option<ErrorKindView> {
    match engine {
        Engine::Passwords => match logins {
            Guarded::Live => None,
            Guarded::Poisoned => Some(ErrorKindView::LockPoisoned(engine.name())),
            Guarded::Disconnected => Some(ErrorKindView::ConnectionClosed(engine.name())),
        },
        _ => if places {
            None
        } else {
            Some(ErrorKindView::ConnectionClosed(engine.name()))
        },
    }
}

/// What `wipe` decides for a name: the catalog decides whether it is known,
/// the lookups whether its store can be worked on.
pub open spec fn wipe_decision(name: Seq<char>, places: bool, logins: Guarded) -> Result<
    StoreAction,
    ErrorKindView,
> {
    match engine_named(name) {
        None => Err(ErrorKindView::UnknownEngine(name)),
        Some(engine) => match refusal(engine, places, logins) {
            Some(e) => Err(e),
            None => Ok(StoreAction::Wipe(engine)),
        },
    }
}

/// What `reset` decides for a name, in the same way.
pub open spec fn reset_decision(name: Seq<char>, places: bool, logins: Guarded) -> Result<
    StoreAction,
    ErrorKindView,
> {
    match engine_named(name) {
        None => Err(ErrorKindView::UnknownEngine(name)),
        Some(engine) => match refusal(engine, places, logins) {
            Some(e) => Err(e),
            None => Ok(StoreAction::Reset(engine)),
        },
    }
}

/// There is one catalog: a name that a request may hold is a name that
/// `wipe` and `reset` know, and the other way round.
pub proof fn lemma_one_catalog(name: Seq<char>, places: bool, logins: Guarded)
    ensures
        in_catalog(name) <==> !(wipe_decision(name, places, logins) matches Err(
            ErrorKindView::UnknownEngine(_),
        )),
        in_catalog(name) <==> !(reset_decision(name, places, logins) matches Err(
            ErrorKindView::UnknownEngine(_),
        )),
        forall|action: StoreAction|
            wipe_decision(name, places, logins) == Ok::<StoreAction, ErrorKindView>(action)
                || reset_decision(name, places, logins) == Ok::<StoreAction, ErrorKindView>(action)
                ==> action.target().name() == name,
{
}

/// The engines whose stores are live, in the order in which an operation on
/// all of them takes them.
pub open spec fn live_engines(places: bool, logins: Guarded) -> Seq<Engine> {
    (if logins == Guarded::Live {
        seq![Engine::Passwords]
    } else {
        seq![]
    }) + (if places {
        seq![Engine::Bookmarks, Engine::History]
    } else {
        seq![]
    })
}

/// The wipes of a wipe of everything: one for each live engine.
pub open spec fn wipe_all_plan(places: bool, logins: Guarded) -> Seq<StoreAction> {
    live_engines(places, logins).map_values(|e: Engine| StoreAction::Wipe(e))
}

/// The resets of a reset of everything: one for each live engine.
pub open spec fn reset_all_plan(places: bool, logins: Guarded) -> Seq<StoreAction> {
    live_engines(places, logins).map_values(|e: Engine| StoreAction::Reset(e))
}

/// The engines that a request may name at one moment, in the order in which
/// they are looked up. The credentials store counts while its owner holds it,
/// whatever the state of its lock.
pub open spec fn engines_at_hand(places: bool, logins: Guarded) -> Seq<Seq<char>> {
    (if places {
        seq![Engine::History.name(), Engine::Bookmarks.name()]
    } else {
        seq![]
    }) + (if logins != Guarded::Disconnected {
        seq![Engine::Passwords.name()]
    } else {
        seq![]
    })
}

/// What an operation on every store asks of the caller: the actions to
/// perform on the stores that are live, and what became of the others. A
/// store whose owner dropped it is passed over; a credentials store whose
/// lock is poisoned is passed over too, and `logins` says so.
#[derive(Debug, PartialEq, Eq)]
pub struct AllStoresPlan {
    pub actions: Vec<StoreAction>,
    /// What the lookup of the credentials store came to.
    pub logins: Guarded,
    /// Whether the places store was found alive.
    pub places_live: bool,
}

fn check_store(engine: Engine, places: bool, logins: Guarded) -> (r: Result<(), ErrorKind>)
    ensures
        match refusal(engine, places, logins) {
            None => r is Ok,
            Some(e) => r matches Err(k) && k@ == e,
        },
{
    match engine {
        Engine::Passwords => match logins {
            Guarded::Live => Ok(()),
            Guarded::Poisoned => Err(ErrorKind::LockPoisoned(engine.as_str().to_owned())),
            Guarded::Disconnected => Err(ErrorKind::ConnectionClosed(engine.as_str().to_owned())),
        },
        _ => if places {
            Ok(())
        } else {
            Err(ErrorKind::ConnectionClosed(engine.as_str().to_owned()))
        },
    }
}

impl SyncManager {
    /// The token of the registered places store, if one is registered.
    pub closed spec fn places_token(&self) -> Option<u64> {
        self.places
    }

    /// The token of the registered credentials store, if one is registered.
    pub closed spec fn logins_token(&self) -> Option<u64> {
        self.logins
    }

    /// The content of the in-memory cache, if a pass has left one.
    pub closed spec fn cached(&self) -> Option<Seq<u8>> {
        match self.mem_cached_state {
            Some(c) => Some(c.blob@),
            None => None,
        }
    }

    /// Whether the places store is registered and found alive.
    pub open spec fn places_live(&self, avail: Availability) -> bool {
        self.places_token().is_some() && avail.places
    }

    /// What the lookup of the credentials store comes to: a store that is not
    /// registered is disconnected, whatever the lookup says.
    pub open spec fn logins_state(&self, avail: Availability) -> Guarded {
        if self.logins_token().is_some() {
            avail.logins
        } else {
            Guarded::Disconnected
        }
    }

    /// A manager with no store registered and no cache.
    pub fn new() -> (r: SyncManager)
        ensures
            r.places_token().is_none(),
            r.logins_token().is_none(),
            r.cached().is_none(),
    {
        SyncManager { mem_cached_state: None, places: None, logins: None }
    }

    /// Registers the places store under `token`, in place of any earlier one.
    pub fn set_places(&mut self, token: u64)
        ensures
            final(self).places_token() == Some(token),
            final(self).logins_token() == old(self).logins_token(),
            final(self).cached() == old(self).cached(),
    {
        self.places = Some(token);
    }

    /// Registers the credentials store under `token`, in place of any earlier one.
    pub fn set_logins(&mut self, token: u64)
        ensures
            final(self).logins_token() == Some(token),
            final(self).places_token() == old(self).places_token(),
            final(self).cached() == old(self).cached(),
    {
        self.logins = Some(token);
    }

    pub fn places(&self) -> (r: Option<u64>)
        ensures
            r == self.places_token(),
    {
        self.places
    }

    pub fn logins(&self) -> (r: Option<u64>)
        ensures
            r == self.logins_token(),
    {
        self.logins
    }

    pub(crate) fn live_places(&self, avail: &Availability) -> (r: bool)
        ensures
            r == self.places_live(*avail),
    {
        self.places.is_some() && avail.places
    }

    pub(crate) fn state_of_logins(&self, avail: &Availability) -> (r: Guarded)
        ensures
            r == self.logins_state(*avail),
    {
        if self.logins.is_some() {
            avail.logins
        } else {
            Guarded::Disconnected
        }
    }

    /// Takes the in-memory cache out of the manager; an empty one where no
    /// pass has left any.
    pub(crate) fn take_cache(&mut self) -> (r: MemoryCachedState)
        ensures
            r.blob@ == match old(self).cached() {
                Some(b) => b,
                None => Seq::empty(),
            },
            final(self).cached() is None,
            final(self).places_token() == old(self).places_token(),
            final(self).logins_token() == old(self).logins_token(),
    {
        match self.mem_cached_state.take() {
            Some(c) => c,
            None => MemoryCachedState::default(),
        }
    }

    /// Puts the cache that a pass has left in place of whatever was there.
    pub(crate) fn put_cache(&mut self, cache: MemoryCachedState)
        ensures
            final(self).cached() == Some(cache.blob@),
            final(self).places_token() == old(self).places_token(),
            final(self).logins_token() == old(self).logins_token(),
    {
        self.mem_cached_state = Some(cache);
    }

    /// The names of the engines that a request may name now.
    pub fn available_engines(&self, avail: &Availability) -> (r: Vec<&'static str>)
        ensures
            labels(r@) == engines_at_hand(self.places_live(*avail), self.logins_state(*avail)),
    {
        let mut have: Vec<&'static str> = Vec::new();
        if self.live_places(avail) {
            have.push(Engine::History.as_str());
            have.push(Engine::Bookmarks.as_str());
        }
        if self.state_of_logins(avail) != Guarded::Disconnected {
            have.push(Engine::Passwords.as_str());
        }
        assert(labels(have@) =~= engines_at_hand(
            self.places_live(*avail),
            self.logins_state(*avail),
        ));
        have
    }

    /// Decides a wipe of one engine: the action to perform on its store, or
    /// why there is none. The manager itself is left as it was.
    pub fn wipe(&mut self, engine: &str, avail: &Availability) -> (r: Result<StoreAction, ErrorKind>)
        ensures
            *final(self) == *old(self),
            result_view(r) == wipe_decision(
                engine@,
                old(self).places_live(*avail),
                old(self).logins_state(*avail),
            ),
    {
        match Engine::named(engine) {
            None => Err(ErrorKind::UnknownEngine(engine.to_owned())),
            Some(e) => match check_store(e, self.live_places(avail), self.state_of_logins(avail)) {
                Err(k) => Err(k),
                Ok(()) => Ok(StoreAction::Wipe(e)),
            },
        }
    }

    /// Decides a reset of one engine's bookkeeping: the action to perform on
    /// its store, or why there is none. The manager itself is left as it was.
    pub fn reset(&mut self, engine: &str, avail: &Availability) -> (r: Result<
        StoreAction,
        ErrorKind,
    >)
        ensures
            *final(self) == *old(self),
            result_view(r) == reset_decision(
                engine@,
                old(self).places_live(*avail),
                old(self).logins_state(*avail),
            ),
    {
        match Engine::named(engine) {
            None => Err(ErrorKind::UnknownEngine(engine.to_owned())),
            Some(e) => match check_store(e, self.live_places(avail), self.state_of_logins(avail)) {
                Err(k) => Err(k),
                Ok(()) => Ok(StoreAction::Reset(e)),
            },
        }
    }

    /// The wipes to perform on the stores that are live, and what the
    /// lookups came to. This never fails: a store that is not live is passed
    /// over.
    pub fn wipe_all(&mut self, avail: &Availability) -> (r: AllStoresPlan)
        ensures
            *final(self) == *old(self),
            r.actions@ == wipe_all_plan(
                old(self).places_live(*avail),
                old(self).logins_state(*avail),
            ),
            r.logins == old(self).logins_state(*avail),
            r.places_live == old(self).places_live(*avail),
    {
        let logins = self.state_of_logins(avail);
        let places_live = self.live_places(avail);
        let mut actions: Vec<StoreAction> = Vec::new();
        if logins == Guarded::Live {
            actions.push(StoreAction::Wipe(Engine::Passwords));
        }
        if places_live {
            actions.push(StoreAction::Wipe(Engine::Bookmarks));
            actions.push(StoreAction::Wipe(Engine::History));
        }
        assert(actions@ =~= wipe_all_plan(places_live, logins));
        AllStoresPlan { actions, logins, places_live }
    }

    /// The resets to perform on the stores that are live, and what the
    /// lookups came to. This never fails: a store that is not live is passed
    /// over.
    pub fn reset_all(&mut self, avail: &Availability) -> (r: AllStoresPlan)
        ensures
            *final(self) == *old(self),
            r.actions@ == reset_all_plan(
                old(self).places_live(*avail),
                old(self).logins_state(*avail),
            ),
            r.logins == old(self).logins_state(*avail),
            r.places_live == old(self).places_live(*avail),
    {
        let logins = self.state_of_logins(avail);
        let places_live = self.live_places(avail);
        let mut actions: Vec<StoreAction> = Vec::new();
        if logins == Guarded::Live {
            actions.push(StoreAction::Reset(Engine::Passwords));
        }
        if places_live {
            actions.push(StoreAction::Reset(Engine::Bookmarks));
            actions.push(StoreAction::Reset(Engine::History));
        }
        assert(actions@ =~= reset_all_plan(places_live, logins));
        AllStoresPlan { actions, logins, places_live }
    }

    /// What signing out asks of the stores: what `reset_all` asks.
    pub fn disconnect(&mut self, avail: &Availability) -> (r: AllStoresPlan)
        ensures
            *final(self) == *old(self),
            r.actions@ == reset_all_plan(
                old(self).places_live(*avail),
                old(self).logins_state(*avail),
            ),
            r.logins == old(self).logins_state(*avail),
            r.places_live == old(self).places_live(*avail),
    {
        self.reset_all(avail)
    }
}

/// The result of a wipe or reset of one engine, from what its store reported.
pub fn store_result(failure: Option<String>) -> (r: Result<(), ErrorKind>)
    ensures
        match failure {
            None => r is Ok,
            Some(m) => r matches Err(e) && e@ == ErrorKindView::StoreError(m@),
        },
{
    match failure {
        None => Ok(()),
        Some(m) => Err(ErrorKind::StoreError(m)),
    }
}

} // verus!
