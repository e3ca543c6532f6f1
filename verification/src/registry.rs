//! The registry of live views. Each entry ties a native handle to the thread
//! that created it; only that thread may use or destroy the handle, while the
//! shared state of the view can be fetched from any thread.

use std::collections::HashMap;
use std::sync::Arc;
use vstd::prelude::*;
use crate::error::WebViewError;

verus! {

broadcast use vstd::std_specs::hash::group_hash_axioms;

/// The identity of a thread, as the host numbers its threads.
#[derive(Debug, Clone, Copy, PartialEq, Eq, Hash)]
pub struct ThreadMarker(pub u64);

/// The identifier that follows `id`.
pub open spec fn id_after(id: u64) -> u64 {
    if id == u64::MAX {
        0
    } else {
        (id + 1) as u64
    }
}

/// The identifiers that `n` successive calls of [`next_id`] return, given
/// that the first of them returns `first`.
pub open spec fn issued(first: u64, n: nat) -> Seq<u64>
    decreases n,
{
    if n == 0 {
        Seq::empty()
    } else {
        seq![first] + issued(id_after(first), (n - 1) as nat)
    }
}

/// A source of view identifiers.
pub struct IdGenerator {
    next: u64,
}

impl View for IdGenerator {
    type V = u64;

    /// The identifier that is handed out next.
    closed spec fn view(&self) -> u64 {
        self.next
    }
}

impl IdGenerator {
    /// A generator whose first identifier is 1.
    pub fn new() -> (ids: IdGenerator)
        ensures
            ids@ == 1,
    {
        IdGenerator { next: 1 }
    }
}

/// Generates a new view identifier.
pub fn next_id(ids: &mut IdGenerator) -> (id: u64)
    ensures
        id == old(ids)@,
        final(ids)@ == id_after(id),
{
    let id = ids.next;
    ids.next = id.wrapping_add(1);
    id
}

/// One live view: its native handle, the thread that owns the handle, and
/// the state that all threads share.
pub struct WebViewEntry<H, S> {
    pub handle: H,
    pub thread_id: ThreadMarker,
    pub state: Arc<S>,
}

impl<H: Copy, S> Clone for WebViewEntry<H, S> {
    fn clone(&self) -> (copy: Self)
        ensures
            copy == *self,
    {
        WebViewEntry { handle: self.handle, thread_id: self.thread_id, state: share(&self.state) }
    }
}

/// `Arc::clone` of std: the result is a second pointer to the allocation that
/// `state` points to, so both hold the same value.
#[verifier::external_body]
fn share<S>(state: &Arc<S>) -> (shared: Arc<S>)
    ensures
        shared == *state,
{
    Arc::clone(state)
}

/// Mathematical model of a [`WebViewRegistry`].
pub struct RegistryView<H, S> {
    /// The live views by identifier.
    pub entries: Map<u64, WebViewEntry<H, S>>,
    /// The identifier that the next registration gets.
    pub next_id: u64,
}

impl<H, S> RegistryView<H, S> {
    /// Every live identifier was handed out before `next_id`.
    pub open spec fn wf(self) -> bool {
        forall|id: u64| self.entries.contains_key(id) ==> id < self.next_id
    }

    /// The registry with no view, whose first identifier is 1.
    pub open spec fn empty() -> Self {
        RegistryView { entries: Map::empty(), next_id: 1 }
    }

    /// The registry after `handle` was registered by the thread `owner`.
    pub open spec fn registered(self, handle: H, owner: ThreadMarker, state: Arc<S>) -> Self {
        RegistryView {
            entries: self.entries.insert(
                self.next_id,
                WebViewEntry { handle, thread_id: owner, state },
            ),
            next_id: id_after(self.next_id),
        }
    }

    /// Whether the thread `caller` may touch the handle of view `id`: the
    /// view must be live and `caller` must own it.
    pub open spec fn access(self, id: u64, caller: ThreadMarker) -> Result<(), WebViewError> {
        if !self.entries.contains_key(id) {
            Err(WebViewError::WebViewNotFound(id))
        } else if self.entries[id].thread_id != caller {
            Err(WebViewError::WrongThread(id))
        } else {
            Ok(())
        }
    }

    /// The shared state of view `id`.
    pub open spec fn state_of(self, id: u64) -> Result<Arc<S>, WebViewError> {
        if self.entries.contains_key(id) {
            Ok(self.entries[id].state)
        } else {
            Err(WebViewError::WebViewNotFound(id))
        }
    }

    /// What the thread `caller` gets when it asks to remove view `id`: nothing
    /// if no such view is live, a refusal if another thread owns it, and the
    /// entry otherwise.
    pub open spec fn removal(self, id: u64, caller: ThreadMarker) -> Result<
        Option<WebViewEntry<H, S>>,
        WebViewError,
    > {
        if !self.entries.contains_key(id) {
            Ok(None)
        } else if self.entries[id].thread_id != caller {
            Err(WebViewError::WrongThread(id))
        } else {
            Ok(Some(self.entries[id]))
        }
    }

    /// The registry after the thread `caller` asked to remove view `id`.
    pub open spec fn unregistered(self, id: u64, caller: ThreadMarker) -> Self {
        if self.removal(id, caller) is Ok {
            RegistryView { entries: self.entries.remove(id), next_id: self.next_id }
        } else {
            self
        }
    }
}

/// The live views of a process, by identifier.
pub struct WebViewRegistry<H, S> {
    entries: HashMap<u64, WebViewEntry<H, S>>,
    ids: IdGenerator,
}

impl<H, S> View for WebViewRegistry<H, S> {
    type V = RegistryView<H, S>;

    closed spec fn view(&self) -> RegistryView<H, S> {
        RegistryView { entries: self.entries@, next_id: self.ids@ }
    }
}

impl<H, S> WebViewRegistry<H, S> {
    /// A registry with no view.
    pub fn new() -> (registry: Self)
        ensures
            registry@ == RegistryView::<H, S>::empty(),
    {
        WebViewRegistry { entries: HashMap::new(), ids: IdGenerator::new() }
    }

    /// Takes the next identifier without registering a view under it, so that
    /// no later registration gets it.
    pub fn reserve_id(&mut self) -> (id: u64)
        ensures
            id == old(self)@.next_id,
            final(self)@ == (RegistryView { next_id: id_after(id), ..old(self)@ }),
    {
        next_id(&mut self.ids)
    }

    /// Removes view `id` on behalf of the thread `caller` and hands its entry
    /// back, so that the caller decides where the handle is destroyed.
    pub fn detach(&mut self, id: u64, caller: ThreadMarker) -> (removed: Result<
        Option<WebViewEntry<H, S>>,
        WebViewError,
    >)
        ensures
            removed == old(self)@.removal(id, caller),
            final(self)@ == old(self)@.unregistered(id, caller),
    {
        match self.entries.get(&id) {
            None => {
                assert(self.entries@.remove(id) =~= self.entries@);
                return Ok(None);
            },
            Some(entry) => {
                if entry.thread_id.0 != caller.0 {
                    return Err(WebViewError::WrongThread(id));
                }
            },
        }
        Ok(self.entries.remove(&id))
    }
}

/// Executes `f` on the handle of view `id`, provided that the view is live
/// and that the thread `caller` owns it.
pub fn with_webview<H, S, F, R>(
    registry: &WebViewRegistry<H, S>,
    id: u64,
    caller: ThreadMarker,
    f: F,
) -> (result: Result<R, WebViewError>) where F: FnOnce(&H) -> Result<R, WebViewError>
    requires
        registry@.access(id, caller) is Ok ==> f.requires((&registry@.entries[id].handle,)),
    ensures
        match registry@.access(id, caller) {
            Ok(_) => f.ensures((&registry@.entries[id].handle,), result),
            Err(e) => result == Err::<R, WebViewError>(e),
        },
{
    match registry.entries.get(&id) {
        None => Err(WebViewError::WebViewNotFound(id)),
        Some(entry) => {
            if entry.thread_id.0 != caller.0 {
                Err(WebViewError::WrongThread(id))
            } else {
                f(&entry.handle)
            }
        },
    }
}

/// Retrieves the shared state of view `id`, whichever thread asks.
pub fn get_state<H, S>(registry: &WebViewRegistry<H, S>, id: u64) -> (state: Result<
    Arc<S>,
    WebViewError,
>)
    ensures
        state == registry@.state_of(id),
{
    match registry.entries.get(&id) {
        None => Err(WebViewError::WebViewNotFound(id)),
        Some(entry) => Ok(share(&entry.state)),
    }
}

/// Registers `webview` as owned by the thread `owner` and returns its new identifier.
pub fn register<H, S>(
    registry: &mut WebViewRegistry<H, S>,
    webview: H,
    owner: ThreadMarker,
    state: Arc<S>,
) -> (id: u64)
    ensures
        id == old(registry)@.next_id,
        final(registry)@ == old(registry)@.registered(webview, owner, state),
{
    let id = next_id(&mut registry.ids);
    let entry = WebViewEntry { handle: webview, thread_id: owner, state };
    registry.entries.insert(id, entry);
    id
}

/// Removes view `id` and destroys its handle, provided that the thread
/// `caller` owns it. Nothing happens if no such view is live.
pub fn unregister<H, S>(registry: &mut WebViewRegistry<H, S>, id: u64, caller: ThreadMarker) -> (done:
    Result<(), WebViewError>)
    ensures
        done == match old(registry)@.removal(id, caller) {
            Ok(_) => Ok::<(), WebViewError>(()),
            Err(e) => Err(e),
        },
        final(registry)@ == old(registry)@.unregistered(id, caller),
{
    match registry.detach(id, caller) {
        Ok(_) => Ok(()),
        Err(e) => Err(e),
    }
}

/// As long as the counter does not run past the largest identifier, the
/// identifiers handed out by successive calls count up by one from the
/// first: they are strictly increasing, and so no two of them are equal.
pub proof fn lemma_issued_ids_increase(first: u64, n: nat)
    requires
        first + n <= u64::MAX + 1,
    ensures
        issued(first, n).len() == n,
        forall|i: int| 0 <= i < n ==> #[trigger] issued(first, n)[i] == first + i,
        forall|i: int, j: int|
            0 <= i < j < n ==> #[trigger] issued(first, n)[i] < #[trigger] issued(first, n)[j],
        forall|i: int, j: int|
            0 <= i < n && 0 <= j < n && i != j ==> #[trigger] issued(first, n)[i]
                != #[trigger] issued(first, n)[j],
    decreases n,
{
    if n > 0 {
        lemma_issued_ids_increase(id_after(first), (n - 1) as nat);
        let rest = issued(id_after(first), (n - 1) as nat);
        assert forall|i: int| 0 <= i < n implies #[trigger] issued(first, n)[i] == first + i by {
            if i > 0 {
                assert(issued(first, n)[i] == rest[i - 1]);
            }
        }
    }
}

/// A registration hands out an identifier under which no view was live, and
/// keeps every live identifier below the next one, as long as the counter
/// has not reached the largest identifier. Removing a view keeps that too.
pub proof fn lemma_live_ids_stay_fresh<H, S>(
    r: RegistryView<H, S>,
    handle: H,
    owner: ThreadMarker,
    state: Arc<S>,
    id: u64,
    caller: ThreadMarker,
)
    requires
        r.wf(),
    ensures
        !r.entries.contains_key(r.next_id),
        r.next_id < u64::MAX ==> r.registered(handle, owner, state).wf(),
        r.unregistered(id, caller).wf(),
        RegistryView::<H, S>::empty().wf(),
{
}

/// Thread affinity: once a thread has registered a view, that thread may use
/// and remove it, while every other thread is refused with `WrongThread`
/// and leaves the registry unchanged.
pub proof fn lemma_thread_affinity<H, S>(
    r: RegistryView<H, S>,
    handle: H,
    owner: ThreadMarker,
    state: Arc<S>,
    other: ThreadMarker,
)
    requires
        other != owner,
    ensures
        ({
            let id = r.next_id;
            let after = r.registered(handle, owner, state);
            &&& after.access(id, owner) == Ok::<(), WebViewError>(())
            &&& after.removal(id, owner) is Ok
            &&& !after.unregistered(id, owner).entries.contains_key(id)
            &&& after.access(id, other) == Err::<(), WebViewError>(WebViewError::WrongThread(id))
            &&& after.removal(id, other) == Err::<Option<WebViewEntry<H, S>>, WebViewError>(
                WebViewError::WrongThread(id),
            )
            &&& after.unregistered(id, other) == after
        }),
{
}

/// Removing a view twice: where the first request is granted, the view is
/// gone afterwards, and a second request, from any thread, is granted too,
/// finds nothing to hand back and changes nothing.
pub proof fn lemma_unregister_twice<H, S>(
    r: RegistryView<H, S>,
    id: u64,
    caller: ThreadMarker,
    again: ThreadMarker,
)
    requires
        r.removal(id, caller) is Ok,
    ensures
        !r.unregistered(id, caller).entries.contains_key(id),
        r.unregistered(id, caller).removal(id, again) == Ok::<
            Option<WebViewEntry<H, S>>,
            WebViewError,
        >(None),
        r.unregistered(id, caller).unregistered(id, again) == r.unregistered(id, caller),
{
    let once = r.unregistered(id, caller);
    assert(once.entries.remove(id) =~= once.entries);
}

/// A view that was never registered, or that was removed, is not found: by
/// no thread that asks for its handle, and by nobody who asks for its state.
pub proof fn lemma_lookup_miss<H, S>(
    r: RegistryView<H, S>,
    id: u64,
    caller: ThreadMarker,
    asker: ThreadMarker,
)
    ensures
        !r.entries.contains_key(id) ==> {
            &&& r.access(id, asker) == Err::<(), WebViewError>(WebViewError::WebViewNotFound(id))
            &&& r.state_of(id) == Err::<Arc<S>, WebViewError>(WebViewError::WebViewNotFound(id))
        },
        RegistryView::<H, S>::empty().access(id, asker) == Err::<(), WebViewError>(
            WebViewError::WebViewNotFound(id),
        ),
        RegistryView::<H, S>::empty().state_of(id) == Err::<Arc<S>, WebViewError>(
            WebViewError::WebViewNotFound(id),
        ),
        r.wf() && id >= r.next_id ==> r.access(id, asker) == Err::<(), WebViewError>(
            WebViewError::WebViewNotFound(id),
        ),
        r.removal(id, caller) is Ok ==> {
            &&& r.unregistered(id, caller).access(id, asker) == Err::<(), WebViewError>(
                WebViewError::WebViewNotFound(id),
            )
            &&& r.unregistered(id, caller).state_of(id) == Err::<Arc<S>, WebViewError>(
                WebViewError::WebViewNotFound(id),
            )
        },
{
}

} // verus!
