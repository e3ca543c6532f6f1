use std::cell::Cell;
use std::rc::Rc;
use std::sync::Arc;
use std::sync::Mutex;

use wrywebview::error::WebViewError;
use wrywebview::platform::run_on_main_thread;
use wrywebview::registry::{
    get_state, next_id, register, unregister, with_webview, IdGenerator, ThreadMarker,
    WebViewEntry, WebViewRegistry,
};
use wrywebview::state::WebViewState;

/// A handle that counts how often it is destroyed.
struct Handle {
    name: &'static str,
    drops: Rc<Cell<u32>>,
}

impl Drop for Handle {
    fn drop(&mut self) {
        self.drops.set(self.drops.get() + 1);
    }
}

type Registry = WebViewRegistry<Handle, Mutex<WebViewState>>;

const T1: ThreadMarker = ThreadMarker(1);
const T2: ThreadMarker = ThreadMarker(2);

fn shared_state(url: &str) -> Arc<Mutex<WebViewState>> {
    Arc::new(Mutex::new(WebViewState::new(url.to_string())))
}

fn handle(name: &'static str, drops: &Rc<Cell<u32>>) -> Handle {
    Handle { name, drops: Rc::clone(drops) }
}

#[test]
fn ids_start_at_one_and_increase() {
    let mut ids = IdGenerator::new();
    let mut last = 0;
    for expected in 1..=100u64 {
        let id = next_id(&mut ids);
        assert_eq!(id, expected);
        assert!(id > last);
        last = id;
    }
}

#[test]
fn registration_hands_out_fresh_ids() {
    let drops = Rc::new(Cell::new(0));
    let mut registry = Registry::new();
    assert_eq!(register(&mut registry, handle("a", &drops), T1, shared_state("a")), 1);
    assert_eq!(register(&mut registry, handle("b", &drops), T1, shared_state("b")), 2);
    assert_eq!(registry.reserve_id(), 3);
    assert_eq!(register(&mut registry, handle("c", &drops), T2, shared_state("c")), 4);
    assert_eq!(unregister(&mut registry, 2, T1), Ok(()));
    assert_eq!(register(&mut registry, handle("d", &drops), T1, shared_state("d")), 5);
}

#[test]
fn owner_may_use_its_handle() {
    let drops = Rc::new(Cell::new(0));
    let mut registry = Registry::new();
    let id = register(&mut registry, handle("mine", &drops), T1, shared_state("a"));
    let name = with_webview(&registry, id, T1, |h: &Handle| Ok(h.name));
    assert_eq!(name, Ok("mine"));
    assert_eq!(drops.get(), 0);
}

#[test]
fn other_threads_are_refused() {
    let drops = Rc::new(Cell::new(0));
    let mut registry = Registry::new();
    let id = register(&mut registry, handle("mine", &drops), T1, shared_state("a"));

    let called = Cell::new(false);
    let used = with_webview(&registry, id, T2, |h: &Handle| {
        called.set(true);
        Ok(h.name)
    });
    assert_eq!(used, Err(WebViewError::WrongThread(id)));
    assert!(!called.get());

    assert_eq!(unregister(&mut registry, id, T2), Err(WebViewError::WrongThread(id)));
    assert_eq!(drops.get(), 0);
    assert!(get_state(&registry, id).is_ok());

    assert_eq!(with_webview(&registry, id, T1, |h: &Handle| Ok(h.name)), Ok("mine"));
    assert_eq!(unregister(&mut registry, id, T1), Ok(()));
    assert_eq!(drops.get(), 1);
}

#[test]
fn unregister_twice_destroys_once() {
    let drops = Rc::new(Cell::new(0));
    let mut registry = Registry::new();
    let id = register(&mut registry, handle("mine", &drops), T1, shared_state("a"));
    assert_eq!(unregister(&mut registry, id, T1), Ok(()));
    assert_eq!(drops.get(), 1);
    assert_eq!(unregister(&mut registry, id, T1), Ok(()));
    assert_eq!(unregister(&mut registry, id, T2), Ok(()));
    assert_eq!(drops.get(), 1);
}

#[test]
fn unregister_of_an_unknown_id_succeeds() {
    let mut registry = Registry::new();
    assert_eq!(unregister(&mut registry, 42, T1), Ok(()));
}

#[test]
fn unregister_leaves_other_views_alone() {
    let drops = Rc::new(Cell::new(0));
    let mut registry = Registry::new();
    let first = register(&mut registry, handle("first", &drops), T1, shared_state("a"));
    let second = register(&mut registry, handle("second", &drops), T2, shared_state("b"));
    assert_eq!(unregister(&mut registry, first, T1), Ok(()));
    assert_eq!(drops.get(), 1);
    assert_eq!(with_webview(&registry, second, T2, |h: &Handle| Ok(h.name)), Ok("second"));
    assert_eq!(
        with_webview(&registry, first, T1, |h: &Handle| Ok(h.name)),
        Err(WebViewError::WebViewNotFound(first))
    );
}

#[test]
fn lookup_of_an_unknown_view_fails() {
    let drops = Rc::new(Cell::new(0));
    let mut registry = Registry::new();
    assert_eq!(
        with_webview(&registry, 1, T1, |h: &Handle| Ok(h.name)),
        Err(WebViewError::WebViewNotFound(1))
    );
    assert!(matches!(get_state(&registry, 1), Err(WebViewError::WebViewNotFound(1))));

    let id = register(&mut registry, handle("mine", &drops), T1, shared_state("a"));
    assert!(matches!(get_state(&registry, id + 1), Err(WebViewError::WebViewNotFound(2))));
    assert_eq!(unregister(&mut registry, id, T1), Ok(()));
    assert_eq!(
        with_webview(&registry, id, T1, |h: &Handle| Ok(h.name)),
        Err(WebViewError::WebViewNotFound(id))
    );
    assert!(matches!(get_state(&registry, id), Err(WebViewError::WebViewNotFound(1))));
}

#[test]
fn state_is_shared_with_every_thread() {
    let drops = Rc::new(Cell::new(0));
    let mut registry = Registry::new();
    let state = shared_state("start");
    let id = register(&mut registry, handle("mine", &drops), T1, Arc::clone(&state));
    assert_eq!(Arc::strong_count(&state), 2);

    let fetched = get_state(&registry, id).unwrap();
    assert!(Arc::ptr_eq(&fetched, &state));
    assert_eq!(Arc::strong_count(&state), 3);

    fetched.lock().unwrap().update_current_url("a".to_string());
    fetched.lock().unwrap().push_ipc_message("hello".to_string());
    let again = get_state(&registry, id).unwrap();
    assert_eq!(again.lock().unwrap().current_url, "a");
    assert_eq!(again.lock().unwrap().drain_ipc_messages(), vec!["hello".to_string()]);

    assert_eq!(unregister(&mut registry, id, T1), Ok(()));
    assert_eq!(fetched.lock().unwrap().current_url, "a");
    assert_eq!(Arc::strong_count(&state), 3);
}

#[test]
fn detach_hands_the_entry_back() {
    let drops = Rc::new(Cell::new(0));
    let mut registry = Registry::new();
    let state = shared_state("start");
    let id = register(&mut registry, handle("mine", &drops), T1, Arc::clone(&state));

    assert!(matches!(registry.detach(id, T2), Err(WebViewError::WrongThread(1))));
    let entry = registry.detach(id, T1).unwrap().unwrap();
    assert_eq!(entry.handle.name, "mine");
    assert_eq!(entry.thread_id, T1);
    assert!(Arc::ptr_eq(&entry.state, &state));
    assert_eq!(drops.get(), 0);
    drop(entry);
    assert_eq!(drops.get(), 1);
    assert!(matches!(registry.detach(id, T1), Ok(None)));
}

#[test]
fn errors_of_the_callback_are_passed_on() {
    let drops = Rc::new(Cell::new(0));
    let mut registry = Registry::new();
    let id = register(&mut registry, handle("mine", &drops), T1, shared_state("a"));
    let failed: Result<u8, WebViewError> = with_webview(&registry, id, T1, |_h: &Handle| {
        Err(WebViewError::Internal("url lock poisoned".to_string()))
    });
    assert_eq!(failed, Err(WebViewError::Internal("url lock poisoned".to_string())));
}

#[test]
fn entry_clone_keeps_handle_owner_and_state() {
    let state = shared_state("start");
    let entry = WebViewEntry { handle: 7u32, thread_id: T2, state: Arc::clone(&state) };
    let copy = entry.clone();
    assert_eq!(copy.handle, 7);
    assert_eq!(copy.thread_id, T2);
    assert!(Arc::ptr_eq(&copy.state, &state));
    assert_eq!(Arc::strong_count(&state), 3);
}

#[test]
fn main_thread_shim_runs_inline() {
    let ran = Cell::new(0);
    let done = run_on_main_thread(|| {
        ran.set(ran.get() + 1);
        Ok(ran.get() * 10)
    });
    assert_eq!(done, Ok(10));
    let failed: Result<(), WebViewError> = run_on_main_thread(|| Err(WebViewError::WrongThread(3)));
    assert_eq!(failed, Err(WebViewError::WrongThread(3)));
}
