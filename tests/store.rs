use std::cell::Cell;
use std::sync::{Arc, Mutex};

use fltk_observe::{
    is_change_signal, notify, notify_win, use_state, use_state_mut, with_state, with_state_mut, with_state_mut_on,
    AccessError, ActionBinding, Discipline, AccessLock, HostCall, Scope, Store, TypedCell,
    ViewBinding, STATE_CHANGED,
};

fn show(v: &i32, _t: String) -> String {
    v.to_string()
}

#[test]
fn counter_view_follows_increment() {
    let mut store: Store<i32> = Store::new(Discipline::Exclusive);
    assert!(store.use_state(|| 0));
    let (view, target) = ViewBinding::bind(&store, show, String::new());
    assert_eq!(target, "0");
    let inc = ActionBinding::new(|v: i32, _src: &&str| v + 1, Scope::Main);
    let calls = inc.fire(&mut store, &"+");
    assert_eq!(calls, vec![HostCall::Dispatch(Scope::Main)]);
    let (target, consumed) = view.handle(&store, STATE_CHANGED, target);
    assert_eq!(target, "1");
    assert!(!consumed);
}

#[test]
fn other_events_leave_the_view_alone() {
    let mut store: Store<i32> = Store::new(Discipline::Exclusive);
    store.use_state(|| 4);
    let (view, target) = ViewBinding::bind(&store, show, String::new());
    let calls = with_state_mut(&mut store, &|v: i32| v * 10);
    assert_eq!(calls, vec![HostCall::Dispatch(Scope::Main)]);
    let (target, consumed) = view.handle(&store, 3, target);
    assert_eq!(target, "4");
    assert!(!consumed);
    let (target, _) = view.handle(&store, STATE_CHANGED, target);
    assert_eq!(target, "40");
}

#[test]
fn string_set_from_background_thread() {
    let store: Arc<Mutex<Store<String>>> = Arc::new(Mutex::new(Store::new(Discipline::Blocking)));
    store.lock().unwrap().use_state(String::new);
    let (view, target) = {
        let s = store.lock().unwrap();
        ViewBinding::bind(&*s, |v: &String, _t: String| v.clone(), String::from("?"))
    };
    assert_eq!(target, "");
    let shared = Arc::clone(&store);
    let rt = tokio::runtime::Builder::new_multi_thread().worker_threads(2).build().unwrap();
    let worker = rt.spawn_blocking(move || {
        let set = ActionBinding::new(|_v: String, _src: &()| String::from("x"), Scope::Main);
        let mut s = shared.lock().unwrap();
        set.fire(&mut *s, &())
    });
    let calls = rt.block_on(worker).unwrap();
    assert_eq!(calls, vec![HostCall::Dispatch(Scope::Main), HostCall::Wake]);
    let s = store.lock().unwrap();
    let (target, _) = view.handle(&*s, STATE_CHANGED, target);
    assert_eq!(target, "x");
}

#[test]
fn concurrent_firings_from_threads_apply_each_once() {
    let store: Arc<Mutex<Store<u64>>> = Arc::new(Mutex::new(Store::new(Discipline::Blocking)));
    store.lock().unwrap().use_state(|| 1);
    let rt = tokio::runtime::Builder::new_multi_thread().worker_threads(4).build().unwrap();
    let mut workers = Vec::new();
    for k in 0..6u64 {
        let shared = Arc::clone(&store);
        workers.push(rt.spawn_blocking(move || {
            let step = ActionBinding::new(move |v: u64, _src: &()| v * 3 + k, Scope::Main);
            let mut s = shared.lock().unwrap();
            step.fire(&mut *s, &()).len()
        }));
    }
    for w in workers {
        assert_eq!(rt.block_on(w).unwrap(), 2);
    }
    let s = store.lock().unwrap();
    let v = *s.read();
    assert!(serial_results(1, &[0, 1, 2, 3, 4, 5]).contains(&v));
}

/// Every value that applying `v * 3 + k` for each `k` of `ks`, in some order,
/// makes of `start`.
fn serial_results(start: u64, ks: &[u64]) -> Vec<u64> {
    if ks.is_empty() {
        return vec![start];
    }
    let mut out = Vec::new();
    for i in 0..ks.len() {
        let mut rest = ks.to_vec();
        let k = rest.remove(i);
        out.extend(serial_results(start * 3 + k, &rest));
    }
    out
}

#[test]
fn read_before_install_fails_and_keeps_the_cell() {
    let cell: TypedCell<i32> = TypedCell::new();
    assert_eq!(cell.read(), Err(AccessError::NotInstalled));
    assert!(!cell.is_installed());
    assert_eq!(cell.read(), Err(AccessError::NotInstalled));
}

#[test]
fn read_sees_last_installed_value() {
    let mut cell: TypedCell<i32> = TypedCell::new();
    cell.install(5);
    cell.install(7);
    assert_eq!(cell.read(), Ok(&7));
    *cell.mutate() += 1;
    assert_eq!(cell.read(), Ok(&8));
    let cell: TypedCell<String> = cell.reinstall(String::from("text"));
    assert_eq!(cell.read().map(|s| s.as_str()), Ok("text"));
    let mut cell = cell;
    assert_eq!(cell.take(), "text");
    assert!(!cell.is_installed());
}

#[test]
fn two_cooperative_tasks_both_apply() {
    let mut store: Store<i32> = Store::new(Discipline::Cooperative);
    store.use_state(|| 1);
    let add = ActionBinding::new(|v: i32, _src: &()| v + 2, Scope::Window(9));
    let double = ActionBinding::new(|v: i32, _src: &()| v * 2, Scope::Window(9));
    assert!(store.request_access(1));
    assert!(!store.request_access(2));
    assert_eq!(store.holder(), Some(1));
    let (next, calls) = add.fire_granted(&mut store, 1, &());
    assert_eq!(next, Some(2));
    assert_eq!(calls, vec![HostCall::Dispatch(Scope::Window(9)), HostCall::Wake]);
    let (next, _) = double.fire_granted(&mut store, 2, &());
    assert_eq!(next, None);
    assert_eq!(store.holder(), None);
    assert_eq!(with_state(&store, &|v: &i32| *v), 6);
}

#[test]
fn initial_paint_happens_once() {
    let count = Cell::new(0u32);
    let mut store: Store<i32> = Store::new(Discipline::Exclusive);
    store.use_state(|| 3);
    let reader = |v: &i32, t: Vec<i32>| {
        count.set(count.get() + 1);
        let mut t = t;
        t.push(*v);
        t
    };
    let (view, target) = ViewBinding::bind(&store, reader, Vec::new());
    assert_eq!(count.get(), 1);
    assert_eq!(target, vec![3]);
    let (target, _) = view.handle(&store, STATE_CHANGED, target);
    assert_eq!(count.get(), 2);
    assert_eq!(target, vec![3, 3]);
}

#[test]
fn many_tasks_serialize_through_the_gate() {
    let mut store: Store<u64> = Store::new(Discipline::Blocking);
    store.use_state(|| 0);
    for t in 0..8u64 {
        assert_eq!(store.request_access(t), t == 0);
    }
    let inc = ActionBinding::new(|v: u64, _src: &()| v + 1, Scope::Main);
    let mut holder = store.holder();
    let mut order = Vec::new();
    while let Some(t) = holder {
        order.push(t);
        let (next, _) = inc.fire_granted(&mut store, t, &());
        holder = next;
    }
    assert_eq!(order, (0..8u64).collect::<Vec<_>>());
    assert_eq!(*store.read(), 8);
}

#[test]
fn waiter_is_served_after_earlier_tasks() {
    let mut lock = AccessLock::new();
    assert!(lock.request(10));
    assert!(!lock.request(20));
    assert!(!lock.request(30));
    assert_eq!(lock.waiting_len(), 2);
    assert!(lock.involves(30));
    assert!(!lock.involves(40));
    assert_eq!(lock.release(10), Some(20));
    assert_eq!(lock.release(20), Some(30));
    assert_eq!(lock.release(30), None);
    assert_eq!(lock.holder(), None);
}

#[test]
fn failed_mutator_raises_no_signal() {
    let mut store: Store<i32> = Store::new(Discipline::Exclusive);
    store.use_state(|| 5);
    let bounded = |v: i32, limit: &i32| if v < *limit { Ok(v + 1) } else { Err((v, "full")) };
    let (r, calls) = store.try_fire_action(&bounded, &6, Scope::Main);
    assert_eq!(r, Ok(()));
    assert_eq!(calls, vec![HostCall::Dispatch(Scope::Main)]);
    let (r, calls) = store.try_fire_action(&bounded, &6, Scope::Main);
    assert_eq!(r, Err("full"));
    assert!(calls.is_empty());
    assert_eq!(*store.read(), 6);
}

#[test]
fn failed_granted_mutator_still_releases() {
    let mut store: Store<i32> = Store::new(Discipline::Cooperative);
    store.use_state(|| 0);
    let refuse = |v: i32, _src: &()| -> Result<i32, (i32, u8)> { Err((v, 1)) };
    assert!(store.request_access(1));
    assert!(!store.request_access(2));
    let (r, next, calls) = store.try_fire_granted(1, &refuse, &(), Scope::Main);
    assert_eq!(r, Err(1));
    assert_eq!(next, Some(2));
    assert!(calls.is_empty());
    assert_eq!(store.release_access(2), None);
    assert_eq!(store.holder(), None);
}

#[test]
fn use_state_installs_only_once() {
    let mut store: Store<i32> = Store::new(Discipline::Blocking);
    assert!(store.use_state(|| 1));
    let called = Cell::new(false);
    assert!(!store.use_state(|| {
        called.set(true);
        2
    }));
    assert!(!called.get());
    assert_eq!(*store.read(), 1);
}

#[test]
fn with_state_replaces_the_value() {
    let mut store: Store<i32> = Store::new(Discipline::Exclusive);
    store.with_state(|| 1);
    with_state_mut(&mut store, &|v: i32| v + 5);
    store.with_state(|| 10);
    assert_eq!(*store.read(), 10);
    assert!(store.is_installed());
    assert_eq!(store.discipline(), Discipline::Exclusive);
}

#[test]
fn mutation_on_a_window_signals_that_window() {
    let mut store: Store<i32> = Store::new(Discipline::Exclusive);
    store.use_state(|| 2);
    let calls = with_state_mut_on(&mut store, 77, &|v: i32| v - 3);
    assert_eq!(calls, vec![HostCall::Dispatch(Scope::Window(77))]);
    assert_eq!(*store.read(), -1);
}

#[test]
fn notify_dispatches_then_wakes() {
    assert_eq!(notify(), vec![HostCall::Dispatch(Scope::Main), HostCall::Wake]);
    assert_eq!(
        notify_win(4),
        vec![HostCall::Dispatch(Scope::Window(4)), HostCall::Wake]
    );
    assert!(is_change_signal(100));
    assert!(is_change_signal(STATE_CHANGED));
    assert!(!is_change_signal(101));
}

#[test]
fn render_granted_reads_then_releases() {
    let mut store: Store<i32> = Store::new(Discipline::Cooperative);
    store.use_state(|| 12);
    let (view, _) = ViewBinding::bind(&store, show, String::new());
    assert!(store.request_access(5));
    assert!(!store.request_access(6));
    let (target, next) = view.render_granted(&mut store, 5, String::new());
    assert_eq!(target, "12");
    assert_eq!(next, Some(6));
    let (target, next) = store.render_granted(6, &show, String::new());
    assert_eq!(target, "12");
    assert_eq!(next, None);
}

#[test]
fn task_access_by_free_functions() {
    let mut store: Store<i32> = Store::new(Discipline::Cooperative);
    store.use_state(|| 7);
    assert!(store.request_access(1));
    assert!(!store.request_access(2));
    let (next, calls) = use_state_mut(&mut store, 1, &|v: i32| v - 10);
    assert_eq!(next, Some(2));
    assert_eq!(calls, vec![HostCall::Dispatch(Scope::Main), HostCall::Wake]);
    let (seen, next) = use_state(&mut store, 2, &|v: &i32| *v * 2);
    assert_eq!(seen, -6);
    assert_eq!(next, None);
    assert_eq!(*store.read(), -3);
}
