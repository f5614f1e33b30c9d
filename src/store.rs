//! The store: the typed cell under one access discipline, with the action
//! bindings that mutate it and the view bindings that read it.
use vstd::prelude::*;

use crate::cell::{AccessError, TypedCell};
use crate::lock::{AccessLock, LockView};
use crate::signal::{HostCall, Scope, STATE_CHANGED};

verus! {

/// How access to the stored value is synchronized, chosen once per store.
#[derive(Clone, Copy, Debug, PartialEq, Eq, Structural)]
pub enum Discipline {
    /// One thread, the host's event loop, makes every access.
    Exclusive,
    /// Any thread may access; a caller waits until the value is free.
    Blocking,
    /// Accesses run as tasks; a task that finds the value taken suspends
    /// until the lock hands access to it.
    Cooperative,
}

/// The calls that the host is asked to make after a committed mutation:
/// deliver the change signal to `scope`, and wake the event loop where the
/// mutation may have come from another thread or task.
pub open spec fn signal_calls(d: Discipline, scope: Scope) -> Seq<HostCall> {
    if d == Discipline::Exclusive {
        seq![HostCall::Dispatch(scope)]
    } else {
        seq![HostCall::Dispatch(scope), HostCall::Wake]
    }
}

/// Each recorded step took the value before it to the value after it.
pub open spec fn chained<V>(history: Seq<V>, steps: Seq<spec_fn(V, V) -> bool>) -> bool {
    &&& history.len() == steps.len() + 1
    &&& forall|i: int| 0 <= i < steps.len() ==> #[trigger] (steps[i])(history[i], history[i + 1])
}

/// The value that a fallible mutator hands back, whether it succeeded or not.
pub open spec fn handed_back<V, E>(r: Result<V, (V, E)>) -> V {
    match r {
        Ok(w) => w,
        Err((w, _)) => w,
    }
}

/// The outcome of a fallible mutator, rebuilt from the value it handed
/// back and from whether it succeeded.
pub open spec fn outcome<V, E>(w: V, r: Result<(), E>) -> Result<V, (V, E)> {
    match r {
        Ok(()) => Ok(w),
        Err(e) => Err((w, e)),
    }
}

/// The single state value of an application, with its access discipline.
#[verifier::reject_recursive_types(V)]
pub struct Store<V> {
    cell: TypedCell<V>,
    discipline: Discipline,
    lock: AccessLock,
    history: Ghost<Seq<V>>,
    steps: Ghost<Seq<spec_fn(V, V) -> bool>>,
}

impl<V> Store<V> {
    /// The installed value, if any.
    pub closed spec fn value(&self) -> Option<V> {
        self.cell@
    }

    pub closed spec fn discipline_spec(&self) -> Discipline {
        self.discipline
    }

    /// Who holds access and who waits for it.
    pub closed spec fn lock(&self) -> LockView {
        self.lock@
    }

    /// Every value held since the last installation, oldest first.
    pub closed spec fn history(&self) -> Seq<V> {
        self.history@
    }

    /// For each mutation since the last installation, in the order in which
    /// they were committed, the relation between the value before and after.
    pub closed spec fn steps(&self) -> Seq<spec_fn(V, V) -> bool> {
        self.steps@
    }

    pub closed spec fn wf(&self) -> bool {
        &&& self.lock@.wf()
        &&& match self.cell@ {
            None => {
                &&& self.history@.len() == 0
                &&& self.steps@.len() == 0
                &&& self.lock@.holder is None
            },
            Some(v) => {
                &&& chained(self.history@, self.steps@)
                &&& self.history@.last() == v
            },
        }
    }

    /// The installed value is the last one recorded.
    pub proof fn lemma_current_is_last(&self)
        requires
            self.wf(),
            self.value() is Some || self.history().len() > 0,
        ensures
            self.value() is Some,
            chained(self.history(), self.steps()),
            self.value() == Some(self.history().last()),
    {
    }

    /// An empty store under discipline `d`.
    pub fn new(d: Discipline) -> (s: Self)
        ensures
            s.wf(),
            s.value() is None,
            s.discipline_spec() == d,
            s.lock().holder is None,
            s.lock().waiting.len() == 0,
    {
        Store {
            cell: TypedCell::new(),
            discipline: d,
            lock: AccessLock::new(),
            history: Ghost(Seq::empty()),
            steps: Ghost(Seq::empty()),
        }
    }

    /// The discipline chosen for this store.
    pub fn discipline(&self) -> (d: Discipline)
        ensures
            d == self.discipline_spec(),
    {
        self.discipline
    }

    /// Whether a value is installed.
    pub fn is_installed(&self) -> (r: bool)
        ensures
            r == self.value() is Some,
    {
        self.cell.is_installed()
    }

    /// The task that holds access, if any.
    pub fn holder(&self) -> (r: Option<u64>)
        ensures
            r == self.lock().holder,
    {
        self.lock.holder()
    }

    /// Installs the value that `init` makes, unless a value is installed
    /// already: then `init` is not called and nothing changes. Returns
    /// whether it installed.
    pub fn use_state<F: FnOnce() -> V>(&mut self, init: F) -> (installed: bool)
        requires
            old(self).wf(),
            call_requires(init, ()),
        ensures
            final(self).wf(),
            installed == old(self).value() is None,
            installed ==> (final(self).value() matches Some(v) && call_ensures(init, (), v)
                && final(self).history() == seq![v] && final(self).steps().len() == 0),
            !installed ==> *final(self) == *old(self),
            final(self).discipline_spec() == old(self).discipline_spec(),
            final(self).lock() == old(self).lock(),
    {
        if self.cell.is_installed() {
            return false;
        }
        let v = init();
        self.install_fresh(v);
        true
    }

    /// Installs the value that `init` makes, replacing whatever was
    /// installed: a reset, not an update.
    pub fn with_state<F: FnOnce() -> V>(&mut self, init: F)
        requires
            old(self).wf(),
            old(self).lock().holder is None,
            call_requires(init, ()),
        ensures
            final(self).wf(),
            final(self).value() matches Some(v) && call_ensures(init, (), v)
                && final(self).history() == seq![v] && final(self).steps().len() == 0,
            final(self).discipline_spec() == old(self).discipline_spec(),
            final(self).lock() == old(self).lock(),
    {
        let v = init();
        self.install_fresh(v);
    }

    fn install_fresh(&mut self, v: V)
        requires
            old(self).lock@.wf(),
            old(self).cell@ is Some ==> old(self).lock@.holder is None,
        ensures
            final(self).wf(),
            final(self).value() == Some(v),
            final(self).history() == seq![v],
            final(self).steps().len() == 0,
            final(self).discipline == old(self).discipline,
            final(self).lock@ == old(self).lock@,
    {
        self.cell.install(v);
        proof {
            self.history@ = seq![v];
            self.steps@ = Seq::empty();
        }
    }

    /// Applies `mutator` to the installed value, with `source` the widget
    /// whose interaction fired it, and records the step.
    fn commit<S, F: Fn(V, &S) -> V>(&mut self, mutator: &F, source: &S)
        requires
            old(self).wf(),
            old(self).value() is Some,
            call_requires(*mutator, (old(self).value()->0, source)),
        ensures
            final(self).wf(),
            final(self).value() matches Some(w) && call_ensures(
                *mutator,
                (old(self).value()->0, source),
                w,
            ),
            final(self).history() == old(self).history().push(final(self).value()->0),
            final(self).steps().drop_last() == old(self).steps(),
            final(self).steps().len() == old(self).steps().len() + 1,
            final(self).discipline == old(self).discipline,
            final(self).lock@ == old(self).lock@,
    {
        let v = self.cell.take();
        let w = mutator(v, source);
        self.cell.install(w);
        proof {
            let rel = |a: V, b: V| call_ensures(*mutator, (a, source), b);
            let old_len = self.history@.len();
            self.history@ = self.history@.push(w);
            self.steps@ = self.steps@.push(rel);
            assert(self.steps@.drop_last() =~= old(self).steps@);
            assert forall|i: int| 0 <= i < self.steps@.len() implies #[trigger] (
            self.steps@[i])(self.history@[i], self.history@[i + 1]) by {
                if i < self.steps@.len() - 1 {
                    assert(self.steps@[i] == old(self).steps@[i]);
                    assert(self.history@[i] == old(self).history@[i]);
                    assert(self.history@[i + 1] == old(self).history@[i + 1]);
                } else {
                    assert(self.history@[i] == v);
                }
            }
        }
    }

    /// Fires an action binding with direct access: `mutator` gets the value
    /// and `source`, the result becomes the value, and only then the change
    /// signal is raised, through the calls returned, in `scope`.
    pub fn fire_action<S, F: Fn(V, &S) -> V>(
        &mut self,
        mutator: &F,
        source: &S,
        scope: Scope,
    ) -> (calls: Vec<HostCall>)
        requires
            old(self).wf(),
            old(self).value() is Some,
            old(self).lock().holder is None,
            call_requires(*mutator, (old(self).value()->0, source)),
        ensures
            final(self).wf(),
            final(self).value() matches Some(w) && call_ensures(
                *mutator,
                (old(self).value()->0, source),
                w,
            ),
            final(self).history() == old(self).history().push(final(self).value()->0),
            final(self).steps().drop_last() == old(self).steps(),
            final(self).steps().len() == old(self).steps().len() + 1,
            final(self).discipline_spec() == old(self).discipline_spec(),
            final(self).lock() == old(self).lock(),
            calls@ == signal_calls(old(self).discipline_spec(), scope),
    {
        self.commit(mutator, source);
        self.signal(scope)
    }

    /// The host calls that raise the change signal in `scope`.
    fn signal(&self, scope: Scope) -> (calls: Vec<HostCall>)
        ensures
            calls@ == signal_calls(self.discipline, scope),
    {
        let mut calls: Vec<HostCall> = Vec::new();
        calls.push(HostCall::Dispatch(scope));
        if self.discipline != Discipline::Exclusive {
            calls.push(HostCall::Wake);
        }
        calls
    }

    /// `task` asks the lock for access to the installed value. It gets it at
    /// once when nobody holds it; otherwise it waits in line and the result
    /// is `false`.
    pub fn request_access(&mut self, task: u64) -> (granted: bool)
        requires
            old(self).wf(),
            old(self).value() is Some,
            !old(self).lock().involves(task),
        ensures
            final(self).wf(),
            granted == (old(self).lock().holder is None),
            final(self).lock() == old(self).lock().requested(task),
            final(self).value() == old(self).value(),
            final(self).history() == old(self).history(),
            final(self).steps() == old(self).steps(),
            final(self).discipline_spec() == old(self).discipline_spec(),
    {
        self.lock.request(task)
    }

    /// The holder `task` gives access up without a mutation. The task that
    /// has waited longest gets access, and is returned.
    pub fn release_access(&mut self, task: u64) -> (next: Option<u64>)
        requires
            old(self).wf(),
            old(self).lock().holder == Some(task),
        ensures
            final(self).wf(),
            final(self).lock() == old(self).lock().released(),
            next == final(self).lock().holder,
            final(self).value() == old(self).value(),
            final(self).history() == old(self).history(),
            final(self).steps() == old(self).steps(),
            final(self).discipline_spec() == old(self).discipline_spec(),
    {
        self.lock.release(task)
    }

    /// Fires an action binding for `task`, which holds access: `mutator`
    /// gets the value and `source`, the result becomes the value, access
    /// passes to the longest waiter (returned first), and only then the
    /// change signal is raised, through the calls returned second.
    pub fn fire_granted<S, F: Fn(V, &S) -> V>(
        &mut self,
        task: u64,
        mutator: &F,
        source: &S,
        scope: Scope,
    ) -> (r: (Option<u64>, Vec<HostCall>))
        requires
            old(self).wf(),
            old(self).lock().holder == Some(task),
            call_requires(*mutator, (old(self).value()->0, source)),
        ensures
            final(self).wf(),
            final(self).value() matches Some(w) && call_ensures(
                *mutator,
                (old(self).value()->0, source),
                w,
            ),
            final(self).history() == old(self).history().push(final(self).value()->0),
            final(self).steps().drop_last() == old(self).steps(),
            final(self).steps().len() == old(self).steps().len() + 1,
            final(self).discipline_spec() == old(self).discipline_spec(),
            final(self).lock() == old(self).lock().released(),
            r.0 == final(self).lock().holder,
            r.1@ == signal_calls(old(self).discipline_spec(), scope),
    {
        self.commit(mutator, source);
        let next = self.lock.release(task);
        (next, self.signal(scope))
    }

    /// Read access to the installed value, for a caller that needs no lock.
    pub fn read(&self) -> (v: &V)
        requires
            self.wf(),
            self.value() is Some,
            self.lock().holder is None,
        ensures
            Some(*v) == self.value(),
    {
        self.cell.read().unwrap()
    }

    /// Read access to the installed value for `task`, which holds access.
    pub fn read_granted(&self, task: u64) -> (v: &V)
        requires
            self.wf(),
            self.lock().holder == Some(task),
        ensures
            Some(*v) == self.value(),
    {
        self.cell.read().unwrap()
    }

    /// Renders a view with direct read access: `reader` gets the installed
    /// value and the target, and returns the target as it is to be shown.
    pub fn render_view<W, U: Fn(&V, W) -> W>(&self, reader: &U, target: W) -> (shown: W)
        requires
            self.wf(),
            self.value() is Some,
            self.lock().holder is None,
            call_requires(*reader, (&self.value()->0, target)),
        ensures
            call_ensures(*reader, (&self.value()->0, target), shown),
    {
        reader(self.read(), target)
    }

    /// Renders a view for `task`, which holds access, then gives access up.
    /// Returns the target as it is to be shown and the task that gets
    /// access next.
    pub fn render_granted<W, U: Fn(&V, W) -> W>(
        &mut self,
        task: u64,
        reader: &U,
        target: W,
    ) -> (r: (W, Option<u64>))
        requires
            old(self).wf(),
            old(self).lock().holder == Some(task),
            call_requires(*reader, (&old(self).value()->0, target)),
        ensures
            call_ensures(*reader, (&old(self).value()->0, target), r.0),
            final(self).wf(),
            final(self).lock() == old(self).lock().released(),
            r.1 == final(self).lock().holder,
            final(self).value() == old(self).value(),
            final(self).history() == old(self).history(),
            final(self).steps() == old(self).steps(),
            final(self).discipline_spec() == old(self).discipline_spec(),
    {
        let shown = {
            let v = self.cell.read().unwrap();
            reader(v, target)
        };
        let next = self.lock.release(task);
        (shown, next)
    }

    /// Applies a fallible `mutator` to the installed value; whether it
    /// succeeds or fails it hands a value back, which is installed.
    fn commit_fallible<S, E, F: Fn(V, &S) -> Result<V, (V, E)>>(
        &mut self,
        mutator: &F,
        source: &S,
    ) -> (r: Result<(), E>)
        requires
            old(self).wf(),
            old(self).value() is Some,
            call_requires(*mutator, (old(self).value()->0, source)),
        ensures
            final(self).wf(),
            final(self).value() matches Some(w) && call_ensures(
                *mutator,
                (old(self).value()->0, source),
                outcome(w, r),
            ),
            final(self).history() == old(self).history().push(final(self).value()->0),
            final(self).steps().drop_last() == old(self).steps(),
            final(self).steps().len() == old(self).steps().len() + 1,
            final(self).discipline == old(self).discipline,
            final(self).lock@ == old(self).lock@,
    {
        let v = self.cell.take();
        let res = mutator(v, source);
        let ghost full = res;
        let r = match res {
            Ok(w) => {
                self.cell.install(w);
                Ok(())
            },
            Err((w, e)) => {
                self.cell.install(w);
                Err(e)
            },
        };
        proof {
            let w = self.cell@->0;
            assert(outcome(w, r) == full);
            assert(handed_back(full) == w);
            assert(call_ensures(*mutator, (old(self).value()->0, source), full));
            let rel = |a: V, b: V|
                exists|x: Result<V, (V, E)>|
                    call_ensures(*mutator, (a, source), x) && handed_back(x) == b;
            assert(rel(old(self).value()->0, w));
            self.history@ = self.history@.push(w);
            self.steps@ = self.steps@.push(rel);
            assert(self.steps@.drop_last() =~= old(self).steps@);
            assert forall|i: int| 0 <= i < self.steps@.len() implies #[trigger] (
            self.steps@[i])(self.history@[i], self.history@[i + 1]) by {
                if i < self.steps@.len() - 1 {
                    assert(self.steps@[i] == old(self).steps@[i]);
                    assert(self.history@[i] == old(self).history@[i]);
                    assert(self.history@[i + 1] == old(self).history@[i + 1]);
                }
            }
        }
        r
    }

    /// Fires a fallible action binding with direct access. The value that
    /// the mutator hands back is installed whether it succeeded or not; the
    /// change signal is raised, through the calls returned second, only
    /// when it succeeded, and its error is returned first when it failed.
    pub fn try_fire_action<S, E, F: Fn(V, &S) -> Result<V, (V, E)>>(
        &mut self,
        mutator: &F,
        source: &S,
        scope: Scope,
    ) -> (r: (Result<(), E>, Vec<HostCall>))
        requires
            old(self).wf(),
            old(self).value() is Some,
            old(self).lock().holder is None,
            call_requires(*mutator, (old(self).value()->0, source)),
        ensures
            final(self).wf(),
            final(self).value() matches Some(w) && call_ensures(
                *mutator,
                (old(self).value()->0, source),
                outcome(w, r.0),
            ),
            final(self).history() == old(self).history().push(final(self).value()->0),
            final(self).steps().drop_last() == old(self).steps(),
            final(self).steps().len() == old(self).steps().len() + 1,
            final(self).discipline_spec() == old(self).discipline_spec(),
            final(self).lock() == old(self).lock(),
            r.1@ == (if r.0 is Ok {
                signal_calls(old(self).discipline_spec(), scope)
            } else {
                Seq::empty()
            }),
    {
        let res = self.commit_fallible(mutator, source);
        let calls = match &res {
            Ok(()) => self.signal(scope),
            Err(_) => Vec::new(),
        };
        (res, calls)
    }

    /// Fires a fallible action binding for `task`, which holds access.
    /// Access passes to the longest waiter whether the mutator succeeded or
    /// not; otherwise as `try_fire_action`. Returns the mutator's outcome,
    /// the task that gets access next, and the calls to make.
    pub fn try_fire_granted<S, E, F: Fn(V, &S) -> Result<V, (V, E)>>(
        &mut self,
        task: u64,
        mutator: &F,
        source: &S,
        scope: Scope,
    ) -> (r: (Result<(), E>, Option<u64>, Vec<HostCall>))
        requires
            old(self).wf(),
            old(self).lock().holder == Some(task),
            call_requires(*mutator, (old(self).value()->0, source)),
        ensures
            final(self).wf(),
            final(self).value() matches Some(w) && call_ensures(
                *mutator,
                (old(self).value()->0, source),
                outcome(w, r.0),
            ),
            final(self).history() == old(self).history().push(final(self).value()->0),
            final(self).steps().drop_last() == old(self).steps(),
            final(self).steps().len() == old(self).steps().len() + 1,
            final(self).discipline_spec() == old(self).discipline_spec(),
            final(self).lock() == old(self).lock().released(),
            r.1 == final(self).lock().holder,
            r.2@ == (if r.0 is Ok {
                signal_calls(old(self).discipline_spec(), scope)
            } else {
                Seq::empty()
            }),
    {
        let res = self.commit_fallible(mutator, source);
        let next = self.lock.release(task);
        let calls = match &res {
            Ok(()) => self.signal(scope),
            Err(_) => Vec::new(),
        };
        (res, next, calls)
    }
}

} // verus!
