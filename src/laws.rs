//! Laws of the store, proved over the models that the operations' contracts
//! speak of.
use vstd::prelude::*;

use crate::lock::LockView;
use crate::store::{chained, Store};

verus! {

/// The content of a cell that held `start` after `values` were installed in
/// it one after the other (an installation replaces, it never merges).
pub open spec fn after_installs<V>(start: Option<V>, values: Seq<V>) -> Option<V>
    decreases values.len(),
{
    if values.len() == 0 {
        start
    } else {
        after_installs(Some(values[0]), values.drop_first())
    }
}

/// After any nonempty series of installations, the cell holds the value
/// installed last, so a read or a mutation succeeds and sees that value.
pub proof fn lemma_last_install_wins<V>(start: Option<V>, values: Seq<V>)
    requires
        values.len() > 0,
    ensures
        after_installs(start, values) == Some(values.last()),
    decreases values.len(),
{
    if values.len() > 1 {
        lemma_last_install_wins(Some(values[0]), values.drop_first());
        assert(values.drop_first().last() == values.last());
    } else {
        assert(values.drop_first().len() == 0);
        assert(after_installs(Some(values[0]), values.drop_first()) == Some(values[0]));
    }
}

/// A mutation is committed before its change signal is raised: once a
/// firing has recorded the value `w` (the store after it, `after`, has the
/// history of the store before it, `before`, with `w` added), the store
/// holds `w`, which is what every view rendered on that signal reads; the
/// value from before the firing is no longer the current one, unless the
/// mutator left it as it was.
pub proof fn lemma_signal_sees_mutation<V>(before: Store<V>, after: Store<V>, w: V)
    requires
        before.wf(),
        after.wf(),
        before.value() is Some,
        after.history() == before.history().push(w),
    ensures
        after.value() == Some(w),
        after.value() == Some(before.value()->0) ==> w == before.value()->0,
{
    after.lemma_current_is_last();
}

/// Mutations never interleave: the installed value is the value first
/// installed taken through each committed mutation, whole and one at a
/// time, in the order of their commits.
pub proof fn lemma_serial_order<V>(s: Store<V>)
    requires
        s.wf(),
        s.value() is Some,
    ensures
        chained(s.history(), s.steps()),
        s.value() == Some(s.history().last()),
        forall|i: int|
            0 <= i < s.steps().len() ==> #[trigger] (s.steps()[i])(
                s.history()[i],
                s.history()[i + 1],
            ),
{
    s.lemma_current_is_last();
}

/// At most one task holds access at a time, and a task is never both
/// holder and waiter.
pub proof fn lemma_single_holder(g: LockView, a: u64, b: u64)
    requires
        g.wf(),
        g.holder == Some(a),
        g.holder == Some(b),
    ensures
        a == b,
        !g.waiting.contains(a),
{
}

/// No waiter waits forever: the task at place `k` of the queue holds
/// access after `k + 1` releases, each holder releasing in turn.
pub proof fn lemma_waiter_served(g: LockView, k: int)
    requires
        g.wf(),
        0 <= k < g.waiting.len(),
    ensures
        g.released_times((k + 1) as nat).holder == Some(g.waiting[k]),
    decreases k,
{
    let r = g.released();
    assert(r.waiting =~= g.waiting.drop_first());
    if k == 0 {
        assert(r.released_times(0) == r);
    } else {
        lemma_released_wf(g);
        lemma_waiter_served(r, k - 1);
        assert(r.waiting[k - 1] == g.waiting[k]);
    }
}

/// A release keeps a lock well formed.
pub proof fn lemma_released_wf(g: LockView)
    requires
        g.wf(),
    ensures
        g.released().wf(),
{
    let r = g.released();
    if g.waiting.len() > 0 {
        assert forall|i: int, j: int|
            0 <= i < j < r.waiting.len() implies r.waiting[i] != r.waiting[j] by {
            assert(r.waiting[i] == g.waiting[i + 1]);
            assert(r.waiting[j] == g.waiting[j + 1]);
        }
        if r.waiting.contains(g.waiting[0]) {
            let j = choose|j: int| 0 <= j < r.waiting.len() && r.waiting[j] == g.waiting[0];
            assert(g.waiting[j + 1] == g.waiting[0]);
        }
    }
}

} // verus!
