//! The access lock: who holds the state value now, and who waits for it, in
//! the order in which they asked.
use vstd::prelude::*;

verus! {

/// What a lock is, mathematically: its holder and its queue of waiters.
pub struct LockView {
    pub holder: Option<u64>,
    pub waiting: Seq<u64>,
}

impl LockView {
    /// A waiter only exists while someone holds access, and no task stands
    /// twice among the holder and the waiters.
    pub open spec fn wf(self) -> bool {
        &&& (self.holder is None ==> self.waiting.len() == 0)
        &&& self.waiting.no_duplicates()
        &&& (self.holder matches Some(h) ==> !self.waiting.contains(h))
    }

    /// Whether `task` holds access or waits for it.
    pub open spec fn involves(self, task: u64) -> bool {
        self.holder == Some(task) || self.waiting.contains(task)
    }

    /// The lock after `task` asks for access.
    pub open spec fn requested(self, task: u64) -> LockView {
        if self.holder is None {
            LockView { holder: Some(task), waiting: self.waiting }
        } else {
            LockView { holder: self.holder, waiting: self.waiting.push(task) }
        }
    }

    /// The lock after its holder gives access up: the longest waiter gets it.
    pub open spec fn released(self) -> LockView {
        if self.waiting.len() == 0 {
            LockView { holder: None, waiting: self.waiting }
        } else {
            LockView { holder: Some(self.waiting[0]), waiting: self.waiting.drop_first() }
        }
    }

    /// The lock after `n` releases in a row.
    pub open spec fn released_times(self, n: nat) -> LockView
        decreases n,
    {
        if n == 0 {
            self
        } else {
            self.released().released_times((n - 1) as nat)
        }
    }
}

/// Mutual exclusion over the state value, granted first come, first served.
pub struct AccessLock {
    holder: Option<u64>,
    waiting: Vec<u64>,
}

impl View for AccessLock {
    type V = LockView;

    closed spec fn view(&self) -> LockView {
        LockView { holder: self.holder, waiting: self.waiting@ }
    }
}

impl AccessLock {
    /// A lock that nobody holds.
    pub fn new() -> (g: Self)
        ensures
            g@.holder is None,
            g@.waiting.len() == 0,
            g@.wf(),
    {
        AccessLock { holder: None, waiting: Vec::new() }
    }

    /// The task that holds access, if any.
    pub fn holder(&self) -> (r: Option<u64>)
        ensures
            r == self@.holder,
    {
        self.holder
    }

    /// How many tasks wait for access.
    pub fn waiting_len(&self) -> (r: usize)
        ensures
            r == self@.waiting.len(),
    {
        self.waiting.len()
    }

    /// Whether `task` holds access or waits for it.
    pub fn involves(&self, task: u64) -> (r: bool)
        ensures
            r == self@.involves(task),
    {
        if self.holder == Some(task) {
            return true;
        }
        let mut i: usize = 0;
        while i < self.waiting.len()
            invariant
                0 <= i <= self.waiting@.len(),
                forall|j: int| 0 <= j < i ==> self.waiting@[j] != task,
            decreases self.waiting@.len() - i,
        {
            if self.waiting[i] == task {
                return true;
            }
            i = i + 1;
        }
        false
    }

    /// `task` asks for access. It gets it at once when nobody holds it;
    /// otherwise it joins the end of the queue and the result is `false`.
    pub fn request(&mut self, task: u64) -> (granted: bool)
        requires
            old(self)@.wf(),
            !old(self)@.involves(task),
        ensures
            granted == (old(self)@.holder is None),
            final(self)@ == old(self)@.requested(task),
            final(self)@.wf(),
    {
        if self.holder.is_none() {
            self.holder = Some(task);
            true
        } else {
            self.waiting.push(task);
            false
        }
    }

    /// The holder `task` gives access up. The task that has waited longest
    /// gets it, and is returned so that it can be resumed.
    pub fn release(&mut self, task: u64) -> (next: Option<u64>)
        requires
            old(self)@.wf(),
            old(self)@.holder == Some(task),
        ensures
            final(self)@ == old(self)@.released(),
            next == final(self)@.holder,
            final(self)@.wf(),
            !final(self)@.involves(task),
    {
        if self.waiting.len() == 0 {
            self.holder = None;
        } else {
            let first = self.waiting.remove(0);
            self.holder = Some(first);
        }
        proof {
            assert(self@.waiting =~= old(self)@.released().waiting);
            assert forall|i: int, j: int|
                0 <= i < j < self@.waiting.len() implies self@.waiting[i] != self@.waiting[j] by {
                assert(self@.waiting[i] == old(self)@.waiting[i + 1]);
                assert(self@.waiting[j] == old(self)@.waiting[j + 1]);
            }
            assert(!self@.waiting.contains(task));
        }
        self.holder
    }
}

} // verus!
