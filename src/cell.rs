//! The typed cell: the one slot that holds the application's state value.
use vstd::prelude::*;

verus! {

/// Why an access to the cell was refused.
#[derive(Clone, Copy, Debug, PartialEq, Eq, Structural)]
pub enum AccessError {
    /// Nothing was installed before the access.
    NotInstalled,
}

/// Holds at most one value of the state type `V`.
///
/// The state type is a parameter of the cell, so an access that asks for
/// another type than the one installed is refused when the program is
/// compiled, before it can run.
pub struct TypedCell<V> {
    slot: Option<V>,
}

impl<V> View for TypedCell<V> {
    type V = Option<V>;

    closed spec fn view(&self) -> Option<V> {
        self.slot
    }
}

impl<V> TypedCell<V> {
    /// An empty cell: every access fails until a value is installed.
    pub fn new() -> (c: Self)
        ensures
            c@ is None,
    {
        TypedCell { slot: None }
    }

    /// Whether a value is installed.
    pub fn is_installed(&self) -> (r: bool)
        ensures
            r == self@ is Some,
    {
        self.slot.is_some()
    }

    /// Stores `value`, dropping whatever the cell held before.
    pub fn install(&mut self, value: V)
        ensures
            final(self)@ == Some(value),
    {
        self.slot = Some(value);
    }

    /// Replaces the content with a value of another type, which from then on
    /// is the cell's state type.
    pub fn reinstall<W>(self, value: W) -> (c: TypedCell<W>)
        ensures
            c@ == Some(value),
    {
        TypedCell { slot: Some(value) }
    }

    /// The installed value, or the reason there is none.
    pub fn read(&self) -> (r: Result<&V, AccessError>)
        ensures
            self@ is Some <==> r is Ok,
            r matches Ok(v) ==> Some(*v) == self@,
            r matches Err(e) ==> e == AccessError::NotInstalled,
    {
        match &self.slot {
            Some(v) => Ok(v),
            None => Err(AccessError::NotInstalled),
        }
    }

    /// Moves the installed value out, leaving the cell empty.
    pub fn take(&mut self) -> (v: V)
        requires
            old(self)@ is Some,
        ensures
            Some(v) == old(self)@,
            final(self)@ is None,
    {
        self.slot.take().unwrap()
    }

    /// Exclusive access to the installed value.
    pub fn mutate(&mut self) -> (r: &mut V)
        requires
            old(self)@ is Some,
        ensures
            Some(*r) == old(self)@,
            final(self)@ == Some(*final(r)),
    {
        self.slot.as_mut().unwrap()
    }
}

} // verus!
