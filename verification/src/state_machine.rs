use vstd::prelude::*;
use vstd::laws_eq::obeys_concrete_eq;
use vstd::std_specs::cmp::{PartialEqSpec, PartialEqSpecImpl};

use crate::into_state_machine::IntoStateMachine;
use crate::lifecycle::{first_work, flag_after, work_after, Request, Work};

verus! {

/// A state machine where the shared storage is of type `Self`.
pub trait IntoStateMachineExt: IntoStateMachine {
    /// Create a state machine that will be lazily initialized.
    fn state_machine(self) -> (sm: StateMachine<Self>)
        ensures
            sm.storage() == self,
            sm.current() == Self::INITIAL,
            !sm.is_initialized(),
    {
        StateMachine { shared_storage: self, state: Self::INITIAL, initialized: false }
    }

    /// Create an uninitialized state machine that must be explicitly initialized:
    /// the driving code moves it into an initialized machine with
    /// [`into_initialized`](UninitializedStateMachine::into_initialized) and then
    /// executes the entry actions on the result itself; `into_initialized`
    /// executes none.
    fn uninitialized_state_machine(self) -> (sm: UninitializedStateMachine<Self>)
        ensures
            sm.storage() == self,
            sm.current() == Self::INITIAL,
    {
        UninitializedStateMachine { shared_storage: self, state: Self::INITIAL }
    }
}

impl<T: IntoStateMachine> IntoStateMachineExt for T {

}

/// A state machine that will be lazily initialized.
pub struct StateMachine<M: IntoStateMachine> {
    shared_storage: M,
    state: M::State,
    initialized: bool,
}

impl<M: IntoStateMachine> StateMachine<M> {
    /// The shared storage.
    pub closed spec fn storage(&self) -> M {
        self.shared_storage
    }

    /// The current state.
    pub closed spec fn current(&self) -> M::State {
        self.state
    }

    /// Whether the entry actions into the initial state have been executed.
    pub closed spec fn is_initialized(&self) -> bool {
        self.initialized
    }

    /// Rebuild a machine from its stored storage and state; such a machine is
    /// never initialized, and runs its entry actions again on first use.
    pub fn from_parts(shared_storage: M, state: M::State) -> (sm: Self)
        ensures
            sm.storage() == shared_storage,
            sm.current() == state,
            !sm.is_initialized(),
    {
        StateMachine { shared_storage, state, initialized: false }
    }

    /// Get the current state.
    pub fn state(&self) -> (s: &M::State)
        ensures
            *s == self.current(),
    {
        &self.state
    }

    /// The first piece of work that `request` needs: the entry actions if the
    /// machine is not initialized yet, then the dispatch of the event.
    /// Explicit initialization of an initialized machine needs nothing.
    pub fn next_work(&self, request: Request) -> (work: Option<Work>)
        ensures
            work == first_work(self.is_initialized(), request),
    {
        if !self.initialized {
            Some(Work::Init)
        } else {
            match request {
                Request::Init => None,
                Request::Handle => Some(Work::Handle),
            }
        }
    }

    /// Record that `done` has completed for `request`, and return the work
    /// that follows. Completed entry actions mark the machine initialized.
    ///
    /// This is for the code that drives the machine (awaits the entry actions
    /// and event handlers) only: the machine trusts the caller that `done` was
    /// performed, so reporting entry actions that never ran bypasses the
    /// guarantee that they run before the first event is handled.
    pub fn finish_work(&mut self, request: Request, done: Work) -> (work: Option<Work>)
        ensures
            final(self).storage() == old(self).storage(),
            final(self).current() == old(self).current(),
            final(self).is_initialized() == flag_after(old(self).is_initialized(), done),
            work == work_after(request, done),
    {
        match done {
            Work::Init => {
                self.initialized = true;
                match request {
                    Request::Init => None,
                    Request::Handle => Some(Work::Handle),
                }
            },
            Work::Handle => None,
        }
    }

    /// Mutable access to the storage and the state together, for the
    /// asynchronous work that runs on them.
    ///
    /// This is for the code that drives the machine only: writing the state
    /// through it bypasses the entry and exit actions of the states.
    pub fn parts_mut(&mut self) -> ((storage, state): (&mut M, &mut M::State))
        ensures
            *storage == old(self).storage(),
            *state == old(self).current(),
            final(self).storage() == *final(storage),
            final(self).current() == *final(state),
            final(self).is_initialized() == old(self).is_initialized(),
    {
        (&mut self.shared_storage, &mut self.state)
    }
}

/// A state machine that has been initialized.
#[derive(Debug)]
pub struct InitializedStateMachine<M: IntoStateMachine> {
    shared_storage: M,
    state: M::State,
}

/// A state machine that has not yet been initialized.
///
/// A state machine needs to be initialized before it can handle events. This
/// can be done by moving it into an [`InitializedStateMachine`] and executing
/// all the entry actions into the initial state.
///
/// Its `Debug` output is written by `derive(Debug)` and so names the type
/// `UninitializedStateMachine` (followed by its `shared_storage` and `state`).
#[derive(Debug)]
pub struct UninitializedStateMachine<M: IntoStateMachine> {
    shared_storage: M,
    state: M::State,
}

impl<M: IntoStateMachine> InitializedStateMachine<M> {
    /// The shared storage.
    pub closed spec fn storage(&self) -> M {
        self.shared_storage
    }

    /// The current state.
    pub closed spec fn current(&self) -> M::State {
        self.state
    }

    /// Get an immutable reference to the current state of the state machine.
    pub fn state(&self) -> (s: &M::State)
        ensures
            *s == self.current(),
    {
        &self.state
    }

    /// Mutable access to the storage and the state together, for the
    /// asynchronous work that handles an event.
    ///
    /// This is for the code that drives the machine only: writing the state
    /// through it bypasses the entry and exit actions of the states.
    pub fn parts_mut(&mut self) -> ((storage, state): (&mut M, &mut M::State))
        ensures
            *storage == old(self).storage(),
            *state == old(self).current(),
            final(self).storage() == *final(storage),
            final(self).current() == *final(state),
    {
        (&mut self.shared_storage, &mut self.state)
    }
}

impl<M: IntoStateMachine> UninitializedStateMachine<M> {
    /// The shared storage.
    pub closed spec fn storage(&self) -> M {
        self.shared_storage
    }

    /// The current state.
    pub closed spec fn current(&self) -> M::State {
        self.state
    }

    /// The state the machine holds, which its entry actions will enter.
    pub fn state(&self) -> (s: &M::State)
        ensures
            *s == self.current(),
    {
        &self.state
    }

    /// Rebuild an uninitialized machine from its stored storage and state.
    pub fn from_parts(shared_storage: M, state: M::State) -> (sm: Self)
        ensures
            sm.storage() == shared_storage,
            sm.current() == state,
    {
        UninitializedStateMachine { shared_storage, state }
    }

    /// Consume the uninitialized machine and move its storage and state,
    /// unchanged, into an initialized one; the entry actions into the initial
    /// state are then executed on the result.
    pub fn into_initialized(self) -> (sm: InitializedStateMachine<M>)
        ensures
            sm.storage() == self.storage(),
            sm.current() == self.current(),
    {
        InitializedStateMachine { shared_storage: self.shared_storage, state: self.state }
    }
}

impl<M: IntoStateMachine + Clone> Clone for StateMachine<M> where M::State: Clone {
    /// Clones the storage and the state and keeps whether the machine is initialized.
    fn clone(&self) -> (res: Self)
        ensures
            cloned(self.storage(), res.storage()),
            cloned(self.current(), res.current()),
            res.is_initialized() == self.is_initialized(),
    {
        let shared_storage = self.shared_storage.clone();
        let state = self.state.clone();
        let initialized = self.initialized;
        StateMachine { shared_storage, state, initialized }
    }
}

impl<M: IntoStateMachine + PartialEq> PartialEq for StateMachine<M> where M::State: PartialEq {
    fn eq(&self, other: &Self) -> (r: bool) {
        self.shared_storage == other.shared_storage && self.state == other.state
            && self.initialized == other.initialized
    }
}

impl<M: IntoStateMachine + PartialEq> PartialEqSpecImpl for StateMachine<M> where M::State: PartialEq {
    open spec fn obeys_eq_spec() -> bool {
        M::obeys_eq_spec() && <M::State as PartialEqSpec>::obeys_eq_spec()
    }

    open spec fn eq_spec(&self, other: &Self) -> bool {
        &&& self.storage().eq_spec(&other.storage())
        &&& self.current().eq_spec(&other.current())
        &&& self.is_initialized() == other.is_initialized()
    }
}

impl<M: IntoStateMachine + PartialEq> Eq for StateMachine<M> where M::State: PartialEq {

}

impl<M: IntoStateMachine + Default> Default for StateMachine<M> {
    /// A machine with default storage, in the initial state, not yet initialized.
    fn default() -> (sm: Self)
        ensures
            call_ensures(M::default, (), sm.storage()),
            sm.current() == M::INITIAL,
            !sm.is_initialized(),
    {
        let shared_storage = M::default();
        StateMachine { shared_storage, state: M::INITIAL, initialized: false }
    }
}

impl<M: IntoStateMachine> core::ops::Deref for StateMachine<M> {
    type Target = M;

    fn deref(&self) -> (r: &M)
        ensures
            *r == self.storage(),
    {
        &self.shared_storage
    }
}

impl<M: IntoStateMachine> core::ops::DerefMut for StateMachine<M> {
    fn deref_mut(&mut self) -> (r: &mut M)
        ensures
            *r == old(self).storage(),
            final(self).storage() == *final(r),
            final(self).current() == old(self).current(),
            final(self).is_initialized() == old(self).is_initialized(),
    {
        &mut self.shared_storage
    }
}

impl<M: IntoStateMachine + Clone> Clone for InitializedStateMachine<M> where M::State: Clone {
    /// Clones the storage and the state.
    fn clone(&self) -> (res: Self)
        ensures
            cloned(self.storage(), res.storage()),
            cloned(self.current(), res.current()),
    {
        let shared_storage = self.shared_storage.clone();
        let state = self.state.clone();
        InitializedStateMachine { shared_storage, state }
    }
}

impl<M: IntoStateMachine + PartialEq> PartialEq for InitializedStateMachine<M> where M::State: PartialEq {
    fn eq(&self, other: &Self) -> (r: bool) {
        self.shared_storage == other.shared_storage && self.state == other.state
    }
}

impl<M: IntoStateMachine + PartialEq> PartialEqSpecImpl for InitializedStateMachine<M> where M::State: PartialEq {
    open spec fn obeys_eq_spec() -> bool {
        M::obeys_eq_spec() && <M::State as PartialEqSpec>::obeys_eq_spec()
    }

    open spec fn eq_spec(&self, other: &Self) -> bool {
        &&& self.storage().eq_spec(&other.storage())
        &&& self.current().eq_spec(&other.current())
    }
}

impl<M: IntoStateMachine + Eq> Eq for InitializedStateMachine<M> where M::State: Eq {

}

impl<M: IntoStateMachine> core::ops::Deref for InitializedStateMachine<M> {
    type Target = M;

    fn deref(&self) -> (r: &M)
        ensures
            *r == self.storage(),
    {
        &self.shared_storage
    }
}

impl<M: IntoStateMachine + Clone> Clone for UninitializedStateMachine<M> where M::State: Clone {
    /// Clones the storage and the state.
    fn clone(&self) -> (res: Self)
        ensures
            cloned(self.storage(), res.storage()),
            cloned(self.current(), res.current()),
    {
        let shared_storage = self.shared_storage.clone();
        let state = self.state.clone();
        UninitializedStateMachine { shared_storage, state }
    }
}

impl<M: IntoStateMachine + PartialEq> PartialEq for UninitializedStateMachine<M> where M::State: PartialEq {
    fn eq(&self, other: &Self) -> (r: bool) {
        self.shared_storage == other.shared_storage && self.state == other.state
    }
}

impl<M: IntoStateMachine + PartialEq> PartialEqSpecImpl for UninitializedStateMachine<M> where M::State: PartialEq {
    open spec fn obeys_eq_spec() -> bool {
        M::obeys_eq_spec() && <M::State as PartialEqSpec>::obeys_eq_spec()
    }

    open spec fn eq_spec(&self, other: &Self) -> bool {
        &&& self.storage().eq_spec(&other.storage())
        &&& self.current().eq_spec(&other.current())
    }
}

impl<M: IntoStateMachine + Eq> Eq for UninitializedStateMachine<M> where M::State: Eq {

}

impl<M: IntoStateMachine> core::ops::Deref for UninitializedStateMachine<M> {
    type Target = M;

    fn deref(&self) -> (r: &M)
        ensures
            *r == self.storage(),
    {
        &self.shared_storage
    }
}

/// Two lazily initialized machines compare equal exactly when their shared
/// storage, their current states and their initialization flags are all
/// equal, for storage and state types whose `==` is equality of values: in
/// particular, machines in different states never compare equal.
pub proof fn lemma_state_machine_eq<M: IntoStateMachine + PartialEq>(
    a: StateMachine<M>,
    b: StateMachine<M>,
    r: bool,
)
    where M::State: PartialEq,
    requires
        obeys_concrete_eq::<M>(),
        obeys_concrete_eq::<M::State>(),
        call_ensures(<StateMachine<M> as PartialEq>::eq, (&a, &b), r),
    ensures
        r == (a.storage() == b.storage() && a.current() == b.current() && a.is_initialized()
            == b.is_initialized()),
{
    reveal(obeys_concrete_eq);
}

/// Two initialized machines compare equal exactly when their shared storage
/// and their current states are equal, for storage and state types whose
/// `==` is equality of values.
pub proof fn lemma_initialized_state_machine_eq<M: IntoStateMachine + PartialEq>(
    a: InitializedStateMachine<M>,
    b: InitializedStateMachine<M>,
    r: bool,
)
    where M::State: PartialEq,
    requires
        obeys_concrete_eq::<M>(),
        obeys_concrete_eq::<M::State>(),
        call_ensures(<InitializedStateMachine<M> as PartialEq>::eq, (&a, &b), r),
    ensures
        r == (a.storage() == b.storage() && a.current() == b.current()),
{
    reveal(obeys_concrete_eq);
}

/// Two uninitialized machines compare equal exactly when their shared storage
/// and their states are equal, for storage and state types whose `==` is
/// equality of values.
pub proof fn lemma_uninitialized_state_machine_eq<M: IntoStateMachine + PartialEq>(
    a: UninitializedStateMachine<M>,
    b: UninitializedStateMachine<M>,
    r: bool,
)
    where M::State: PartialEq,
    requires
        obeys_concrete_eq::<M>(),
        obeys_concrete_eq::<M::State>(),
        call_ensures(<UninitializedStateMachine<M> as PartialEq>::eq, (&a, &b), r),
    ensures
        r == (a.storage() == b.storage() && a.current() == b.current()),
{
    reveal(obeys_concrete_eq);
}

} // verus!
