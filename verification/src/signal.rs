//! Completion signals: the foundational synchronization primitive.
//!
//! A signal stands for the eventual completion (or failure) of exactly one
//! asynchronous operation.  Its lifecycle is `Unset -> Pending ->
//! Terminal{Complete | Error}`, and no transition leaves a terminal state.
//! A signal records the value of the run's monotonic logical counter at its
//! terminal transition, which lets the rest of the library state ordering
//! facts ("this stage started only after that signal fired").
//!
//! Callbacks are modelled as registered payloads: each carries the opaque
//! user data of the observer and fires exactly once, at the terminal
//! transition.  Registering on an already-terminal signal fires the callback
//! synchronously at registration.

use vstd::prelude::*;
use crate::errors::PipelineError;
use crate::stage::Stage;

verus! {

/// Opaque user data carried by a status callback; in this pipeline it holds
/// the iteration index of the observed operation.
#[derive(Clone, Copy, PartialEq, Eq, Structural, Debug)]
pub struct UserDataPh(pub usize);

/// The lifecycle state of a completion signal.
#[derive(Clone, Copy, PartialEq, Eq, Structural, Debug)]
pub enum SignalState {
    /// Created but not yet bound to an operation.
    Unset,
    /// Bound to an operation that has not yet finished.
    Pending,
    /// The operation finished successfully.
    Complete,
    /// The operation failed with a runtime status code.
    Error { code: i32 },
}

/// A completion signal.
///
/// The underlying runtime completion object is owned exclusively by the
/// signal; downstream waiters share it by reference.  This model keeps the
/// lifecycle state, the logical tick of the terminal transition, and the
/// registered one-shot callbacks.
pub struct Signal {
    state: SignalState,
    terminal_tick: u64,
    callbacks: Vec<UserDataPh>,
    fired: usize,
}

impl Signal {
    /// The lifecycle state.
    pub closed spec fn state(self) -> SignalState {
        self.state
    }

    /// The logical counter value recorded at the terminal transition
    /// (0 while the signal is not yet terminal).
    pub closed spec fn terminal_tick(self) -> u64 {
        self.terminal_tick
    }

    /// The user data of the registered callbacks, in registration order.
    pub closed spec fn callbacks(self) -> Seq<UserDataPh> {
        self.callbacks@
    }

    /// How many registered callbacks have fired.
    pub closed spec fn fired(self) -> nat {
        self.fired as nat
    }

    /// True once the signal has reached `Complete` or `Error`.
    pub open spec fn is_terminal(self) -> bool {
        self.state() is Complete || self.state() is Error
    }

    /// Well-formedness: callbacks fire exactly once, at (or after, for late
    /// registrations) the terminal transition, and the terminal tick is a
    /// real counter value exactly when the signal is terminal.
    pub closed spec fn wf(self) -> bool {
        &&& if self.is_terminal() {
            &&& self.fired == self.callbacks@.len()
            &&& self.terminal_tick >= 1
        } else {
            &&& self.fired == 0
            &&& self.terminal_tick == 0
        }
        &&& self.state is Unset ==> self.callbacks@.len() == 0
    }

    /// Creates an empty signal, not yet bound to any operation.
    pub fn empty() -> (s: Signal)
        ensures
            s.wf(),
            s.state() is Unset,
            s.callbacks() =~= Seq::<UserDataPh>::empty(),
    {
        Signal { state: SignalState::Unset, terminal_tick: 0, callbacks: Vec::new(), fired: 0 }
    }

    /// Binds the signal to one asynchronous operation as its completion
    /// marker.  A signal is bound at most once: the precondition rules out
    /// rebinding, which the design treats as a programmer error.
    pub fn bind(&mut self)
        requires
            old(self).wf(),
            old(self).state() is Unset,
        ensures
            final(self).wf(),
            final(self).state() is Pending,
            final(self).callbacks() == old(self).callbacks(),
            final(self).terminal_tick() == 0,
    {
        self.state = SignalState::Pending;
    }

    /// Transitions a pending signal to `Complete` at logical tick `tick`,
    /// firing every registered callback exactly once.
    pub fn complete(&mut self, tick: u64)
        requires
            old(self).wf(),
            old(self).state() is Pending,
            tick >= 1,
        ensures
            final(self).wf(),
            final(self).state() is Complete,
            final(self).terminal_tick() == tick,
            final(self).callbacks() == old(self).callbacks(),
            final(self).fired() == final(self).callbacks().len(),
    {
        self.state = SignalState::Complete;
        self.terminal_tick = tick;
        self.fired = self.callbacks.len();
    }

    /// Transitions a pending signal to `Error { code }` at logical tick
    /// `tick`, firing every registered callback exactly once.
    pub fn fail(&mut self, code: i32, tick: u64)
        requires
            old(self).wf(),
            old(self).state() is Pending,
            tick >= 1,
        ensures
            final(self).wf(),
            final(self).state() == (SignalState::Error { code }),
            final(self).terminal_tick() == tick,
            final(self).callbacks() == old(self).callbacks(),
            final(self).fired() == final(self).callbacks().len(),
    {
        self.state = SignalState::Error { code };
        self.terminal_tick = tick;
        self.fired = self.callbacks.len();
    }

    /// Registers a one-shot callback.  On a signal that was never bound this
    /// is an error (`SignalNotBound`).  On a pending signal the callback is
    /// retained and fires at the terminal transition.  On an already-terminal
    /// signal it fires synchronously at registration.
    pub fn register_callback(&mut self, data: UserDataPh) -> (r: Result<(), PipelineError>)
        requires
            old(self).wf(),
            old(self).callbacks().len() < usize::MAX,
        ensures
            final(self).wf(),
            final(self).state() == old(self).state(),
            final(self).terminal_tick() == old(self).terminal_tick(),
            old(self).state() is Unset ==> {
                &&& r == Err::<(), PipelineError>(PipelineError::SignalNotBound)
                &&& final(self).callbacks() == old(self).callbacks()
            },
            !(old(self).state() is Unset) ==> {
                &&& r == Ok::<(), PipelineError>(())
                &&& final(self).callbacks() == old(self).callbacks().push(data)
            },
    {
        match self.state {
            SignalState::Unset => Err(PipelineError::SignalNotBound),
            SignalState::Pending => {
                self.callbacks.push(data);
                Ok(())
            },
            _ => {
                self.callbacks.push(data);
                self.fired = self.fired + 1;
                Ok(())
            },
        }
    }

    /// Returns the current lifecycle state.
    pub fn current_state(&self) -> (s: SignalState)
        ensures
            s == self.state(),
    {
        self.state
    }

    /// Returns the logical tick recorded at the terminal transition.
    pub fn completion_tick(&self) -> (t: u64)
        ensures
            t == self.terminal_tick(),
    {
        self.terminal_tick
    }

    /// The outcome a waiter observes once the signal is terminal: success,
    /// or the fatal runtime failure of `operation`.  Blocking until the
    /// signal turns terminal is the waiting caller's affair; this model
    /// expresses the block as the precondition.
    pub fn completion_status(&self, operation: Stage) -> (r: Result<(), PipelineError>)
        requires
            self.is_terminal(),
        ensures
            self.state() is Complete ==> r == Ok::<(), PipelineError>(()),
            forall|code: i32|
                self.state() == (SignalState::Error { code }) ==> r == Err::<(), PipelineError>(
                    PipelineError::RuntimeOpFailed { operation, code },
                ),
    {
        match self.state {
            SignalState::Error { code } => Err(
                PipelineError::RuntimeOpFailed { operation, code },
            ),
            _ => Ok(()),
        }
    }
}

} // verus!
