use vstd::prelude::*;

use crate::error::MockError;
use crate::registry::Registry;
use crate::scheduler::Scheduler;

verus! {

/// The number of scheduling steps a harness takes unless told otherwise.
pub const DEFAULT_MAX_STEPS: usize = 50;

/// What a harness has been told before it executes: whether a call was
/// registered, the assertion and response rules, the step budget, and the
/// first usage error met while registering.
pub struct MockConfig<A, R> {
    has_call: bool,
    expectations: Registry<A>,
    responders: Registry<R>,
    max_steps: usize,
    error: Option<MockError>,
}

impl<A, R> MockConfig<A, R> {
    pub closed spec fn has_call(&self) -> bool {
        self.has_call
    }

    pub closed spec fn expectations(&self) -> Registry<A> {
        self.expectations
    }

    pub closed spec fn responders(&self) -> Registry<R> {
        self.responders
    }

    pub closed spec fn max_steps(&self) -> nat {
        self.max_steps as nat
    }

    pub closed spec fn error(&self) -> Option<MockError> {
        self.error
    }

    pub open spec fn wf(&self) -> bool {
        self.expectations().wf() && self.responders().wf()
    }

    /// A configuration with no call, no rules and the default budget.
    pub fn new() -> (r: Self)
        ensures
            r.wf(),
            !r.has_call(),
            r.expectations()@.len() == 0,
            r.responders()@.len() == 0,
            r.max_steps() == DEFAULT_MAX_STEPS,
            r.error() is None,
    {
        MockConfig {
            has_call: false,
            expectations: Registry::new(),
            responders: Registry::new(),
            max_steps: DEFAULT_MAX_STEPS,
            error: None,
        }
    }

    /// Records that the call under test has been registered.
    pub fn set_call(&mut self)
        ensures
            final(self).has_call(),
            final(self).expectations() == old(self).expectations(),
            final(self).responders() == old(self).responders(),
            final(self).max_steps() == old(self).max_steps(),
            final(self).error() == old(self).error(),
    {
        self.has_call = true;
    }

    /// Sets the step budget.
    pub fn set_max_steps(&mut self, max_steps: usize)
        ensures
            final(self).max_steps() == max_steps,
            final(self).has_call() == old(self).has_call(),
            final(self).expectations() == old(self).expectations(),
            final(self).responders() == old(self).responders(),
            final(self).error() == old(self).error(),
    {
        self.max_steps = max_steps;
    }

    /// `after` is `self` once `rule` was offered as the response rule of
    /// `method`: appended when the method has none, else dropped, and the
    /// refusal kept as the usage error unless an earlier one is kept already.
    pub open spec fn response_added(&self, method: String, rule: R, after: Self) -> bool {
        &&& after.has_call() == self.has_call()
        &&& after.max_steps() == self.max_steps()
        &&& after.expectations() == self.expectations()
        &&& !self.responders().has_method(method@) ==> after.responders()@
            == self.responders()@.push((method@, rule)) && after.error() == self.error()
        &&& self.responders().has_method(method@) ==> after.responders()@ == self.responders()@
            && after.error() == (if self.error() is Some {
            self.error()
        } else {
            Some(MockError::DuplicateRule { method })
        })
    }

    /// Registers a response rule. A method that already has one is a usage
    /// error: the rule is dropped and, if it is the first such error, kept.
    pub fn add_response(&mut self, method: String, rule: R)
        requires
            old(self).wf(),
        ensures
            final(self).wf(),
            old(self).response_added(method, rule, *final(self)),
    {
        match self.responders.insert(method, rule) {
            Ok(()) => {},
            Err(e) => {
                if self.error.is_none() {
                    self.error = Some(e);
                }
            },
        }
    }

    /// Registers an assertion rule, with the same usage rule as `add_response`.
    pub fn add_expectation(&mut self, method: String, rule: A)
        requires
            old(self).wf(),
        ensures
            final(self).wf(),
            final(self).has_call() == old(self).has_call(),
            final(self).max_steps() == old(self).max_steps(),
            final(self).responders() == old(self).responders(),
            !old(self).expectations().has_method(method@) ==> final(self).expectations()@ == old(
                self,
            ).expectations()@.push((method@, rule)) && final(self).error() == old(self).error(),
            old(self).expectations().has_method(method@) ==> final(self).expectations()@ == old(
                self,
            ).expectations()@ && final(self).error() == (if old(self).error() is Some {
                old(self).error()
            } else {
                Some(MockError::DuplicateRule { method })
            }),
    {
        match self.expectations.insert(method, rule) {
            Ok(()) => {},
            Err(e) => {
                if self.error.is_none() {
                    self.error = Some(e);
                }
            },
        }
    }

    /// Ends configuration. Without a call it fails with `MissingCall`; after a
    /// usage error, with that error; otherwise it hands the rules and the
    /// budget to a scheduler that has taken no step.
    pub fn start(self) -> (r: Result<Scheduler<A, R>, MockError>)
        requires
            self.wf(),
        ensures
            !self.has_call() ==> r == Err::<Scheduler<A, R>, MockError>(MockError::MissingCall),
            self.has_call() && self.error() is Some ==> r == Err::<Scheduler<A, R>, MockError>(
                self.error()->Some_0,
            ),
            self.has_call() && self.error() is None ==> (r matches Ok(s) && s.wf() && s.steps()
                == 0 && !s.responded() && !s.stopped() && s.max_steps() == self.max_steps() && s.expectations()
                == self.expectations() && s.responders() == self.responders()),
    {
        if !self.has_call {
            return Err(MockError::MissingCall);
        }
        match self.error {
            Some(e) => Err(e),
            None => Ok(Scheduler::new(self.expectations, self.responders, self.max_steps)),
        }
    }
}

} // verus!
