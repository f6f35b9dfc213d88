use vstd::prelude::*;

use crate::error::MockError;
use crate::registry::Registry;

verus! {

/// The view of a list of names.
pub open spec fn names(v: Vec<String>) -> Seq<Seq<char>> {
    v@.map_values(|s: String| s@)
}

/// The rules taken for one outbound request: an assertion rule to run on it,
/// and a response rule whose outcome answers it.
pub struct Matched<A, R> {
    pub check: Option<A>,
    pub respond: Option<R>,
}

/// The two ways the final bytes of a call were decoded: as the canonical
/// `{ok: T} | {err: string}` shape, and directly as `T`.
pub struct DecodeAttempts<T> {
    pub canonical: Result<Result<T, String>, String>,
    pub direct: Result<T, String>,
}

/// The decisions of one execution: which rule answers which request, when
/// stepping stops, and what the call finally resolves to. The environment
/// is driven by the caller, which advances it once per step, reports each
/// pending request to `match_request` and performs what comes back.
pub struct Scheduler<A, R> {
    expectations: Registry<A>,
    responders: Registry<R>,
    max_steps: usize,
    steps: usize,
    responded: bool,
    stopped: bool,
}

impl<A, R> Scheduler<A, R> {
    pub closed spec fn expectations(&self) -> Registry<A> {
        self.expectations
    }

    pub closed spec fn responders(&self) -> Registry<R> {
        self.responders
    }

    pub closed spec fn max_steps(&self) -> nat {
        self.max_steps as nat
    }

    pub closed spec fn steps(&self) -> nat {
        self.steps as nat
    }

    /// A response has been injected during the current step.
    pub closed spec fn responded(&self) -> bool {
        self.responded
    }

    /// An assertion rule failed: stepping has stopped for good.
    pub closed spec fn stopped(&self) -> bool {
        self.stopped
    }

    pub open spec fn wf(&self) -> bool {
        &&& self.expectations().wf()
        &&& self.responders().wf()
        &&& self.steps() <= self.max_steps()
    }

    /// Every rule has been matched.
    pub open spec fn settled(&self) -> bool {
        self.expectations()@.len() == 0 && self.responders()@.len() == 0
    }

    /// Another step is due: no assertion failed, budget remains, and rules
    /// remain or no step was taken yet.
    pub open spec fn spec_wants_step(&self) -> bool {
        !self.stopped() && self.steps() < self.max_steps() && !(self.steps() > 0
            && self.settled())
    }

    /// `after` is `self` once the environment has been advanced by one step.
    pub open spec fn stepped(&self, after: Self) -> bool {
        &&& after.steps() == self.steps() + 1
        &&& after.max_steps() == self.max_steps()
        &&& after.expectations() == self.expectations()
        &&& after.responders() == self.responders()
        &&& !after.responded()
        &&& after.stopped() == self.stopped()
    }

    /// `after` is `self` once the rules for a request to `method` have been
    /// taken, `r` what was taken.
    pub open spec fn matched(&self, method: Seq<char>, r: Matched<A, R>, after: Self) -> bool {
        &&& self.expectations().took(method, r.check, after.expectations())
        &&& self.responders().took(method, r.respond, after.responders())
        &&& after.responded() == r.respond is Some
        &&& after.steps() == self.steps()
        &&& after.max_steps() == self.max_steps()
        &&& after.stopped() == self.stopped()
    }

    /// The methods of the rules left unmatched, assertion rules first.
    pub open spec fn unmatched(&self) -> Seq<Seq<char>> {
        self.expectations().pending() + self.responders().pending()
    }

    /// The step budget has been used up.
    pub open spec fn exhausted(&self) -> bool {
        self.steps() == self.max_steps()
    }

    /// What the call resolves to once stepping has stopped. An error of the
    /// environment comes through as it is. Otherwise the canonical shape is
    /// preferred and the direct decoding is the fallback; a value, or the
    /// error case of the canonical shape, stands only when no rule is left
    /// unmatched. Bytes that decode neither way give a decode error that
    /// says whether the budget ran out and which rules were left.
    pub open spec fn resolved<T>(
        &self,
        awaited: Result<DecodeAttempts<T>, String>,
        r: Result<T, MockError>,
    ) -> bool {
        match awaited {
            Err(message) => r == Err::<T, MockError>(MockError::Environment { message }),
            Ok(d) => {
                let decoded_err = d.canonical is Err && d.direct is Err;
                if decoded_err {
                    match r {
                        Err(MockError::Decode { detail, exhausted, unmatched }) => detail
                            == d.direct->Err_0 && exhausted == self.exhausted() && names(
                            unmatched,
                        ) == self.unmatched(),
                        _ => false,
                    }
                } else if self.unmatched().len() > 0 {
                    match r {
                        Err(MockError::Unmet { methods }) => names(methods) == self.unmatched(),
                        _ => false,
                    }
                } else {
                    match d.canonical {
                        Ok(Ok(v)) => r == Ok::<T, MockError>(v),
                        Ok(Err(message)) => r == Err::<T, MockError>(
                            MockError::Rejected { message },
                        ),
                        Err(_) => r == Ok::<T, MockError>(d.direct->Ok_0),
                    }
                }
            },
        }
    }

    /// A scheduler that has taken no step yet.
    pub fn new(expectations: Registry<A>, responders: Registry<R>, max_steps: usize) -> (r: Self)
        requires
            expectations.wf(),
            responders.wf(),
        ensures
            r.wf(),
            r.expectations() == expectations,
            r.responders() == responders,
            r.max_steps() == max_steps,
            r.steps() == 0,
            !r.responded(),
            !r.stopped(),
    {
        Scheduler { expectations, responders, max_steps, steps: 0, responded: false, stopped: false }
    }

    /// Whether the caller should advance the environment by another step.
    pub fn wants_step(&self) -> (b: bool)
        ensures
            b == self.spec_wants_step(),
    {
        !self.stopped && self.steps < self.max_steps && !(self.steps > 0 && self.expectations.is_empty()
            && self.responders.is_empty())
    }

    /// Records that the environment was advanced by one step.
    pub fn begin_step(&mut self)
        requires
            old(self).wf(),
            old(self).spec_wants_step(),
        ensures
            final(self).wf(),
            old(self).stepped(*final(self)),
    {
        self.steps = self.steps + 1;
        self.responded = false;
    }

    /// Whether further requests of the current step may still be matched:
    /// one response at most is injected per step, and none after a failed
    /// assertion.
    pub fn step_open(&self) -> (b: bool)
        ensures
            b == (!self.responded() && !self.stopped()),
    {
        !self.responded && !self.stopped
    }

    /// Takes the rules pending for the method of one outbound request.
    pub fn match_request(&mut self, method: &String) -> (r: Matched<A, R>)
        requires
            old(self).wf(),
            !old(self).responded(),
            !old(self).stopped(),
        ensures
            final(self).wf(),
            old(self).matched(method@, r, *final(self)),
    {
        let check = self.expectations.take(method);
        let respond = self.responders.take(method);
        self.responded = respond.is_some();
        Matched { check, respond }
    }

    /// Records the verdict of the assertion rule taken for a request to
    /// `method`. A failure stops stepping and is the result of the execution;
    /// a pass changes nothing.
    pub fn record_check(&mut self, method: String, verdict: Result<(), String>) -> (r: Option<
        MockError,
    >)
        requires
            old(self).wf(),
        ensures
            final(self).wf(),
            final(self).expectations() == old(self).expectations(),
            final(self).responders() == old(self).responders(),
            final(self).steps() == old(self).steps(),
            final(self).max_steps() == old(self).max_steps(),
            final(self).responded() == old(self).responded(),
            verdict is Ok ==> r is None && final(self).stopped() == old(self).stopped(),
            verdict matches Err(detail) ==> r == Some(MockError::AssertionFailed { method, detail })
                && final(self).stopped() && !final(self).spec_wants_step(),
    {
        match verdict {
            Ok(()) => None,
            Err(detail) => {
                self.stopped = true;
                Some(MockError::AssertionFailed { method, detail })
            },
        }
    }

    /// The methods of the rules left unmatched, assertion rules first.
    pub fn unmatched_methods(&self) -> (r: Vec<String>)
        ensures
            names(r) == self.unmatched(),
    {
        let mut out = self.expectations.method_names();
        let mut more = self.responders.method_names();
        let ghost a = out@;
        let ghost b = more@;
        out.append(&mut more);
        assert(names(out) =~= a.map_values(|s: String| s@) + b.map_values(|s: String| s@));
        out
    }

    /// Resolves the call once stepping has stopped; `awaited` is what the
    /// environment's final answer gave, or the error it failed with.
    pub fn finish<T>(self, awaited: Result<DecodeAttempts<T>, String>) -> (r: Result<T, MockError>)
        requires
            self.wf(),
            !self.spec_wants_step(),
        ensures
            self.resolved(awaited, r),
    {
        match awaited {
            Err(message) => Err(MockError::Environment { message }),
            Ok(d) => {
                let left = self.unmatched_methods();
                let exhausted = self.steps == self.max_steps;
                match d.canonical {
                    Ok(inner) => {
                        if left.len() > 0 {
                            Err(MockError::Unmet { methods: left })
                        } else {
                            match inner {
                                Ok(v) => Ok(v),
                                Err(message) => Err(MockError::Rejected { message }),
                            }
                        }
                    },
                    Err(_) => match d.direct {
                        Ok(v) => {
                            if left.len() > 0 {
                                Err(MockError::Unmet { methods: left })
                            } else {
                                Ok(v)
                            }
                        },
                        Err(detail) => Err(MockError::Decode { detail, exhausted, unmatched: left }),
                    },
                }
            },
        }
    }
}

} // verus!
