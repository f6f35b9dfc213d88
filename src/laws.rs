use vstd::prelude::*;

use crate::config::MockConfig;
use crate::envelope::{injected, HttpResponse, MockHttpResult, REJECT_CODE};
use crate::error::MockError;
use crate::registry::{names_of, Registry};
use crate::scheduler::{names, DecodeAttempts, Matched, Scheduler};

verus! {

/// A method's rule matches one request only: after a request to that method
/// has taken it, a second request to the same method takes nothing and
/// leaves the registry as it was.
pub proof fn lemma_rule_taken_once<R>(
    r0: Registry<R>,
    r1: Registry<R>,
    r2: Registry<R>,
    m: Seq<char>,
    first: Option<R>,
    second: Option<R>,
)
    requires
        r0.wf(),
        r0.took(m, first, r1),
        r1.took(m, second, r2),
    ensures
        first is Some <==> r0.has_method(m),
        second is None,
        r2@ == r1@,
{
    if first is Some {
        let i = choose|i: int|
            0 <= i < r0@.len() && #[trigger] r0@[i].0 == m && first->Some_0 == r0@[i].1 && r1@
                == r0@.remove(i);
        if r1.has_method(m) {
            let k = choose|k: int| 0 <= k < r1@.len() && #[trigger] r1@[k].0 == m;
            if k < i {
                assert(r0@[k].0 == m);
            } else {
                assert(r0@[k + 1].0 == m);
            }
        }
    }
}

/// With no rule registered, stepping stops after the first step, and the
/// call resolves to its real outcome, whichever way it decodes.
pub proof fn lemma_no_rules_real_outcome<A, R, T>(
    s: Scheduler<A, R>,
    d: DecodeAttempts<T>,
    v: T,
    r: Result<T, MockError>,
)
    requires
        s.wf(),
        s.settled(),
        d.canonical == Ok::<Result<T, String>, String>(Ok(v)) || (d.canonical is Err && d.direct
            == Ok::<T, String>(v)),
        s.resolved(Ok(d), r),
    ensures
        s.steps() > 0 ==> !s.spec_wants_step(),
        r == Ok::<T, MockError>(v),
{
    assert(s.unmatched() =~= Seq::<Seq<char>>::empty());
}

/// An assertion rule that no request matched is reported: unless the
/// environment itself failed the call, execution fails and names its method
/// among the rules left unmatched.
pub proof fn lemma_unmet_expectation_reported<A, R, T>(
    s: Scheduler<A, R>,
    d: DecodeAttempts<T>,
    m: Seq<char>,
    r: Result<T, MockError>,
)
    requires
        s.wf(),
        s.expectations().has_method(m),
        s.resolved(Ok(d), r),
    ensures
        (r matches Err(MockError::Unmet { methods }) && names(methods).contains(m)) || (r matches Err(
            MockError::Decode { unmatched, .. },
        ) && names(unmatched).contains(m)),
{
    let i = choose|i: int| 0 <= i < s.expectations()@.len() && #[trigger] s.expectations()@[i].0 == m;
    assert(names_of(s.expectations()@)[i] == m);
    assert(s.unmatched()[i] == m);
}

/// The canonical result shape round-trips: when every rule has been
/// matched, `{ok: v}` resolves to `v` unchanged and `{err: x}` fails with
/// the message `x`.
pub proof fn lemma_canonical_round_trip<A, R, T>(
    s: Scheduler<A, R>,
    d: DecodeAttempts<T>,
    r: Result<T, MockError>,
)
    requires
        s.wf(),
        s.settled(),
        s.resolved(Ok(d), r),
    ensures
        d.canonical matches Ok(Ok(v)) ==> r == Ok::<T, MockError>(v),
        d.canonical matches Ok(Err(x)) ==> r == Err::<T, MockError>(
            MockError::Rejected { message: x },
        ),
{
    assert(s.unmatched() =~= Seq::<Seq<char>>::empty());
}

/// With a budget of zero no step is taken, yet the call is still resolved:
/// bytes that decode neither way give a decode error that reports the
/// exhausted budget and the rules left unmatched.
pub proof fn lemma_zero_budget_resolves<A, R, T>(
    s: Scheduler<A, R>,
    d: DecodeAttempts<T>,
    r: Result<T, MockError>,
)
    requires
        s.wf(),
        s.max_steps() == 0,
        d.canonical is Err,
        d.direct is Err,
        s.resolved(Ok(d), r),
    ensures
        !s.spec_wants_step(),
        r matches Err(MockError::Decode { exhausted, unmatched, .. }) && exhausted && names(
            unmatched,
        ) == s.unmatched(),
{
}

/// Two requests answered in turn: when the call makes a request to `a` and,
/// only once that is answered, one to `b`, with one response rule for each
/// and no assertion rule, the first step answers `a` with its rule and the
/// second answers `b` with its rule; stepping then stops with every rule
/// matched, within any budget of two steps or more.
pub proof fn lemma_two_sequential_requests<A, R>(
    s0: Scheduler<A, R>,
    s1: Scheduler<A, R>,
    s2: Scheduler<A, R>,
    s3: Scheduler<A, R>,
    s4: Scheduler<A, R>,
    a: Seq<char>,
    b: Seq<char>,
    x: R,
    y: R,
    first: Matched<A, R>,
    second: Matched<A, R>,
)
    requires
        s0.wf(),
        s0.steps() == 0,
        !s0.stopped(),
        s0.max_steps() >= 2,
        s0.expectations()@.len() == 0,
        s0.responders()@ == seq![(a, x), (b, y)],
        a != b,
        s0.stepped(s1),
        s1.matched(a, first, s2),
        s2.stepped(s3),
        s3.matched(b, second, s4),
    ensures
        s0.spec_wants_step(),
        first.check is None,
        first.respond == Some(x),
        s2.spec_wants_step(),
        second.check is None,
        second.respond == Some(y),
        s4.settled(),
        !s4.spec_wants_step(),
{
    assert(s1.responders()@[0].0 == a);
    let i = choose|i: int|
        0 <= i < s1.responders()@.len() && #[trigger] s1.responders()@[i].0 == a
            && first.respond->Some_0 == s1.responders()@[i].1 && s2.responders()@
            == s1.responders()@.remove(i);
    assert(i == 0);
    assert(s2.responders()@ =~= seq![(b, y)]);
    assert(s3.responders()@[0].0 == b);
}

/// A failure rule for a method with no pending rule is appended as a
/// rejection with the standard code and its message, and whatever response
/// it is carried as rejects with exactly that message.
pub proof fn lemma_failure_rule_registered<A>(
    c0: MockConfig<A, MockHttpResult>,
    c1: MockConfig<A, MockHttpResult>,
    method: String,
    message: String,
    r: HttpResponse,
)
    requires
        c0.wf(),
        !c0.responders().has_method(method@),
        c0.response_added(method, MockHttpResult::Reject { code: REJECT_CODE, message }, c1),
        injected(c1.responders()@.last().1, r),
    ensures
        c1.responders()@ == c0.responders()@.push(
            (method@, MockHttpResult::Reject { code: REJECT_CODE, message }),
        ),
        c1.expectations() == c0.expectations(),
        c1.has_call() == c0.has_call(),
        c1.max_steps() == c0.max_steps(),
        c1.error() == c0.error(),
        r matches HttpResponse::Reject { reject_code, message: m } && m == message && reject_code
            == 1,
{
}

} // verus!
