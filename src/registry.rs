use vstd::prelude::*;

use crate::error::MockError;

verus! {

/// Rules keyed by method name, in the order they were registered, with at
/// most one pending rule per method. A rule leaves the registry the first
/// time a request to its method is matched.
pub struct Registry<R> {
    entries: Vec<(String, R)>,
}

impl<R> View for Registry<R> {
    type V = Seq<(Seq<char>, R)>;

    closed spec fn view(&self) -> Seq<(Seq<char>, R)> {
        self.entries@.map_values(|e: (String, R)| (e.0@, e.1))
    }
}

/// The method names of a sequence of entries, in order.
pub open spec fn names_of<R>(s: Seq<(Seq<char>, R)>) -> Seq<Seq<char>> {
    s.map_values(|e: (Seq<char>, R)| e.0)
}

impl<R> Registry<R> {
    /// No method name occurs twice.
    pub open spec fn wf(&self) -> bool {
        forall|i: int, j: int|
            0 <= i < j < self@.len() ==> #[trigger] self@[i].0 != #[trigger] self@[j].0
    }

    pub open spec fn has_method(&self, m: Seq<char>) -> bool {
        exists|i: int| 0 <= i < self@.len() && #[trigger] self@[i].0 == m
    }

    /// The methods whose rules are still pending, in registration order.
    pub open spec fn pending(&self) -> Seq<Seq<char>> {
        names_of(self@)
    }

    /// `after` is `self` once the rule for `m` has been taken, `r` what was taken.
    pub open spec fn took(&self, m: Seq<char>, r: Option<R>, after: Self) -> bool {
        match r {
            Some(rule) => exists|i: int|
                0 <= i < self@.len() && #[trigger] self@[i].0 == m && rule == self@[i].1
                    && after@ == self@.remove(i),
            None => !self.has_method(m) && after@ == self@,
        }
    }

    pub fn new() -> (r: Self)
        ensures
            r@ == Seq::<(Seq<char>, R)>::empty(),
            r.wf(),
    {
        let r = Registry { entries: Vec::new() };
        assert(r@ =~= Seq::<(Seq<char>, R)>::empty());
        r
    }

    pub fn len(&self) -> (n: usize)
        ensures
            n == self@.len(),
    {
        self.entries.len()
    }

    pub fn is_empty(&self) -> (b: bool)
        ensures
            b == (self@.len() == 0),
    {
        self.entries.len() == 0
    }

    /// Whether a rule for `method` is pending.
    pub fn contains(&self, method: &String) -> (b: bool)
        ensures
            b == self.has_method(method@),
    {
        let mut i: usize = 0;
        while i < self.entries.len()
            invariant
                0 <= i <= self.entries@.len(),
                self@.len() == self.entries@.len(),
                forall|k: int| 0 <= k < i ==> self@[k].0 != method@,
            decreases self.entries.len() - i,
        {
            assert(self@[i as int].0 == self.entries@[i as int].0@);
            if self.entries[i].0 == *method {
                return true;
            }
            i = i + 1;
        }
        false
    }

    /// Registers `rule` for `method`; a method that already has a pending
    /// rule is refused and the registry is left as it was.
    pub fn insert(&mut self, method: String, rule: R) -> (r: Result<(), MockError>)
        requires
            old(self).wf(),
        ensures
            final(self).wf(),
            r is Ok <==> !old(self).has_method(method@),
            r is Ok ==> final(self)@ == old(self)@.push((method@, rule)),
            r is Err ==> final(self)@ == old(self)@ && r == Err::<(), MockError>(
                MockError::DuplicateRule { method },
            ),
    {
        if self.contains(&method) {
            return Err(MockError::DuplicateRule { method });
        }
        let ghost m = method@;
        self.entries.push((method, rule));
        assert(self@ =~= old(self)@.push((m, rule)));
        Ok(())
    }

    /// Removes and returns the rule pending for `method`, if any.
    pub fn take(&mut self, method: &String) -> (r: Option<R>)
        requires
            old(self).wf(),
        ensures
            final(self).wf(),
            r is Some <==> old(self).has_method(method@),
            old(self).took(method@, r, *final(self)),
            !final(self).has_method(method@),
    {
        let mut i: usize = 0;
        while i < self.entries.len()
            invariant
                0 <= i <= self.entries@.len(),
                self == old(self),
                self.wf(),
                self@.len() == self.entries@.len(),
                forall|k: int| 0 <= k < i ==> self@[k].0 != method@,
            decreases self.entries.len() - i,
        {
            assert(self@[i as int].0 == self.entries@[i as int].0@);
            if self.entries[i].0 == *method {
                let ghost before = self@;
                let e = self.entries.remove(i);
                assert(self@ =~= before.remove(i as int));
                assert forall|a: int, b: int| 0 <= a < b < self@.len() implies self@[a].0
                    != self@[b].0 by {
                    if a >= i {
                        assert(before[a + 1].0 != before[b + 1].0);
                    } else if b >= i {
                        assert(before[a].0 != before[b + 1].0);
                    } else {
                        assert(before[a].0 != before[b].0);
                    }
                }
                assert forall|k: int| 0 <= k < self@.len() implies self@[k].0 != method@ by {
                    if k >= i {
                        assert(before[i as int].0 != before[k + 1].0);
                    } else {
                        assert(before[k].0 != before[i as int].0);
                    }
                }
                return Some(e.1);
            }
            i = i + 1;
        }
        None
    }

    /// The methods whose rules are still pending, in registration order.
    pub fn method_names(&self) -> (r: Vec<String>)
        ensures
            r@.map_values(|s: String| s@) == self.pending(),
    {
        let mut out: Vec<String> = Vec::new();
        let mut i: usize = 0;
        while i < self.entries.len()
            invariant
                0 <= i <= self.entries@.len(),
                self@.len() == self.entries@.len(),
                out@.len() == i,
                forall|k: int| 0 <= k < i ==> #[trigger] out@[k]@ == self@[k].0,
            decreases self.entries.len() - i,
        {
            assert(self@[i as int].0 == self.entries@[i as int].0@);
            out.push(self.entries[i].0.clone());
            i = i + 1;
        }
        assert(out@.map_values(|s: String| s@) =~= self.pending());
        out
    }
}

} // verus!
