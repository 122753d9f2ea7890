//! Extended-mode call chaining: every type gains `chain` and `chain_mut`,
//! which invoke a caller-supplied function on a borrow of the subject and
//! return a wrapper holding both the borrow and the function's result. The
//! wrapper offers the result (by reference, by mutable reference, and by
//! value), offers the subject borrow, and supports further chaining on the
//! same subject, replacing the held result each time.

use vstd::prelude::*;

verus! {

/// A result from a call chain. Holds a shared borrow of the subject together
/// with the return value of the chained function; it can be used to chain
/// further, immutably, on the same subject.
pub struct CallChainResult<'a, S, R> {
    /// The borrowed subject that produced this result.
    pub this: &'a S,
    /// The result of the chained function.
    pub result: R,
}

/// A result from a call chain. Holds an exclusive borrow of the subject
/// together with the return value of the chained function; it can be used to
/// chain further, mutably or immutably, on the same subject.
pub struct CallChainResultMut<'a, S, R> {
    /// The borrowed subject that produced this result.
    pub this: &'a mut S,
    /// The result of the chained function.
    pub result: R,
}

/// Enables immutable call chaining on all types.
///
/// `chain` runs the supplied function once on a shared borrow of the subject
/// and returns a wrapper carrying that borrow and the function's result.
pub trait CallChain: Sized {
    /// Invokes `f` once with a shared borrow of `self` and returns a wrapper
    /// holding the same subject and the result that `f` produced.
    fn chain<R, F: FnOnce(&Self) -> R>(&self, f: F) -> (w: CallChainResult<'_, Self, R>)
        requires
            call_requires(f, (self,)),
        ensures
            w.subject() == *self,
            call_ensures(f, (self,), w.result),
    ;
}

/// Enables mutable call chaining on all types.
///
/// `chain_mut` runs the supplied function once on an exclusive borrow of the
/// subject and returns a wrapper carrying that borrow and the function's
/// result.
pub trait CallChainMut: Sized {
    /// Invokes `f` once with an exclusive borrow of `self` and returns a
    /// wrapper holding the same subject and the result that `f` produced.
    /// The wrapper's subject value is exactly a state that one invocation of
    /// `f` produces from the prior state, and whatever later reaches the
    /// subject through the wrapper is what `self` ends up as.
    fn chain_mut<R, F: FnOnce(&mut Self) -> R>(&mut self, f: F) -> (w: CallChainResultMut<
        '_,
        Self,
        R,
    >)
        requires
            forall|p: &mut Self|
                mut_ref_current(p) == *self ==> #[trigger] call_requires(f, (p,)),
        ensures
            *final(self) == mut_ref_future(w.this),
            exists|p: &mut Self|
                #[trigger] call_ensures(f, (p,), w.result)
                    && mut_ref_current(p) == *old(self)
                    && mut_ref_future(p) == w.subject(),
    ;
}

impl<T> CallChain for T {
    fn chain<R, F: FnOnce(&T) -> R>(&self, f: F) -> (w: CallChainResult<'_, T, R>) {
        let result = f(self);
        CallChainResult { this: self, result }
    }
}

impl<T> CallChainMut for T {
    fn chain_mut<R, F: FnOnce(&mut T) -> R>(&mut self, f: F) -> (w: CallChainResultMut<
        '_,
        T,
        R,
    >) {
        let result = f(self);
        let ghost snap = *self;
        let w = CallChainResultMut { this: self, result };
        proof {
            let p0 = choose|p: &mut T|
                #[trigger] call_ensures(f, (p,), result)
                    && mut_ref_current(p) == *old(self)
                    && mut_ref_future(p) == snap;
            assert(call_ensures(f, (p0,), w.result)
                && mut_ref_current(p0) == *old(self)
                && mut_ref_future(p0) == w.subject());
        }
        w
    }
}

impl<'a, S, R> CallChainResult<'a, S, R> {
    /// The value of the subject that this wrapper borrows.
    pub open spec fn subject(self) -> S {
        *self.this
    }

    /// Returns the result of the chained function.
    pub fn into_result(self) -> (r: R)
        ensures
            r == self.result,
    {
        self.result
    }

    /// Borrows the subject.
    pub fn as_ref(&self) -> (r: &S)
        ensures
            *r == self.subject(),
    {
        self.this
    }

    /// Borrows the result of the chained function.
    pub fn result_ref(&self) -> (r: &R)
        ensures
            r == self.result,
    {
        &self.result
    }

    /// Mutably borrows the result of the chained function. The subject is
    /// untouched; the held result becomes whatever the caller writes.
    pub fn result_mut(&mut self) -> (r: &mut R)
        ensures
            *r == old(self).result,
            final(self).result == *final(r),
            final(self).subject() == old(self).subject(),
    {
        &mut self.result
    }

    /// Invokes `f` once with the subject borrow held by this wrapper and
    /// returns a new wrapper with the same subject and the new result.
    pub fn chain<R2, F: FnOnce(&S) -> R2>(&self, f: F) -> (w: CallChainResult<'a, S, R2>)
        requires
            forall|q: &S| *q == self.subject() ==> #[trigger] call_requires(f, (q,)),
        ensures
            w.subject() == self.subject(),
            exists|q: &S| *q == self.subject() && #[trigger] call_ensures(f, (q,), w.result),
    {
        let q = self.this;
        let result = f(q);
        let w = CallChainResult { this: q, result };
        proof {
            assert(*q == self.subject() && call_ensures(f, (q,), w.result));
        }
        w
    }
}

impl<'a, S, R> CallChainResultMut<'a, S, R> {
    /// The current value of the subject that this wrapper borrows.
    pub open spec fn subject(self) -> S {
        mut_ref_current(self.this)
    }

    /// Returns the result of the chained function. Consuming the wrapper ends
    /// its borrow, so the subject keeps its current value.
    pub fn into_result(self) -> (r: R)
        ensures
            r == self.result,
            mut_ref_future(self.this) == self.subject(),
    {
        self.result
    }

    /// Borrows the subject.
    pub fn as_ref(&self) -> (r: &S)
        ensures
            *r == self.subject(),
    {
        &*self.this
    }

    /// Mutably borrows the subject. Whatever the caller writes through the
    /// returned borrow is what the subject holds afterwards; the held result
    /// is untouched.
    pub fn as_mut(&mut self) -> (r: &mut S)
        ensures
            *r == old(self).subject(),
            final(self).subject() == mut_ref_future(r),
            mut_ref_future(final(self).this) == mut_ref_future(old(self).this),
            final(self).result == old(self).result,
    {
        &mut *self.this
    }

    /// Borrows the result of the chained function.
    pub fn result_ref(&self) -> (r: &R)
        ensures
            r == self.result,
    {
        &self.result
    }

    /// Mutably borrows the result of the chained function. The subject is
    /// untouched; the held result becomes whatever the caller writes.
    pub fn result_mut(&mut self) -> (r: &mut R)
        ensures
            *r == old(self).result,
            final(self).result == *final(r),
            final(self).subject() == old(self).subject(),
            mut_ref_future(final(self).this) == mut_ref_future(old(self).this),
    {
        &mut self.result
    }

    /// Invokes `f` once with a shared borrow of the subject held by this
    /// wrapper and returns an immutable wrapper with the same subject value
    /// and the new result.
    pub fn chain<R2, F: FnOnce(&S) -> R2>(&self, f: F) -> (w: CallChainResult<'_, S, R2>)
        requires
            forall|q: &S| *q == self.subject() ==> #[trigger] call_requires(f, (q,)),
        ensures
            w.subject() == self.subject(),
            exists|q: &S| *q == self.subject() && #[trigger] call_ensures(f, (q,), w.result),
    {
        let q = &*self.this;
        let result = f(q);
        let w = CallChainResult { this: q, result };
        proof {
            assert(*q == self.subject() && call_ensures(f, (q,), w.result));
        }
        w
    }

    /// Invokes `f` once with the exclusive subject borrow held by this
    /// wrapper and returns a new wrapper with the same subject and the new
    /// result. The new wrapper's subject value is exactly a state that one
    /// invocation of `f` produces from the prior state, and whatever later
    /// reaches the subject through the new wrapper is what this wrapper sees
    /// afterwards; the original subject's final state is still tied to this
    /// chain.
    pub fn chain_mut<R2, F: FnOnce(&mut S) -> R2>(&mut self, f: F) -> (w: CallChainResultMut<
        '_,
        S,
        R2,
    >)
        requires
            forall|p: &mut S|
                mut_ref_current(p) == self.subject() ==> #[trigger] call_requires(f, (p,)),
        ensures
            final(self).subject() == mut_ref_future(w.this),
            mut_ref_future(final(self).this) == mut_ref_future(old(self).this),
            final(self).result == old(self).result,
            exists|p: &mut S|
                #[trigger] call_ensures(f, (p,), w.result)
                    && mut_ref_current(p) == old(self).subject()
                    && mut_ref_future(p) == w.subject(),
    {
        let result = f(&mut *self.this);
        let ghost snap = *self.this;
        let p2 = &mut *self.this;
        let w = CallChainResultMut { this: p2, result };
        proof {
            let p0 = choose|p: &mut S|
                #[trigger] call_ensures(f, (p,), result)
                    && mut_ref_current(p) == old(self).subject()
                    && mut_ref_future(p) == snap;
            assert(call_ensures(f, (p0,), w.result)
                && mut_ref_current(p0) == old(self).subject()
                && mut_ref_future(p0) == w.subject());
        }
        w
    }
}

/// Law: after a three-step immutable chain, the wrapper holds exactly the
/// third step's result and still reaches the original subject, unchanged from
/// before the first step; each step observed that same subject state.
pub fn chain_retains_last_result_and_subject<
    S,
    R1,
    R2,
    R3,
    F1: FnOnce(&S) -> R1,
    F2: FnOnce(&S) -> R2,
    F3: FnOnce(&S) -> R3,
>(s: &S, f1: F1, f2: F2, f3: F3) -> (w: CallChainResult<'_, S, R3>)
    requires
        call_requires(f1, (s,)),
        call_requires(f2, (s,)),
        call_requires(f3, (s,)),
    ensures
        w.subject() == *s,
        call_ensures(f3, (s,), w.result),
        exists|res: R1| call_ensures(f1, (s,), res),
        exists|res: R2| call_ensures(f2, (s,), res),
{
    s.chain(f1).chain(f2).chain(f3)
}

/// Law: a three-step mutable chain applies the steps strictly in order, and
/// retrieving the held result afterwards yields exactly the third step's
/// result; the subject ends in the state the third step produced.
pub fn chain_mut_retains_last_result<
    S,
    R1,
    R2,
    R3,
    F1: FnOnce(&mut S) -> R1,
    F2: FnOnce(&mut S) -> R2,
    F3: FnOnce(&mut S) -> R3,
>(s: &mut S, f1: F1, f2: F2, f3: F3) -> (r: R3)
    requires
        forall|p: &mut S| mut_ref_current(p) == *s ==> #[trigger] call_requires(f1, (p,)),
        forall|p1: &mut S, r1: R1, q: &mut S|
            #[trigger] call_ensures(f1, (p1,), r1) && mut_ref_current(p1) == *s
                && mut_ref_current(q) == mut_ref_future(p1)
                ==> #[trigger] call_requires(f2, (q,)),
        forall|p1: &mut S, r1: R1, p2: &mut S, r2: R2, q: &mut S|
            #[trigger] call_ensures(f1, (p1,), r1) && mut_ref_current(p1) == *s
                && #[trigger] call_ensures(f2, (p2,), r2)
                && mut_ref_current(p2) == mut_ref_future(p1)
                && mut_ref_current(q) == mut_ref_future(p2)
                ==> #[trigger] call_requires(f3, (q,)),
    ensures
        exists|p1: &mut S, r1: R1, p2: &mut S, r2: R2, p3: &mut S|
            #[trigger] call_ensures(f1, (p1,), r1) && mut_ref_current(p1) == *old(s)
                && #[trigger] call_ensures(f2, (p2,), r2)
                && mut_ref_current(p2) == mut_ref_future(p1)
                && #[trigger] call_ensures(f3, (p3,), r)
                && mut_ref_current(p3) == mut_ref_future(p2)
                && mut_ref_future(p3) == *final(s),
{
    let mut w1 = s.chain_mut(f1);
    let mut w2 = w1.chain_mut(f2);
    let w3 = w2.chain_mut(f3);
    w3.into_result()
}

} // verus!
