//! Basic-mode call chaining: every type gains `chain` and `chain_mut`, which
//! invoke a caller-supplied function on a borrow of the subject and return the
//! same borrow so that further calls can be chained. The function's return
//! value is discarded in this mode.

use vstd::prelude::*;

verus! {

/// Enables immutable call chaining on all types.
///
/// `chain` runs the supplied function once on a shared borrow of the subject
/// and hands the same subject back, so calls can be strung together fluently.
pub trait CallChain {
    /// Invokes `f` once with a shared borrow of `self`, then returns that
    /// same borrow. The subject is unchanged (a shared borrow cannot mutate
    /// it), and some result permitted by `f`'s postcondition was produced,
    /// which shows that `f` actually ran on the subject.
    fn chain<R, F: FnOnce(&Self) -> R>(&self, f: F) -> (r: &Self)
        requires
            call_requires(f, (self,)),
        ensures
            r == self,
            exists|res: R| call_ensures(f, (self,), res),
    ;
}

/// Enables mutable call chaining on all types.
///
/// `chain_mut` runs the supplied function once on an exclusive borrow of the
/// subject and hands the same borrow back, so mutating calls can be strung
/// together fluently.
pub trait CallChainMut: Sized {
    /// Invokes `f` once with an exclusive borrow of `self`, then returns that
    /// same borrow. The state handed to the caller through `r` is exactly a
    /// state that one invocation of `f` produces from the prior state, and
    /// whatever the caller later does through `r` is what `self` ends up as.
    fn chain_mut<R, F: FnOnce(&mut Self) -> R>(&mut self, f: F) -> (r: &mut Self)
        requires
            forall|p: &mut Self|
                mut_ref_current(p) == *self ==> #[trigger] call_requires(f, (p,)),
        ensures
            *final(self) == *final(r),
            exists|p: &mut Self, res: R|
                #[trigger] call_ensures(f, (p,), res)
                    && mut_ref_current(p) == *old(self)
                    && mut_ref_future(p) == *r,
    ;
}

impl<T> CallChain for T {
    fn chain<R, F: FnOnce(&T) -> R>(&self, f: F) -> (r: &T) {
        let res = f(self);
        self
    }
}

impl<T> CallChainMut for T {
    fn chain_mut<R, F: FnOnce(&mut T) -> R>(&mut self, f: F) -> (r: &mut T) {
        let res = f(self);
        self
    }
}

/// Law: every step of an immutable chain observes the same subject state,
/// the one from before the chain began, and the chain hands the subject back
/// unchanged. Each step's precondition and result are judged against that
/// one state.
pub fn chain_observes_one_subject<
    S,
    R1,
    R2,
    R3,
    F1: FnOnce(&S) -> R1,
    F2: FnOnce(&S) -> R2,
    F3: FnOnce(&S) -> R3,
>(s: &S, f1: F1, f2: F2, f3: F3) -> (r: &S)
    requires
        call_requires(f1, (s,)),
        call_requires(f2, (s,)),
        call_requires(f3, (s,)),
    ensures
        r == s,
        exists|res: R1| call_ensures(f1, (s,), res),
        exists|res: R2| call_ensures(f2, (s,), res),
        exists|res: R3| call_ensures(f3, (s,), res),
{
    s.chain(f1).chain(f2).chain(f3)
}

/// Law: chaining three mutable steps applies them strictly in order, with no
/// step skipped or reordered: the subject's final state is one reached by
/// applying `f1`, then `f2`, then `f3`, each step starting from the state its
/// predecessor produced.
pub fn chain_mut_applies_in_order<
    S,
    R1,
    R2,
    R3,
    F1: FnOnce(&mut S) -> R1,
    F2: FnOnce(&mut S) -> R2,
    F3: FnOnce(&mut S) -> R3,
>(s: &mut S, f1: F1, f2: F2, f3: F3)
    requires
        forall|p: &mut S| mut_ref_current(p) == *s ==> #[trigger] call_requires(f1, (p,)),
        forall|p1: &mut S, r1: R1, q: &mut S|
            #[trigger] call_ensures(f1, (p1,), r1) && mut_ref_current(p1) == *s
                && mut_ref_current(q) == mut_ref_future(p1)
                ==> #[trigger] call_requires(f2, (q,)),
        forall|p1: &mut S, r1: R1, p2: &mut S, r2: R2, q: &mut S|
            #[trigger] call_ensures(f1, (p1,), r1) && mut_ref_current(p1) == *s
                && #[trigger] call_ensures(f2, (p2,), r2)
                && mut_ref_current(p2) == mut_ref_future(p1)
                && mut_ref_current(q) == mut_ref_future(p2)
                ==> #[trigger] call_requires(f3, (q,)),
    ensures
        exists|p1: &mut S, r1: R1, p2: &mut S, r2: R2, p3: &mut S, r3: R3|
            #[trigger] call_ensures(f1, (p1,), r1) && mut_ref_current(p1) == *old(s)
                && #[trigger] call_ensures(f2, (p2,), r2)
                && mut_ref_current(p2) == mut_ref_future(p1)
                && #[trigger] call_ensures(f3, (p3,), r3)
                && mut_ref_current(p3) == mut_ref_future(p2)
                && mut_ref_future(p3) == *final(s),
{
    s.chain_mut(f1).chain_mut(f2).chain_mut(f3);
}

} // verus!
