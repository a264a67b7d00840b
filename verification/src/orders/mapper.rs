use std::marker::PhantomData;
use vstd::prelude::*;

verus! {

/// A mapping from the messages of one scope to those of a scope nearer
/// the root: a function, so that one message always gives the same answer.
///
/// A component implements it for the wrapper that its parent puts around
/// its messages; `Composed` chains such wrappers up to the root.
pub trait Mapper<Ms, AppMs> {
    /// Whether the mapper is a function on every message.
    spec fn wf(&self) -> bool;

    /// The message of the outer scope that stands for `m`.
    spec fn image(&self, m: Ms) -> AppMs;

    fn apply(&self, m: Ms) -> (outer: AppMs)
        requires
            self.wf(),
        ensures
            outer == self.image(m),
    ;

    /// A second mapper that does what this one does.
    fn duplicate(&self) -> (copy: Self) where Self: Sized
        ensures
            copy == *self,
    ;
}

/// The mapper of the root scope: every message stands for itself.
pub struct Identity<Ms> {
    pub scope: PhantomData<Ms>,
}

impl<Ms> Mapper<Ms, Ms> for Identity<Ms> {
    open spec fn wf(&self) -> bool {
        true
    }

    open spec fn image(&self, m: Ms) -> Ms {
        m
    }

    fn apply(&self, m: Ms) -> (outer: Ms) {
        m
    }

    fn duplicate(&self) -> (copy: Self) {
        Identity { scope: PhantomData }
    }
}

/// A child's mapper in front of the mapper of its parent.
pub struct Composed<C, Ms, M, G> {
    pub inner: M,
    pub outer: G,
    pub scope: PhantomData<(C, Ms)>,
}

impl<C, Ms, AppMs, M: Mapper<C, Ms>, G: Mapper<Ms, AppMs>> Mapper<C, AppMs> for Composed<
    C,
    Ms,
    M,
    G,
> {
    open spec fn wf(&self) -> bool {
        self.inner.wf() && self.outer.wf()
    }

    open spec fn image(&self, m: C) -> AppMs {
        self.outer.image(self.inner.image(m))
    }

    fn apply(&self, m: C) -> (outer: AppMs) {
        let parent_message = self.inner.apply(m);
        self.outer.apply(parent_message)
    }

    fn duplicate(&self) -> (copy: Self) {
        Composed {
            inner: self.inner.duplicate(),
            outer: self.outer.duplicate(),
            scope: PhantomData,
        }
    }
}

/// Mappers compose by steps, however they are nested: a message that goes
/// through `inner`, then `middle`, then `outer` has one image.
pub proof fn composition_by_steps<A, B, C, D, I: Mapper<A, B>, M: Mapper<B, C>, O: Mapper<C, D>>(
    inner: I,
    middle: M,
    outer: O,
    m: A,
)
    ensures
        (Composed::<A, B, I, Composed<B, C, M, O>> {
            inner,
            outer: (Composed::<B, C, M, O> { inner: middle, outer, scope: PhantomData }),
            scope: PhantomData,
        }).image(m) == outer.image(middle.image(inner.image(m))),
        (Composed::<A, C, Composed<A, B, I, M>, O> {
            inner: (Composed::<A, B, I, M> { inner, outer: middle, scope: PhantomData }),
            outer,
            scope: PhantomData,
        }).image(m) == outer.image(middle.image(inner.image(m))),
{
}

/// Whether `f` is a function: it accepts every message and gives one answer.
pub open spec fn is_mapper<C, P, F: Fn(C) -> P>(f: F) -> bool {
    &&& forall|c: C| call_requires(f, (c,))
    &&& forall|c: C, p1: P, p2: P|
        call_ensures(f, (c,), p1) && call_ensures(f, (c,), p2) ==> p1 == p2
}

/// The answer that `f` gives for `c`.
pub open spec fn answer_of<C, P, F: Fn(C) -> P>(f: F, c: C) -> P {
    choose|p: P| call_ensures(f, (c,), p)
}

/// A closure or a constructor taken as a mapper.
pub struct FnMapper<F> {
    pub f: F,
}

impl<F> FnMapper<F> {
    pub fn new(f: F) -> (mapper: Self)
        ensures
            mapper.f == f,
    {
        FnMapper { f }
    }
}

impl<C, P, F: Fn(C) -> P + Copy> Mapper<C, P> for FnMapper<F> {
    open spec fn wf(&self) -> bool {
        is_mapper(self.f)
    }

    open spec fn image(&self, m: C) -> P {
        answer_of(self.f, m)
    }

    fn apply(&self, m: C) -> (outer: P) {
        (self.f)(m)
    }

    fn duplicate(&self) -> (copy: Self) {
        FnMapper { f: self.f }
    }
}

} // verus!
