//! Deferred effects and their sequencing.
//!
//! An effect is a zero-argument computation that performs its work and
//! produces a value only when explicitly invoked.  Composing effects is pure
//! bookkeeping: `bind` chains an effect to a continuation that builds the
//! next effect from the first one's result, and nothing runs until the
//! composite is invoked.

use vstd::prelude::*;

pub mod laws;

verus! {

/// A deferred computation: invoking it consumes it and produces one value.
///
/// `invoke_requires` says when the computation may be invoked, and
/// `invoke_ensures` relates the computation to the values it may produce;
/// both are given meaning by each implementing type.
pub trait EffectMonad: Sized {
    /// The type of the value the computation produces when invoked.
    type Output;

    /// When this effect may be invoked.
    spec fn invoke_requires(self) -> bool;

    /// Which values this effect may produce when invoked.
    spec fn invoke_ensures(self, out: Self::Output) -> bool;

    /// Run the deferred computation, consuming it, and return its value.
    fn invoke(self) -> (out: Self::Output)
        requires
            self.invoke_requires(),
        ensures
            self.invoke_ensures(out),
    ;

    /// Sequentially compose two effects, passing the output of the first to
    /// the continuation that builds the second.
    ///
    /// Composition itself has no side effect: the result stores this effect
    /// and the continuation unchanged, and neither runs until the composite
    /// is invoked.
    fn bind<X, Eb, F>(self, f: F) -> (r: BoundEffect<Self, FnContinuation<F>>) where
        F: FnOnce(X) -> Eb,

        ensures
            r.ea == self,
            r.f.f == f,
    {
        bind_effects(self, f)
    }

    /// Sequentially compose two effects for their ordering alone, discarding
    /// the first effect's result; the composite produces the second effect's
    /// result.
    ///
    /// Shorthand for binding with a continuation that ignores its input and
    /// resolves to `eb`.  As with `bind`, nothing runs until invocation.
    fn bind_ignore_contents<Eb>(self, eb: Eb) -> (r: BoundEffect<Self, ResolveFn<Eb>>)
        ensures
            r.ea == self,
            r.f.constant() == eb,
    {
        BoundEffect { ea: self, f: ResolveFn::Const(eb) }
    }
}

/// An effect made from a zero-argument closure.  Invoking it calls the
/// closure once.
///
/// The `A` parameter names the value the closure produces; it only marks the
/// type and stores nothing.
pub struct Effect<A, F> {
    /// The deferred computation itself.
    pub f: F,
    /// Marks the produced type.
    pub produces: core::marker::PhantomData<A>,
}

impl<A, F: FnOnce() -> A> Effect<A, F> {
    /// Wrap a zero-argument closure as an effect.  Nothing runs here: the
    /// closure is stored unchanged until `invoke` is called.
    pub fn new(f: F) -> (e: Effect<A, F>)
        ensures
            e.f == f,
    {
        Effect { f, produces: core::marker::PhantomData }
    }
}

impl<A, F: FnOnce() -> A> EffectMonad for Effect<A, F> {
    type Output = A;

    open spec fn invoke_requires(self) -> bool {
        call_requires(self.f, ())
    }

    open spec fn invoke_ensures(self, out: A) -> bool {
        call_ensures(self.f, (), out)
    }

    fn invoke(self) -> (out: A) {
        (self.f)()
    }
}

/// A continuation: consumes the result of a first effect and builds the
/// effect to run next.
pub trait Continuation<A>: Sized {
    /// The type of the effect this continuation builds.
    type Next: EffectMonad;

    /// When this continuation may be applied to `a`.
    spec fn resolve_requires(self, a: A) -> bool;

    /// Which next effects this continuation may build from `a`.
    spec fn resolve_ensures(self, a: A, next: Self::Next) -> bool;

    /// Apply the continuation to the first effect's result, consuming the
    /// continuation, and return the effect to run next.
    fn resolve(self, a: A) -> (next: Self::Next)
        requires
            self.resolve_requires(a),
        ensures
            self.resolve_ensures(a, next),
    ;
}

/// A continuation made from a closure that consumes the first result and
/// returns the next effect.
pub struct FnContinuation<F> {
    /// The underlying closure.
    pub f: F,
}

impl<A, Eb: EffectMonad, F: FnOnce(A) -> Eb> Continuation<A> for FnContinuation<F> {
    type Next = Eb;

    open spec fn resolve_requires(self, a: A) -> bool {
        call_requires(self.f, (a,))
    }

    open spec fn resolve_ensures(self, a: A, next: Eb) -> bool {
        call_ensures(self.f, (a,), next)
    }

    fn resolve(self, a: A) -> (next: Eb) {
        (self.f)(a)
    }
}

/// A continuation that ignores its input and resolves to a pre-supplied
/// effect.
///
/// A closure could play this role; the dedicated type keeps the composite
/// returned by `bind_ignore_contents` free of closure indirection.
pub enum ResolveFn<T> {
    /// Always resolve to the wrapped effect.
    Const(T),
}

impl<T> ResolveFn<T> {
    /// The effect this continuation resolves to, whatever input it is given.
    pub open spec fn constant(self) -> T {
        match self {
            ResolveFn::Const(v) => v,
        }
    }
}

impl<A, T: EffectMonad> Continuation<A> for ResolveFn<T> {
    type Next = T;

    open spec fn resolve_requires(self, a: A) -> bool {
        true
    }

    open spec fn resolve_ensures(self, a: A, next: T) -> bool {
        next == self.constant()
    }

    fn resolve(self, a: A) -> (next: T) {
        match self {
            ResolveFn::Const(v) => v,
        }
    }
}

impl<T> From<T> for ResolveFn<T> {
    fn from(v: T) -> (r: Self) {
        ResolveFn::Const(v)
    }
}

impl<T> vstd::std_specs::convert::FromSpecImpl<T> for ResolveFn<T> {
    open spec fn obeys_from_spec() -> bool {
        true
    }

    open spec fn from_spec(v: T) -> Self {
        ResolveFn::Const(v)
    }
}

/// Two effects in sequence: a first effect and a continuation that builds
/// the second from the first one's result.
///
/// Construction stores both ingredients unchanged; neither runs until the
/// composite is invoked.
pub struct BoundEffect<Ea, F> {
    /// The effect that runs first.
    pub ea: Ea,
    /// The continuation applied to the first effect's result.
    pub f: F,
}

impl<Ea: EffectMonad, K: Continuation<Ea::Output>> EffectMonad for BoundEffect<Ea, K> {
    type Output = <K::Next as EffectMonad>::Output;

    open spec fn invoke_requires(self) -> bool {
        &&& self.ea.invoke_requires()
        &&& forall|a: Ea::Output|
            self.ea.invoke_ensures(a) ==> #[trigger] self.f.resolve_requires(a)
        &&& forall|a: Ea::Output, mid: K::Next|
            self.ea.invoke_ensures(a) && #[trigger] self.f.resolve_ensures(a, mid)
                ==> mid.invoke_requires()
    }

    open spec fn invoke_ensures(self, out: Self::Output) -> bool {
        exists|a: Ea::Output, mid: K::Next|
            self.ea.invoke_ensures(a) && #[trigger] self.f.resolve_ensures(a, mid)
                && mid.invoke_ensures(out)
    }

    /// Invoke the first effect, hand its result to the continuation, and
    /// invoke the effect the continuation built, strictly in that order.
    fn invoke(self) -> (out: Self::Output) {
        let BoundEffect { ea, f } = self;
        let a = ea.invoke();
        let mid = f.resolve(a);
        let out = mid.invoke();
        proof {
            assert(self.ea.invoke_ensures(a) && self.f.resolve_ensures(a, mid)
                && mid.invoke_ensures(out));
        }
        out
    }
}

/// Run any effect, consuming it, and return its value.
///
/// Equivalent to calling `invoke`; the produced type stands as an explicit
/// parameter, which lets callers at concrete effect types apply the
/// contract directly.
pub fn invoke_effect<B, E: EffectMonad<Output = B>>(e: E) -> (out: B)
    requires
        e.invoke_requires(),
    ensures
        e.invoke_ensures(out),
{
    e.invoke()
}

/// Sequence an effect with a continuation closure.  Pure bookkeeping: the
/// result holds both ingredients unchanged, and nothing is invoked.
pub fn bind_effects<A, Eb, Ea, F>(first: Ea, f: F) -> (r: BoundEffect<Ea, FnContinuation<F>>) where
    F: FnOnce(A) -> Eb,

    ensures
        r.ea == first,
        r.f.f == f,
{
    BoundEffect { ea: first, f: FnContinuation { f } }
}

} // verus!
