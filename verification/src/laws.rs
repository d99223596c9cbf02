//! Laws of effect sequencing.
//!
//! Each law is stated over the `invoke_ensures` and `resolve_ensures`
//! relations that the contracts of `invoke` and `resolve` promise, so it
//! covers every value an invocation can produce, however nondeterministic
//! the underlying computations are.  The intermediate and produced types
//! stand as explicit parameters (`X`, `N`, `B`) so the conclusions apply
//! directly at any concrete choice of effect and continuation types.

use vstd::prelude::*;

use crate::BoundEffect;
use crate::Continuation;
use crate::Effect;
use crate::EffectMonad;
use crate::FnContinuation;
use crate::ResolveFn;

verus! {

/// What invoking a closure effect means, in terms of the closure's own
/// contract: it may be invoked when the closure may be called, and it
/// produces exactly the values the closure may return.
pub proof fn lemma_effect_invocation<A, F: FnOnce() -> A>(e: Effect<A, F>)
    ensures
        e.invoke_requires() == call_requires(e.f, ()),
        forall|out: A| e.invoke_ensures(out) == call_ensures(e.f, (), out),
{
}

/// What resolving a closure continuation means, in terms of the closure's
/// own contract.
pub proof fn lemma_fn_continuation_resolution<A, Eb: EffectMonad, F: FnOnce(A) -> Eb>(
    k: FnContinuation<F>,
)
    ensures
        forall|a: A| k.resolve_requires(a) == call_requires(k.f, (a,)),
        forall|a: A, next: Eb| k.resolve_ensures(a, next) == call_ensures(k.f, (a,), next),
{
}

/// What resolving a constant continuation means: it may always be applied,
/// and it resolves to its wrapped effect whatever input it is given.
pub proof fn lemma_resolve_fn_resolution<A, T: EffectMonad>(r: ResolveFn<T>)
    ensures
        forall|a: A| #[trigger] r.resolve_requires(a),
        forall|a: A, next: T| r.resolve_ensures(a, next) == (next == r.constant()),
{
}

/// Law: a bound effect produces exactly the values reachable by invoking the
/// first effect, applying the continuation to its result, and invoking the
/// effect the continuation built — one step each, in that order.
pub proof fn lemma_bind_evaluation<X, N, B, Ea, K>(e: BoundEffect<Ea, K>, out: B) where
    Ea: EffectMonad<Output = X>,
    N: EffectMonad<Output = B>,
    K: Continuation<X, Next = N>,

    ensures
        e.invoke_ensures(out) <==> exists|a: X, mid: N|
            e.ea.invoke_ensures(a) && #[trigger] e.f.resolve_ensures(a, mid)
                && mid.invoke_ensures(out),
{
}

/// Law: binding a closure effect to a closure continuation produces exactly
/// the values reachable by calling the first closure, handing its result to
/// the continuation closure, and invoking the effect that call returned.
pub proof fn lemma_bind_closure_evaluation<A, N, B, Fa, G>(
    e: BoundEffect<Effect<A, Fa>, FnContinuation<G>>,
    out: B,
) where
    Fa: FnOnce() -> A,
    N: EffectMonad<Output = B>,
    G: FnOnce(A) -> N,

    ensures
        e.invoke_ensures(out) <==> exists|a: A, mid: N|
            call_ensures(e.ea.f, (), a) && #[trigger] call_ensures(e.f.f, (a,), mid)
                && mid.invoke_ensures(out),
{
    lemma_effect_invocation(e.ea);
    lemma_fn_continuation_resolution(e.f);
    if e.invoke_ensures(out) {
        let (a, mid) = choose|a: A, mid: N|
            e.ea.invoke_ensures(a) && #[trigger] e.f.resolve_ensures(a, mid)
                && mid.invoke_ensures(out);
        assert(call_ensures(e.ea.f, (), a) && call_ensures(e.f.f, (a,), mid)
            && mid.invoke_ensures(out));
    }
    if exists|a: A, mid: N|
        call_ensures(e.ea.f, (), a) && #[trigger] call_ensures(e.f.f, (a,), mid)
            && mid.invoke_ensures(out) {
        let (a, mid) = choose|a: A, mid: N|
            call_ensures(e.ea.f, (), a) && #[trigger] call_ensures(e.f.f, (a,), mid)
                && mid.invoke_ensures(out);
        lemma_bind_produces(e, a, mid, out);
    }
}

/// When a bound effect may be invoked: when its first effect may be, when
/// the continuation accepts whatever the first effect produces, and when
/// whatever effect the continuation then builds may be invoked in turn.
pub proof fn lemma_bind_invoke_requires<X, N, Ea, K>(e: BoundEffect<Ea, K>) where
    Ea: EffectMonad<Output = X>,
    N: EffectMonad,
    K: Continuation<X, Next = N>,

    ensures
        e.invoke_requires() <==> {
            &&& e.ea.invoke_requires()
            &&& forall|a: X| e.ea.invoke_ensures(a) ==> #[trigger] e.f.resolve_requires(a)
            &&& forall|a: X, mid: N|
                e.ea.invoke_ensures(a) && #[trigger] e.f.resolve_ensures(a, mid)
                    ==> mid.invoke_requires()
        },
{
}

/// Law: one run of each ingredient, in order, is a run of the composite.
/// If the first effect can produce `a`, the continuation applied to `a` can
/// build `mid`, and `mid` can produce `out`, then the bound effect can
/// produce `out`.
pub proof fn lemma_bind_produces<X, N, B, Ea, K>(e: BoundEffect<Ea, K>, a: X, mid: N, out: B) where
    Ea: EffectMonad<Output = X>,
    N: EffectMonad<Output = B>,
    K: Continuation<X, Next = N>,

    requires
        e.ea.invoke_ensures(a),
        e.f.resolve_ensures(a, mid),
        mid.invoke_ensures(out),
    ensures
        e.invoke_ensures(out),
{
}

/// Law: sequencing while ignoring contents discards the first result.  The
/// composite produces exactly the values the second effect could produce
/// alone, and only after the first effect has run.
pub proof fn lemma_bind_ignore_contents_discards<X, B, Ea, Eb>(
    e: BoundEffect<Ea, ResolveFn<Eb>>,
    out: B,
) where
    Ea: EffectMonad<Output = X>,
    Eb: EffectMonad<Output = B>,

    ensures
        e.invoke_ensures(out) <==> ((exists|a: X| e.ea.invoke_ensures(a))
            && e.f.constant().invoke_ensures(out)),
{
    if e.invoke_ensures(out) {
        let (a, mid) = choose|a: X, mid: Eb|
            e.ea.invoke_ensures(a) && #[trigger] e.f.resolve_ensures(a, mid)
                && mid.invoke_ensures(out);
        assert(e.ea.invoke_ensures(a));
        assert(e.f.constant().invoke_ensures(out));
    }
    if (exists|a: X| e.ea.invoke_ensures(a)) && e.f.constant().invoke_ensures(out) {
        let a = choose|a: X| e.ea.invoke_ensures(a);
        assert(e.ea.invoke_ensures(a) && e.f.resolve_ensures(a, e.f.constant())
            && e.f.constant().invoke_ensures(out));
    }
}

/// When a composite built by `bind_ignore_contents` may be invoked: when
/// its first effect may be, and — if the first effect produces anything at
/// all — when the pre-supplied second effect may be invoked in turn.
pub proof fn lemma_bind_ignore_contents_requires<X, Ea, Eb>(e: BoundEffect<Ea, ResolveFn<Eb>>) where
    Ea: EffectMonad<Output = X>,
    Eb: EffectMonad,

    ensures
        e.invoke_requires() <==> (e.ea.invoke_requires()
            && ((exists|a: X| e.ea.invoke_ensures(a)) ==> e.f.constant().invoke_requires())),
{
    if e.ea.invoke_requires()
        && ((exists|a: X| e.ea.invoke_ensures(a)) ==> e.f.constant().invoke_requires()) {
        assert(forall|a: X| e.ea.invoke_ensures(a) ==> #[trigger] e.f.resolve_requires(a));
        assert forall|a: X, mid: Eb|
            e.ea.invoke_ensures(a) && #[trigger] e.f.resolve_ensures(a, mid)
                implies mid.invoke_requires() by {
            assert(exists|a2: X| e.ea.invoke_ensures(a2));
            assert(mid == e.f.constant());
        }
    }
    if e.invoke_requires() {
        if exists|a: X| e.ea.invoke_ensures(a) {
            let a = choose|a: X| e.ea.invoke_ensures(a);
            assert(e.f.resolve_ensures(a, e.f.constant()));
            assert(e.f.constant().invoke_requires());
        }
    }
}

/// Law: binding is associative.  Invoking `(e1 bind f) bind g` produces
/// exactly the values reachable by invoking `e1`, resolving `f` on its
/// result, and invoking the composite of the middle effect bound to `g` —
/// that is, the values of `e1 bind (|a| (f a) bind g)`.
pub proof fn lemma_bind_associative<X1, N1, X2, N2, B, Ea, K, G>(
    left: BoundEffect<BoundEffect<Ea, K>, G>,
    out: B,
) where
    Ea: EffectMonad<Output = X1>,
    N1: EffectMonad<Output = X2>,
    N2: EffectMonad<Output = B>,
    K: Continuation<X1, Next = N1>,
    G: Continuation<X2, Next = N2>,

    ensures
        left.invoke_ensures(out) <==> exists|a: X1, mid: N1|
            left.ea.ea.invoke_ensures(a) && #[trigger] left.ea.f.resolve_ensures(a, mid)
                && (BoundEffect { ea: mid, f: left.f }).invoke_ensures(out),
{
    if left.invoke_ensures(out) {
        let (x, eg) = choose|x: X2, eg: N2|
            left.ea.invoke_ensures(x) && #[trigger] left.f.resolve_ensures(x, eg)
                && eg.invoke_ensures(out);
        let (a, mid) = choose|a: X1, mid: N1|
            left.ea.ea.invoke_ensures(a) && #[trigger] left.ea.f.resolve_ensures(a, mid)
                && mid.invoke_ensures(x);
        let composite = (BoundEffect { ea: mid, f: left.f });
        assert(composite.ea.invoke_ensures(x) && composite.f.resolve_ensures(x, eg));
        lemma_bind_produces(composite, x, eg, out);
        assert(left.ea.ea.invoke_ensures(a) && left.ea.f.resolve_ensures(a, mid)
            && composite.invoke_ensures(out));
    }
    if exists|a: X1, mid: N1|
        left.ea.ea.invoke_ensures(a) && #[trigger] left.ea.f.resolve_ensures(a, mid)
            && (BoundEffect { ea: mid, f: left.f }).invoke_ensures(out) {
        let (a, mid) = choose|a: X1, mid: N1|
            left.ea.ea.invoke_ensures(a) && #[trigger] left.ea.f.resolve_ensures(a, mid)
                && (BoundEffect { ea: mid, f: left.f }).invoke_ensures(out);
        let composite = (BoundEffect { ea: mid, f: left.f });
        let (x, eg) = choose|x: X2, eg: N2|
            composite.ea.invoke_ensures(x) && #[trigger] composite.f.resolve_ensures(x, eg)
                && eg.invoke_ensures(out);
        assert(composite.ea.invoke_ensures(x) && composite.f.resolve_ensures(x, eg));
        lemma_bind_produces(left.ea, a, mid, x);
        lemma_bind_produces(left, x, eg, out);
    }
}

} // verus!
