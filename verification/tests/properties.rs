use std::cell::Cell;
use std::cell::RefCell;

use effect_monad::Effect;
use effect_monad::EffectMonad;
use effect_monad::ResolveFn;

#[test]
fn bind_matches_manual_invocation() {
    let via_bind = Effect::new(|| 10isize)
        .bind(|a: isize| Effect::new(move || a + 5))
        .invoke();
    let a = Effect::new(|| 10isize).invoke();
    let manual = Effect::new(move || a + 5).invoke();
    assert_eq!(via_bind, 15);
    assert_eq!(manual, via_bind);
}

#[test]
fn bind_invokes_each_step_once_in_order() {
    let log: RefCell<Vec<&'static str>> = RefCell::new(Vec::new());
    let lr = &log;
    let out = Effect::new(move || {
        lr.borrow_mut().push("first");
        7isize
    })
    .bind(move |a: isize| {
        lr.borrow_mut().push("continuation");
        Effect::new(move || {
            lr.borrow_mut().push("second");
            a * 2
        })
    })
    .invoke();
    assert_eq!(out, 14);
    assert_eq!(*log.borrow(), vec!["first", "continuation", "second"]);
}

#[test]
fn bind_ignore_contents_discards_first_value() {
    let log: RefCell<Vec<&'static str>> = RefCell::new(Vec::new());
    let lr = &log;
    let out = Effect::new(move || {
        lr.borrow_mut().push("first");
        99isize
    })
    .bind_ignore_contents(Effect::new(move || {
        lr.borrow_mut().push("second");
        5isize
    }))
    .invoke();
    assert_eq!(out, 5);
    assert_eq!(*log.borrow(), vec!["first", "second"]);
}

#[test]
fn never_invoked_effects_do_not_run() {
    let x: Cell<isize> = Cell::new(0);
    let xr = &x;
    let _ignored = Effect::new(|| {
        xr.set(xr.get() + 2);
    })
    .bind_ignore_contents(Effect::new(|| {
        xr.set(xr.get() - 1);
    }));
    assert_eq!(x.get(), 0);
    let _bound = Effect::new(|| {
        xr.set(7);
        1isize
    })
    .bind(|a: isize| Effect::new(move || xr.set(a)));
    assert_eq!(x.get(), 0);
}

#[test]
fn bind_is_associative_in_value() {
    let left = Effect::new(|| 3isize)
        .bind(|a: isize| Effect::new(move || a + 10))
        .bind(|b: isize| Effect::new(move || b * 2))
        .invoke();
    let right = Effect::new(|| 3isize)
        .bind(|a: isize| {
            Effect::new(move || a + 10).bind(|b: isize| Effect::new(move || b * 2))
        })
        .invoke();
    assert_eq!(left, 26);
    assert_eq!(right, 26);
}

#[test]
fn bind_is_associative_in_effect_order() {
    let left_log: RefCell<Vec<&'static str>> = RefCell::new(Vec::new());
    let ll = &left_log;
    Effect::new(move || {
        ll.borrow_mut().push("e1");
        1isize
    })
    .bind(move |a: isize| {
        Effect::new(move || {
            ll.borrow_mut().push("e2");
            a + 1
        })
    })
    .bind(move |b: isize| {
        Effect::new(move || {
            ll.borrow_mut().push("e3");
            b + 1
        })
    })
    .invoke();
    let right_log: RefCell<Vec<&'static str>> = RefCell::new(Vec::new());
    let rl = &right_log;
    Effect::new(move || {
        rl.borrow_mut().push("e1");
        1isize
    })
    .bind(move |a: isize| {
        Effect::new(move || {
            rl.borrow_mut().push("e2");
            a + 1
        })
        .bind(move |b: isize| {
            Effect::new(move || {
                rl.borrow_mut().push("e3");
                b + 1
            })
        })
    })
    .invoke();
    assert_eq!(*left_log.borrow(), vec!["e1", "e2", "e3"]);
    assert_eq!(*right_log.borrow(), *left_log.borrow());
}

#[test]
fn invoke_effect_runs_the_effect() {
    let out = effect_monad::invoke_effect(Effect::new(|| 9isize));
    assert_eq!(out, 9);
    let out2 = effect_monad::invoke_effect(
        Effect::new(|| 1isize).bind(|a: isize| Effect::new(move || a + 1)),
    );
    assert_eq!(out2, 2);
}

#[test]
fn resolve_fn_wraps_the_given_value() {
    let r: ResolveFn<isize> = 5isize.into();
    let ResolveFn::Const(v) = r;
    assert_eq!(v, 5);
}
