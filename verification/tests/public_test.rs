use std::cell::Cell;

use effect_monad::bind_effects;
use effect_monad::Effect;
use effect_monad::EffectMonad;

#[test]
fn effect_monad_bind_performs() {
    let x: Cell<isize> = Cell::new(0);
    let xr = &x;
    Effect::new(|| {
        xr.set(xr.get() + 2);
    })
    .bind_ignore_contents(Effect::new(|| {
        xr.set(xr.get() - 1);
    }))
    .invoke();
    assert_eq!(x.get(), 1);
}

#[test]
fn effect_monad_bind_performs_sequentially() {
    let x: Cell<isize> = Cell::new(3);
    let xr = &x;
    Effect::new(|| {
        xr.set(xr.get() * 2);
    })
    .bind_ignore_contents(Effect::new(|| {
        xr.set(xr.get() - 1);
    }))
    .invoke();
    assert_eq!(x.get(), 5);
}

#[test]
fn effect_monad_bind_binds() {
    let x: Cell<isize> = Cell::new(0);
    let xr = &x;
    Effect::new(|| {
        xr.set(xr.get() * 2);
        42
    })
    .bind(|a: isize| Effect::new(move || xr.set(a)))
    .invoke();
    assert_eq!(x.get(), 42);
}

#[test]
fn println_can_be_mapped_as_effect() {
    Effect::new(|| println!("hello"))
        .bind_ignore_contents(Effect::new(|| println!("goodbye")))
        .invoke();
}

#[test]
fn effect_map_performs_effect() {
    let mut x: isize = 0;
    {
        let px = &mut x;
        Effect::new(move || *px += 1).invoke();
    }
    assert_eq!(x, 1);
}

#[test]
fn effect_can_implicitly_borrow() {
    let mut x = 1;
    {
        (|| {
            x += 5;
        })();
    }
    assert_eq!(x, 6);
}

#[test]
fn effect_map_compiles_block() {
    let mut x: isize = 0;
    {
        let px = &mut x;
        Effect::new(move || {
            *px = 42;
        })
        .invoke()
    }
    assert_eq!(x, 42);
}

#[test]
fn effect_monad_bind_safely_chains_state() {
    let mut x: isize = 0;
    {
        let px = &mut x;
        Effect::new(move || {
            *px = 6;
            px
        })
        .bind(|px: &mut isize| Effect::new(move || *px += 1))
        .invoke();
    }
    assert_eq!(x, 7);
}

#[test]
fn bind_effect_binds() {
    let x: Cell<isize> = Cell::new(0);
    let xr = &x;
    bind_effects(
        Effect::new(|| {
            xr.set(xr.get() * 2);
            42
        }),
        |a: isize| Effect::new(move || xr.set(a)),
    )
    .invoke();
    assert_eq!(x.get(), 42);
}
