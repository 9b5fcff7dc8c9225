//! Builds a fixed-size array `[T; N]` by calling a generator once for each
//! index, in increasing order, staging the elements behind a guard that
//! releases exactly the ones already built if generation stops early.

mod generate;
mod guard;
mod reinterpret;

pub use generate::{
    from_const_fn, generated_by, lemma_pure_generator, may_succeed_at, must_fail_at,
    try_from_const_fn,
};
pub use guard::{generated_ok_from, Guard};
pub use reinterpret::transmute_const;
