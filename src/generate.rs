use vstd::prelude::*;

use crate::guard::{generated_ok_from, Guard};

verus! {

/// Every element of `s` is a value that `cb` may return for that element's
/// index.
pub open spec fn generated_by<T, F: Fn(usize) -> T>(cb: F, s: Seq<T>) -> bool {
    forall|i: int| 0 <= i < s.len() ==> cb.ensures((i as usize,), #[trigger] s[i])
}

/// Builds `[cb(0), cb(1), ..., cb(N - 1)]`, calling `cb` once for each index,
/// in increasing order. With `N == 0` the array is empty and `cb` is never
/// called.
///
/// If `cb` panics, the elements already built are dropped, each exactly
/// once, before the panic goes on.
pub fn from_const_fn<T, const N: usize, F: Fn(usize) -> T>(cb: F) -> (r: [T; N])
    requires
        forall|i: usize| i < N ==> cb.requires((i,)),
    ensures
        r@.len() == N,
        generated_by(cb, r@),
{
    let mut guard: Guard<T, N> = Guard::new();
    while guard.get_index() < N
        invariant
            forall|i: usize| i < N ==> cb.requires((i,)),
            guard@.len() <= N,
            generated_by(cb, guard@),
        decreases N - guard@.len(),
    {
        let item = cb(guard.get_index());
        guard.push_unchecked(item);
    }
    guard.finish()
}

/// `cb` may return `Ok` when called with `i`.
pub open spec fn may_succeed_at<T, E, F: Fn(usize) -> Result<T, E>>(cb: F, i: usize) -> bool {
    exists|v: T| cb.ensures((i,), Ok::<T, E>(v))
}

/// Every value that `cb` may return when called with `i` is an `Err`.
pub open spec fn must_fail_at<T, E, F: Fn(usize) -> Result<T, E>>(cb: F, i: usize) -> bool {
    forall|v: Result<T, E>| cb.ensures((i,), v) ==> v is Err
}

/// Builds `[v0, v1, ..., v(N - 1)]` where `cb(i)` returned `Ok(vi)`, calling
/// `cb` once for each index, in increasing order, and stopping at the first
/// call that returns `Err`.
///
/// On such a failure at index `k`, exactly the `k` elements already built
/// are dropped, each once, and the error is returned unchanged.
pub fn try_from_const_fn<T, E, const N: usize, F: Fn(usize) -> Result<T, E>>(cb: F) -> (r: Result<
    [T; N],
    E,
>)
    requires
        forall|i: usize| i < N ==> cb.requires((i,)),
    ensures
        (forall|i: usize, v: Result<T, E>| i < N && cb.ensures((i,), v) ==> v is Ok) ==> r is Ok,
        (exists|k: usize| k < N && #[trigger] must_fail_at(cb, k)) ==> r is Err,
        r is Ok ==> r->Ok_0@.len() == N && generated_ok_from(cb, r->Ok_0@, 0),
        r is Err ==> exists|k: usize|
            k < N && cb.ensures((k,), Err::<T, E>(r->Err_0)) && forall|j: usize|
                j < k ==> #[trigger] may_succeed_at(cb, j),
{
    let mut guard: Guard<T, N> = Guard::new();
    match guard.fill(&cb) {
        Ok(()) => {
            assert forall|k: usize| k < N implies !must_fail_at(cb, k) by {
                assert(cb.ensures((k,), Ok::<T, E>(guard@[k as int])));
            }
            Ok(guard.finish())
        },
        Err(e) => {
            let r: Result<[T; N], E> = Err(e);
            let ghost k = guard@.len() as usize;
            assert(cb.ensures((k,), Err::<T, E>(r->Err_0)));
            assert forall|j: usize| j < k implies #[trigger] may_succeed_at(cb, j) by {
                assert(cb.ensures((j,), Ok::<T, E>(guard@[j as int])));
            }
            guard.teardown();
            r
        },
    }
}

/// When `cb` computes the function `f`, the array that `from_const_fn`
/// builds from `cb` is exactly `[f(0), f(1), ..., f(N - 1)]`.
pub proof fn lemma_pure_generator<T, const N: usize, F: Fn(usize) -> T>(
    cb: F,
    f: spec_fn(usize) -> T,
    r: [T; N],
)
    requires
        forall|i: usize, v: T| cb.ensures((i,), v) ==> v == f(i),
        r@.len() == N,
        generated_by(cb, r@),
    ensures
        r@ == Seq::new(N as nat, |i: int| f(i as usize)),
{
    assert(r@ =~= Seq::new(N as nat, |i: int| f(i as usize)));
}

} // verus!
