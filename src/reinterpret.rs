use vstd::prelude::*;

verus! {

/// Relies on `<[T; N] as TryFrom<Vec<T>>>::try_from`: it hands back the
/// vector's elements as an array, in order, when the vector holds exactly `N`
/// elements, and hands the vector back unchanged otherwise.
#[verifier::external_body]
fn vec_into_array<T, const N: usize>(v: Vec<T>) -> (r: Result<[T; N], Vec<T>>)
    ensures
        r is Ok <==> v@.len() == N,
        r is Ok ==> r->Ok_0@ == v@,
        r is Err ==> r->Err_0@ == v@,
{
    <[T; N]>::try_from(v)
}

/// Moves `N` staged elements into an array `[T; N]`, keeping their order,
/// without building, copying or dropping any of them.
///
/// The two representations must hold the same number of elements: a call
/// with any other length is refused when the caller is verified, so a
/// mismatch never yields a value.
pub fn transmute_const<T, const N: usize>(src: Vec<T>) -> (r: [T; N])
    requires
        src@.len() == N,
    ensures
        r@ == src@,
{
    match vec_into_array(src) {
        Ok(a) => a,
        Err(_) => vstd::pervasive::unreached(),
    }
}

} // verus!
