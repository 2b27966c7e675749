use vstd::prelude::*;

verus! {

/// Relies on std's `TryFrom<Vec<T>>` for `[T; N]`: the conversion yields the
/// array exactly when the vector's length is `N`, and otherwise gives the
/// vector back unchanged.
#[verifier::external_body]
fn vec_into_array<T, const N: usize>(v: Vec<T>) -> (r: Result<[T; N], Vec<T>>)
    ensures
        r is Ok <==> v@.len() == N,
        r matches Ok(a) ==> a@ == v@,
        r matches Err(w) ==> w@ == v@,
{
    match <[T; N] as TryFrom<Vec<T>>>::try_from(v) {
        Ok(a) => Ok(a),
        Err(w) => Err(w),
    }
}

/// Take the contents of `b` out as an array of exactly `N` elements,
/// leaving `b` empty. When the length is not `N`, the elements come back in
/// the error instead.
pub fn take_array<T, const N: usize>(b: &mut Vec<T>) -> (r: Result<[T; N], Vec<T>>)
    ensures
        final(b)@.len() == 0,
        old(b)@.len() == N ==> (r matches Ok(a) && a@ == old(b)@),
        old(b)@.len() != N ==> (r matches Err(v) && v@ == old(b)@),
{
    let mut taken: Vec<T> = Vec::new();
    core::mem::swap(b, &mut taken);
    vec_into_array(taken)
}

} // verus!
