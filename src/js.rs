//! The integer ranges that JavaScript represents exactly.
use vstd::prelude::*;

verus! {

/// The largest integer that a JavaScript number holds exactly: 2^53 - 1.
pub const MAX_SAFE_UINT: u64 = 9007199254740991;

/// The same bound as a signed integer.
pub const MAX_SAFE_INT: i64 = 9007199254740991;

/// Relies on js_int::UInt::new: it gives a value exactly when `v` lies in
/// 0 ..= 2^53 - 1.
#[verifier::external_body]
pub(crate) fn is_safe_uint(v: u64) -> (r: bool)
    ensures
        r == (v <= MAX_SAFE_UINT),
{
    js_int::UInt::new(v).is_some()
}

/// Relies on js_int::Int::new: it gives a value exactly when `v` lies in
/// -(2^53 - 1) ..= 2^53 - 1.
#[verifier::external_body]
pub(crate) fn is_safe_int(v: i64) -> (r: bool)
    ensures
        r == (-MAX_SAFE_INT <= v && v <= MAX_SAFE_INT),
{
    js_int::Int::new(v).is_some()
}

} // verus!
