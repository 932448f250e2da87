use vstd::prelude::*;

use crate::column::{ElementValues, NativeArray};
use crate::error::DataStoreError;
use crate::udf::{invoke, CallFailure};

verus! {

/// One engine 64-bit floating-point columnar array, as the engine hands it
/// to the scalar-function bridge. The array itself is opaque to the
/// verified core; the unverified glue wraps the engine value in this
/// struct, and the core reads it only through the accessors below.
#[verifier::external_body]
pub struct EngineFloat64Array {
    pub array: arrow::array::Float64Array,
}

/// The element of an engine 64-bit floating-point array at each index, as
/// its raw bit pattern; at a null index the bits are whatever the engine's
/// buffer happens to hold there.
pub uninterp spec fn float64_bits_of(a: EngineFloat64Array) -> Seq<u64>;

/// The validity of an engine 64-bit floating-point array at each index:
/// `true` where an element is present, `false` where it is null.
pub uninterp spec fn float64_validity_of(a: EngineFloat64Array) -> Seq<bool>;

/// Relies on arrow's `Array::len`: the number of elements in the array,
/// which both the element and the validity views cover exactly.
#[verifier::external_body]
fn arrow_f64_len(a: &EngineFloat64Array) -> (n: usize)
    ensures
        n == float64_bits_of(*a).len(),
        n == float64_validity_of(*a).len(),
{
    arrow::array::Array::len(&a.array)
}

/// Relies on arrow's `Array::is_null`: whether the element at an in-bounds
/// index is null under the array's validity bitmap (an absent bitmap means
/// no nulls).
#[verifier::external_body]
fn arrow_f64_is_null(a: &EngineFloat64Array, i: usize) -> (r: bool)
    requires
        i < float64_bits_of(*a).len(),
    ensures
        r == !float64_validity_of(*a)[i as int],
{
    arrow::array::Array::is_null(&a.array, i)
}

/// Relies on arrow's `PrimitiveArray::value`: the element at an in-bounds
/// index, read here as its raw bit pattern; arbitrary where the element is
/// null.
#[verifier::external_body]
fn arrow_f64_value_bits(a: &EngineFloat64Array, i: usize) -> (r: u64)
    requires
        i < float64_bits_of(*a).len(),
    ensures
        float64_validity_of(*a)[i as int] ==> r == float64_bits_of(*a)[i as int],
{
    a.array.value(i).to_bits()
}

/// Read one engine 64-bit floating-point array into the core's array
/// model, element by element in index order: present elements keep their
/// bit patterns, null elements become null model elements with a zero
/// placeholder in the buffer.
pub fn native_from_float64(a: &EngineFloat64Array) -> (r: NativeArray)
    ensures
        r.wf(),
        r.values matches ElementValues::Float64Bits(_),
        r.spec_len() == float64_bits_of(*a).len(),
        r.validity matches Some(v) && v@ == float64_validity_of(*a),
        forall|i: int|
            0 <= i < float64_bits_of(*a).len() && float64_validity_of(*a)[i]
                ==> #[trigger] r.f64_bits()[i] == float64_bits_of(*a)[i],
{
    let n: usize = arrow_f64_len(a);
    let mut bits: Vec<u64> = Vec::new();
    let mut valid: Vec<bool> = Vec::new();
    let mut i: usize = 0;
    while i < n
        invariant
            n == float64_bits_of(*a).len(),
            n == float64_validity_of(*a).len(),
            i <= n,
            bits@.len() == i,
            valid@.len() == i,
            forall|j: int| 0 <= j < i ==> #[trigger] valid@[j] == float64_validity_of(*a)[j],
            forall|j: int|
                0 <= j < i && float64_validity_of(*a)[j] ==> #[trigger] bits@[j]
                    == float64_bits_of(*a)[j],
        decreases n - i,
    {
        if arrow_f64_is_null(a, i) {
            bits.push(0u64);
            valid.push(false);
        } else {
            bits.push(arrow_f64_value_bits(a, i));
            valid.push(true);
        }
        i += 1;
    }
    proof {
        assert(valid@ =~= float64_validity_of(*a));
    }
    NativeArray { values: ElementValues::Float64Bits(bits), validity: Some(valid) }
}

/// Evaluate a bridged scalar function over one engine batch handed across
/// as a 64-bit floating-point arrow array: read the array into the core's
/// model, then drive the callable element by element under the bridge's
/// null and failure rules.
///
/// On success the output's length and null positions match the engine
/// array exactly and every present output element is a possible result of
/// the callable on the corresponding input element; any callable failure
/// aborts the whole batch and no output array is produced.
pub fn invoke_on_arrow<F: Fn(u64) -> Result<u64, CallFailure>>(
    a: &EngineFloat64Array,
    f: &F,
) -> (r: Result<NativeArray, DataStoreError>)
    requires
        forall|x: u64| #[trigger] call_requires(*f, (x,)),
    ensures
        match r {
            Ok(out) => out.wf() && (out.values matches ElementValues::Float64Bits(_)) && (
            out.validity matches Some(_)) && out.spec_len() == float64_bits_of(*a).len() && (forall|
                i: int,
            |
                0 <= i < float64_bits_of(*a).len() ==> #[trigger] out.valid_at(i)
                    == float64_validity_of(*a)[i]) && (forall|i: int|
                0 <= i < float64_bits_of(*a).len() && float64_validity_of(*a)[i] ==> call_ensures(
                    *f,
                    (float64_bits_of(*a)[i],),
                    Ok(#[trigger] out.f64_bits()[i]),
                )),
            Err(e) => exists|i: int, c: CallFailure|
                0 <= i < float64_bits_of(*a).len() && float64_validity_of(*a)[i]
                    && #[trigger] call_ensures(*f, (float64_bits_of(*a)[i],), Err(c))
                    && crate::udf::reports_failure(&e, &c),
        },
{
    let native = native_from_float64(a);
    let r = invoke(&native, f);
    proof {
        if r is Err {
            let (i, c): (int, CallFailure) = choose|i: int, c: CallFailure|
                0 <= i < native.spec_len() && native.valid_at(i) && #[trigger] call_ensures(
                    *f,
                    (native.f64_bits()[i],),
                    Err(c),
                ) && crate::udf::reports_failure(&r->Err_0, &c);
            assert(native.f64_bits()[i] == float64_bits_of(*a)[i]);
            assert(call_ensures(*f, (float64_bits_of(*a)[i],), Err::<u64, CallFailure>(c)));
        }
    }
    r
}

} // verus!
