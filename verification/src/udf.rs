use vstd::prelude::*;

use crate::column::{ElementValues, NativeArray};
use crate::error::DataStoreError;

verus! {

broadcast use vstd::string::group_string_axioms;

/// How one invocation of the host callable failed: either the callable
/// raised inside the host runtime, or it returned a value that could not be
/// coerced to the declared 64-bit floating-point output type. The carried
/// string is the runtime's description of the failure.
#[derive(Debug, PartialEq, Eq)]
pub enum CallFailure {
    Raised(String),
    NotCoercible(String),
}

/// Relates a batch-level error to the per-element failure it reports:
/// a raise surfaces as `CallableInvocation`, a coercion failure as
/// `TypeCoercion`, each with the failure's message carried verbatim.
pub open spec fn reports_failure(e: &DataStoreError, c: &CallFailure) -> bool {
    match (e, c) {
        (DataStoreError::CallableInvocation(m), CallFailure::Raised(n)) => m@ == n@,
        (DataStoreError::TypeCoercion(m), CallFailure::NotCoercible(n)) => m@ == n@,
        _ => false,
    }
}

/// Turn one element's failure into the error that aborts its whole batch.
fn batch_error(c: CallFailure) -> (e: DataStoreError)
    ensures
        reports_failure(&e, &c),
{
    match c {
        CallFailure::Raised(m) => DataStoreError::CallableInvocation(m),
        CallFailure::NotCoercible(m) => DataStoreError::TypeCoercion(m),
    }
}

impl NativeArray {
    /// The element bits of a 64-bit floating-point array.
    pub open spec fn f64_bits(&self) -> Seq<u64> {
        match self.values {
            ElementValues::Float64Bits(v) => v@,
            _ => Seq::empty(),
        }
    }

    /// Whether the element at `i` is present (an absent validity bitmap
    /// means every element is present).
    pub open spec fn valid_at(&self, i: int) -> bool {
        match self.validity {
            Some(v) => v@[i],
            None => true,
        }
    }
}

/// What `register` stores in the engine's function registry: the function's
/// name and its fixed signature. The signature is not chosen by the caller:
/// every bridged scalar function takes a single nullable 64-bit
/// floating-point input field named "n" and produces a 64-bit
/// floating-point output. The callable itself is an opaque host-runtime
/// reference held outside the verified core; it is not validated against
/// the signature at registration time, only at first invocation.
#[derive(Debug)]
pub struct ScalarFunctionSpec {
    pub name: String,
    pub input_field: String,
    pub input_nullable: bool,
}

impl ScalarFunctionSpec {
    /// The one signature every bridged scalar function carries.
    pub open spec fn has_fixed_signature(&self) -> bool {
        self.input_field@ == "n"@ && self.input_nullable
    }
}

/// Build the registry entry for a bridged scalar function.
pub fn fixed_float64_signature(name: String) -> (s: ScalarFunctionSpec)
    ensures
        s.name@ == name@,
        s.has_fixed_signature(),
{
    let field = "n".to_string();
    ScalarFunctionSpec { name, input_field: field, input_nullable: true }
}

/// Evaluate a registered scalar function over one whole batch of 64-bit
/// floating-point arguments, element by element in index order.
///
/// Null handling and failure are exactly these: a null input element passes
/// through as a null output element and the callable is not consulted for
/// it; a present element is handed to the callable and its coerced result
/// stored; the first failing invocation aborts the entire batch with the
/// error reporting that failure, and no output array is produced for the
/// batch.
///
/// On success the output is a 64-bit floating-point array of the same
/// length whose null positions match the input exactly; every present
/// output element is a possible result of the callable on the
/// corresponding input element, and null output positions carry a zero
/// placeholder.
pub fn invoke<F: Fn(u64) -> Result<u64, CallFailure>>(args: &NativeArray, f: &F) -> (r: Result<
    NativeArray,
    DataStoreError,
>)
    requires
        args.wf(),
        args.values matches ElementValues::Float64Bits(_),
        forall|x: u64| #[trigger] call_requires(*f, (x,)),
    ensures
        match r {
            Ok(out) => out.wf() && (out.values matches ElementValues::Float64Bits(_)) && (
            out.validity matches Some(_)) && out.spec_len() == args.spec_len() && (forall|i: int|
                0 <= i < args.spec_len() ==> #[trigger] out.valid_at(i) == args.valid_at(i)) && (
            forall|i: int|
                0 <= i < args.spec_len() && args.valid_at(i) ==> call_ensures(
                    *f,
                    (args.f64_bits()[i],),
                    Ok(#[trigger] out.f64_bits()[i]),
                )) && (forall|i: int|
                0 <= i < args.spec_len() && !args.valid_at(i) ==> #[trigger] out.f64_bits()[i]
                    == 0u64),
            Err(e) => exists|i: int, c: CallFailure|
                0 <= i < args.spec_len() && args.valid_at(i) && #[trigger] call_ensures(
                    *f,
                    (args.f64_bits()[i],),
                    Err(c),
                ) && reports_failure(&e, &c),
        },
{
    match &args.values {
        ElementValues::Float64Bits(v) => {
            let mut out_bits: Vec<u64> = Vec::new();
            let mut out_valid: Vec<bool> = Vec::new();
            let mut i: usize = 0;
            while i < v.len()
                invariant
                    args.wf(),
                    args.values matches ElementValues::Float64Bits(w) && w@ == v@,
                    forall|x: u64| #[trigger] call_requires(*f, (x,)),
                    i <= v@.len(),
                    out_bits@.len() == i,
                    out_valid@.len() == i,
                    forall|j: int| 0 <= j < i ==> #[trigger] out_valid@[j] == args.valid_at(j),
                    forall|j: int|
                        0 <= j < i && args.valid_at(j) ==> call_ensures(
                            *f,
                            (v@[j],),
                            Ok(#[trigger] out_bits@[j]),
                        ),
                    forall|j: int|
                        0 <= j < i && !args.valid_at(j) ==> #[trigger] out_bits@[j] == 0u64,
                decreases v@.len() - i,
            {
                let present = match &args.validity {
                    Some(bitmap) => bitmap[i],
                    None => true,
                };
                if present {
                    match f(v[i]) {
                        Ok(b) => {
                            out_bits.push(b);
                            out_valid.push(true);
                        },
                        Err(c) => {
                            let ghost gc = c;
                            let ghost idx = i as int;
                            let e = batch_error(c);
                            proof {
                                assert(args.f64_bits() == v@);
                                assert(args.valid_at(idx));
                                assert(call_ensures(
                                    *f,
                                    (args.f64_bits()[idx],),
                                    Err::<u64, CallFailure>(gc),
                                ));
                            }
                            return Err(e);
                        },
                    }
                } else {
                    out_bits.push(0u64);
                    out_valid.push(false);
                }
                i += 1;
            }
            Ok(NativeArray { values: ElementValues::Float64Bits(out_bits), validity: Some(out_valid) })
        },
        _ => vstd::pervasive::unreached(),
    }
}

} // verus!
