use vstd::prelude::*;

verus! {

/// Errors crossing the engine / host-runtime boundary.
///
/// Every error aborts the whole in-progress batch operation (one batch's
/// marshal, or one scalar-function batch invocation); no partial result
/// ever accompanies an error.
#[derive(Debug, PartialEq, Eq)]
pub enum DataStoreError {
    /// Query planning or execution failed inside the engine; the engine's
    /// message is carried verbatim.
    Execution(String),
    /// The marshaller met a column whose element type lies outside the
    /// supported set; carries the name of the offending type.
    UnsupportedType(String),
    /// The host callable raised while being invoked on an element; carries
    /// the runtime's message.
    CallableInvocation(String),
    /// The host callable returned a value that could not be coerced to the
    /// declared output type; carries a description of the value.
    TypeCoercion(String),
}

/// Carry an engine result across the boundary: a success passes through
/// unchanged, and an engine failure surfaces as `Execution` carrying the
/// engine's message verbatim. Nothing is retried and nothing else is
/// attached.
pub fn wrap<T>(r: Result<T, String>) -> (out: Result<T, DataStoreError>)
    ensures
        match out {
            Ok(v) => r matches Ok(w) && v == w,
            Err(e) => r matches Err(m) && (e matches DataStoreError::Execution(em) && em@ == m@),
        },
{
    match r {
        Ok(v) => Ok(v),
        Err(m) => Err(DataStoreError::Execution(m)),
    }
}

} // verus!
