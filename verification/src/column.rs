use vstd::prelude::*;

verus! {

/// The element buffer of one native columnar array, tagged by element type.
///
/// The supported set is exactly the fixed-width primitive types the host
/// runtime can receive: booleans, signed and unsigned integers of 8 to 64
/// bits, and 32- and 64-bit floating-point values. Floating-point elements
/// are carried as their raw bit patterns (`u32` / `u64`), so the core stays
/// in integer arithmetic; the host boundary reinterprets the bits.
///
/// A column whose declared type lies outside the supported set is
/// represented by `Unsupported`, carrying the engine's name for that type;
/// its element values are never inspected.
#[derive(Debug)]
pub enum ElementValues {
    Bool(Vec<bool>),
    Int8(Vec<i8>),
    Int16(Vec<i16>),
    Int32(Vec<i32>),
    Int64(Vec<i64>),
    UInt8(Vec<u8>),
    UInt16(Vec<u16>),
    UInt32(Vec<u32>),
    UInt64(Vec<u64>),
    Float32Bits(Vec<u32>),
    Float64Bits(Vec<u64>),
    Unsupported(String),
}

impl ElementValues {
    /// Whether the declared element type belongs to the supported set.
    pub open spec fn is_supported(&self) -> bool {
        !(self matches ElementValues::Unsupported(_))
    }

    /// The engine's name for an unsupported element type.
    pub open spec fn unsupported_name(&self) -> Seq<char> {
        match self {
            ElementValues::Unsupported(s) => s@,
            _ => Seq::empty(),
        }
    }

    /// Number of elements held (zero for an unsupported column, whose
    /// elements are never represented).
    pub open spec fn spec_len(&self) -> nat {
        match self {
            ElementValues::Bool(v) => v@.len(),
            ElementValues::Int8(v) => v@.len(),
            ElementValues::Int16(v) => v@.len(),
            ElementValues::Int32(v) => v@.len(),
            ElementValues::Int64(v) => v@.len(),
            ElementValues::UInt8(v) => v@.len(),
            ElementValues::UInt16(v) => v@.len(),
            ElementValues::UInt32(v) => v@.len(),
            ElementValues::UInt64(v) => v@.len(),
            ElementValues::Float32Bits(v) => v@.len(),
            ElementValues::Float64Bits(v) => v@.len(),
            ElementValues::Unsupported(_) => 0,
        }
    }
}

/// Element-for-element equality of two buffers: same element type and the
/// same values at every index.
pub open spec fn same_values(a: &ElementValues, b: &ElementValues) -> bool {
    match (a, b) {
        (ElementValues::Bool(x), ElementValues::Bool(y)) => x@ == y@,
        (ElementValues::Int8(x), ElementValues::Int8(y)) => x@ == y@,
        (ElementValues::Int16(x), ElementValues::Int16(y)) => x@ == y@,
        (ElementValues::Int32(x), ElementValues::Int32(y)) => x@ == y@,
        (ElementValues::Int64(x), ElementValues::Int64(y)) => x@ == y@,
        (ElementValues::UInt8(x), ElementValues::UInt8(y)) => x@ == y@,
        (ElementValues::UInt16(x), ElementValues::UInt16(y)) => x@ == y@,
        (ElementValues::UInt32(x), ElementValues::UInt32(y)) => x@ == y@,
        (ElementValues::UInt64(x), ElementValues::UInt64(y)) => x@ == y@,
        (ElementValues::Float32Bits(x), ElementValues::Float32Bits(y)) => x@ == y@,
        (ElementValues::Float64Bits(x), ElementValues::Float64Bits(y)) => x@ == y@,
        (ElementValues::Unsupported(x), ElementValues::Unsupported(y)) => x@ == y@,
        _ => false,
    }
}

/// One native columnar array: a typed element buffer with an optional
/// per-element validity flag (`true` means the element is present,
/// `false` means null).
#[derive(Debug)]
pub struct NativeArray {
    pub values: ElementValues,
    pub validity: Option<Vec<bool>>,
}

impl NativeArray {
    /// The buffer length is the single source of truth; a validity bitmap,
    /// when present, covers exactly the elements.
    pub open spec fn wf(&self) -> bool {
        match self.validity {
            Some(v) => v@.len() == self.values.spec_len(),
            None => true,
        }
    }

    pub open spec fn spec_len(&self) -> nat {
        self.values.spec_len()
    }
}

/// One field of a result batch: a named native array.
#[derive(Debug)]
pub struct TypedColumn {
    pub name: String,
    pub array: NativeArray,
}

/// One engine execution unit: an ordered list of named columns, all of the
/// same length.
#[derive(Debug)]
pub struct ResultBatch {
    pub columns: Vec<TypedColumn>,
}

impl ResultBatch {
    pub open spec fn wf(&self) -> bool {
        forall|i: int|
            0 <= i < self.columns@.len() ==> (#[trigger] self.columns@[i]).array.wf()
                && self.columns@[i].array.spec_len() == self.columns@[0].array.spec_len()
    }
}

/// A host-runtime array produced by the marshaller: a dense copy of one
/// column's element buffer. The source's validity bitmap is not carried
/// across; a caller that must preserve null information should reject
/// columns containing nulls before marshalling.
#[derive(Debug)]
pub struct HostArray {
    pub values: ElementValues,
}

impl HostArray {
    pub open spec fn wf(&self) -> bool {
        self.values.is_supported()
    }

    pub open spec fn spec_len(&self) -> nat {
        self.values.spec_len()
    }
}

} // verus!
