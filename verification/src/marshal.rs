use vstd::prelude::*;

use crate::column::{same_values, ElementValues, HostArray, ResultBatch};
use crate::error::DataStoreError;

verus! {

/// Whether every column of the batch has a supported element type, so that
/// marshalling the batch is owed to succeed.
pub open spec fn all_supported(batch: &ResultBatch) -> bool {
    forall|i: int|
        0 <= i < batch.columns@.len() ==> (#[trigger] batch.columns@[i]).array.values.is_supported()
}

/// Law: marshalling keeps a batch rectangular. In a well-formed batch every
/// column has the same length, and every marshalled host array has its
/// source column's length, so all the host arrays of one marshalled batch
/// have one common length.
pub proof fn lemma_marshalled_lengths_equal(batch: &ResultBatch, m: Seq<(String, HostArray)>)
    requires
        batch.wf(),
        m.len() == batch.columns@.len(),
        forall|i: int|
            0 <= i < m.len() ==> (#[trigger] m[i]).1.spec_len()
                == batch.columns@[i].array.spec_len(),
    ensures
        forall|i: int, j: int|
            0 <= i < m.len() && 0 <= j < m.len() ==> (#[trigger] m[i]).1.spec_len() == (
            #[trigger] m[j]).1.spec_len(),
{
    assert forall|i: int, j: int|
        0 <= i < m.len() && 0 <= j < m.len() implies (#[trigger] m[i]).1.spec_len() == (
    #[trigger] m[j]).1.spec_len() by {
        assert(batch.columns@[i].array.spec_len() == batch.columns@[0].array.spec_len());
        assert(batch.columns@[j].array.spec_len() == batch.columns@[0].array.spec_len());
    }
}

fn copy_vec<T: Copy>(v: &Vec<T>) -> (r: Vec<T>)
    ensures
        r@ == v@,
{
    let mut r: Vec<T> = Vec::new();
    let mut i: usize = 0;
    while i < v.len()
        invariant
            i <= v@.len(),
            r@ == v@.subrange(0, i as int),
        decreases v@.len() - i,
    {
        r.push(v[i]);
        i += 1;
    }
    proof {
        assert(r@ =~= v@);
    }
    r
}

/// Copy one supported element buffer element for element, in index order.
fn copy_values(values: &ElementValues) -> (r: Result<ElementValues, DataStoreError>)
    ensures
        match r {
            Ok(c) => values.is_supported() && same_values(&c, values),
            Err(e) => !values.is_supported() && (e matches DataStoreError::UnsupportedType(s)
                && s@ == values.unsupported_name()),
        },
{
    match values {
        ElementValues::Bool(v) => Ok(ElementValues::Bool(copy_vec(v))),
        ElementValues::Int8(v) => Ok(ElementValues::Int8(copy_vec(v))),
        ElementValues::Int16(v) => Ok(ElementValues::Int16(copy_vec(v))),
        ElementValues::Int32(v) => Ok(ElementValues::Int32(copy_vec(v))),
        ElementValues::Int64(v) => Ok(ElementValues::Int64(copy_vec(v))),
        ElementValues::UInt8(v) => Ok(ElementValues::UInt8(copy_vec(v))),
        ElementValues::UInt16(v) => Ok(ElementValues::UInt16(copy_vec(v))),
        ElementValues::UInt32(v) => Ok(ElementValues::UInt32(copy_vec(v))),
        ElementValues::UInt64(v) => Ok(ElementValues::UInt64(copy_vec(v))),
        ElementValues::Float32Bits(v) => Ok(ElementValues::Float32Bits(copy_vec(v))),
        ElementValues::Float64Bits(v) => Ok(ElementValues::Float64Bits(copy_vec(v))),
        ElementValues::Unsupported(name) => Err(
            DataStoreError::UnsupportedType(name.clone()),
        ),
    }
}

/// Convert one result batch into host arrays, one per column, by declared
/// element type.
///
/// Conversion is all-or-nothing: on success the mapping holds, in column
/// order, every field name paired with a dense host array of identical
/// element values; if any column's type lies outside the supported set the
/// whole batch is rejected with `UnsupportedType` naming the first
/// offending column's type, and no partial mapping is returned.
///
/// A zero-row batch is not an error: every marshalled host array simply has
/// length zero.
///
/// One batch is one marshalling unit. A multi-batch execution result is
/// converted by marshalling each batch in order, so the core never drops
/// rows silently; combining or streaming the per-batch mappings is the
/// facade's affair.
pub fn marshal(batch: &ResultBatch) -> (r: Result<Vec<(String, HostArray)>, DataStoreError>)
    ensures
        match r {
            Ok(m) => all_supported(batch) && m@.len() == batch.columns@.len() && forall|i: int|
                0 <= i < m@.len() ==> ((#[trigger] m@[i]).0@ == batch.columns@[i].name@
                    && same_values(&m@[i].1.values, &batch.columns@[i].array.values)
                    && m@[i].1.spec_len() == batch.columns@[i].array.spec_len()
                    && m@[i].1.wf()),
            Err(e) => exists|i: int|
                0 <= i < batch.columns@.len()
                    && !(#[trigger] batch.columns@[i]).array.values.is_supported() && (forall|
                    j: int,
                |
                    0 <= j < i ==> (#[trigger] batch.columns@[j]).array.values.is_supported()) && (
                e matches DataStoreError::UnsupportedType(s)
                    && s@ == batch.columns@[i].array.values.unsupported_name()),
        },
{
    let mut out: Vec<(String, HostArray)> = Vec::new();
    let mut k: usize = 0;
    while k < batch.columns.len()
        invariant
            k <= batch.columns@.len(),
            out@.len() == k,
            forall|i: int|
                0 <= i < k ==> ((#[trigger] out@[i]).0@ == batch.columns@[i].name@ && same_values(
                    &out@[i].1.values,
                    &batch.columns@[i].array.values,
                ) && out@[i].1.wf()),
            forall|j: int| 0 <= j < k ==> (#[trigger] batch.columns@[j]).array.values.is_supported(),
        decreases batch.columns@.len() - k,
    {
        let column = &batch.columns[k];
        match copy_values(&column.array.values) {
            Ok(copied) => {
                out.push((column.name.clone(), HostArray { values: copied }));
            },
            Err(e) => {
                return Err(e);
            },
        }
        k += 1;
    }
    Ok(out)
}

} // verus!
