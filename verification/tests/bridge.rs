use std::cell::RefCell;

use arrow::array::Float64Array;

use datafusion_bridge::arrow_float::{invoke_on_arrow, native_from_float64, EngineFloat64Array};
use datafusion_bridge::column::{ElementValues, HostArray, NativeArray, ResultBatch, TypedColumn};
use datafusion_bridge::context::ExecutionContext;
use datafusion_bridge::error::{wrap, DataStoreError};
use datafusion_bridge::marshal::marshal;
use datafusion_bridge::udf::{invoke, CallFailure};

fn column(name: &str, values: ElementValues) -> TypedColumn {
    TypedColumn { name: name.to_string(), array: NativeArray { values, validity: None } }
}

fn f64_column(name: &str, values: Vec<f64>) -> TypedColumn {
    column(name, ElementValues::Float64Bits(values.into_iter().map(f64::to_bits).collect()))
}

#[test]
fn marshal_supported_roundtrip() {
    let batch = ResultBatch {
        columns: vec![
            column("b", ElementValues::Bool(vec![true, false, true])),
            column("i8", ElementValues::Int8(vec![-1, 0, 127])),
            column("i16", ElementValues::Int16(vec![-300, 0, 300])),
            column("i32", ElementValues::Int32(vec![-70000, 0, 70000])),
            column("i64", ElementValues::Int64(vec![-5_000_000_000, 0, 5_000_000_000])),
            column("u8", ElementValues::UInt8(vec![0, 1, 255])),
            column("u16", ElementValues::UInt16(vec![0, 1, 65535])),
            column("u32", ElementValues::UInt32(vec![0, 1, 4_000_000_000])),
            column("u64", ElementValues::UInt64(vec![0, 1, u64::MAX])),
            column("f32", ElementValues::Float32Bits(vec![1.5f32.to_bits(), 0.0f32.to_bits(), (-2.25f32).to_bits()])),
            f64_column("f64", vec![1.5, 0.0, -2.25]),
        ],
    };
    let m = marshal(&batch).expect("all columns are supported");
    assert_eq!(m.len(), 11);
    assert_eq!(m[0].0, "b");
    match &m[0].1.values {
        ElementValues::Bool(v) => assert_eq!(v, &vec![true, false, true]),
        other => panic!("wrong element type: {:?}", other),
    }
    match &m[4].1.values {
        ElementValues::Int64(v) => assert_eq!(v, &vec![-5_000_000_000, 0, 5_000_000_000]),
        other => panic!("wrong element type: {:?}", other),
    }
    assert_eq!(m[10].0, "f64");
    match &m[10].1.values {
        ElementValues::Float64Bits(v) => {
            let back: Vec<f64> = v.iter().copied().map(f64::from_bits).collect();
            assert_eq!(back, vec![1.5, 0.0, -2.25]);
        }
        other => panic!("wrong element type: {:?}", other),
    }
}

#[test]
fn marshal_rejects_unsupported_entirely() {
    let batch = ResultBatch {
        columns: vec![
            column("ok", ElementValues::Int32(vec![1, 2])),
            column("bad", ElementValues::Unsupported("Utf8".to_string())),
            column("late", ElementValues::Int32(vec![3, 4])),
        ],
    };
    match marshal(&batch) {
        Err(DataStoreError::UnsupportedType(name)) => assert_eq!(name, "Utf8"),
        other => panic!("expected UnsupportedType, got {:?}", other),
    }
}

#[test]
fn marshal_names_first_unsupported() {
    let batch = ResultBatch {
        columns: vec![
            column("a", ElementValues::Unsupported("Utf8".to_string())),
            column("b", ElementValues::Unsupported("Binary".to_string())),
        ],
    };
    match marshal(&batch) {
        Err(DataStoreError::UnsupportedType(name)) => assert_eq!(name, "Utf8"),
        other => panic!("expected UnsupportedType, got {:?}", other),
    }
}

#[test]
fn marshal_zero_rows_is_not_an_error() {
    let batch = ResultBatch {
        columns: vec![
            column("a", ElementValues::Int64(vec![])),
            f64_column("b", vec![]),
        ],
    };
    let m = marshal(&batch).expect("zero rows marshal fine");
    assert_eq!(m.len(), 2);
    for (_, host) in &m {
        let len = match &host.values {
            ElementValues::Int64(v) => v.len(),
            ElementValues::Float64Bits(v) => v.len(),
            other => panic!("wrong element type: {:?}", other),
        };
        assert_eq!(len, 0);
    }
}

fn f64_args(values: Vec<Option<f64>>) -> NativeArray {
    let bits = values.iter().map(|v| v.unwrap_or(0.0).to_bits()).collect();
    let validity = values.iter().map(|v| v.is_some()).collect();
    NativeArray { values: ElementValues::Float64Bits(bits), validity: Some(validity) }
}

fn inc(bits: u64) -> Result<u64, CallFailure> {
    Ok((f64::from_bits(bits) + 1.0).to_bits())
}

#[test]
fn invoke_inc_passes_nulls_through() {
    let args = f64_args(vec![Some(1.0), None, Some(3.0)]);
    let out = invoke(&args, &inc).expect("no element fails");
    assert_eq!(out.validity, Some(vec![true, false, true]));
    match &out.values {
        ElementValues::Float64Bits(v) => {
            assert_eq!(f64::from_bits(v[0]), 2.0);
            assert_eq!(v[1], 0);
            assert_eq!(f64::from_bits(v[2]), 4.0);
        }
        other => panic!("wrong element type: {:?}", other),
    }
}

#[test]
fn invoke_raise_aborts_whole_batch() {
    let args = f64_args(vec![Some(1.0), Some(3.0), Some(5.0)]);
    let f = |bits: u64| -> Result<u64, CallFailure> {
        if f64::from_bits(bits) == 3.0 {
            Err(CallFailure::Raised("boom".to_string()))
        } else {
            Ok(bits)
        }
    };
    match invoke(&args, &f) {
        Err(DataStoreError::CallableInvocation(m)) => assert_eq!(m, "boom"),
        other => panic!("expected CallableInvocation, got {:?}", other),
    }
}

#[test]
fn invoke_coercion_failure_aborts_whole_batch() {
    let args = f64_args(vec![Some(1.0)]);
    let f = |_bits: u64| -> Result<u64, CallFailure> {
        Err(CallFailure::NotCoercible("a list is not a float".to_string()))
    };
    match invoke(&args, &f) {
        Err(DataStoreError::TypeCoercion(m)) => assert_eq!(m, "a list is not a float"),
        other => panic!("expected TypeCoercion, got {:?}", other),
    }
}

#[test]
fn invoke_empty_batch_yields_empty_array() {
    let args = f64_args(vec![]);
    let out = invoke(&args, &inc).expect("empty batch succeeds");
    assert_eq!(out.validity, Some(vec![]));
    match &out.values {
        ElementValues::Float64Bits(v) => assert_eq!(v.len(), 0),
        other => panic!("wrong element type: {:?}", other),
    }
}

#[test]
fn invoke_calls_only_present_elements_in_order() {
    let seen: RefCell<Vec<f64>> = RefCell::new(Vec::new());
    let args = f64_args(vec![Some(10.0), None, Some(30.0), None, Some(50.0)]);
    let f = |bits: u64| -> Result<u64, CallFailure> {
        seen.borrow_mut().push(f64::from_bits(bits));
        Ok(bits)
    };
    invoke(&args, &f).expect("no element fails");
    assert_eq!(*seen.borrow(), vec![10.0, 30.0, 50.0]);
}

#[test]
fn tables_after_register_parquet() {
    let mut ctx = ExecutionContext::new();
    assert_eq!(ctx.tables().len(), 0);
    ctx.register_parquet("t");
    assert_eq!(ctx.tables(), vec!["t".to_string()]);
    ctx.register_parquet("u");
    let mut names = ctx.tables();
    names.sort();
    assert_eq!(names, vec!["t".to_string(), "u".to_string()]);
}

#[test]
fn reregistering_a_table_replaces_it() {
    let mut ctx = ExecutionContext::new();
    ctx.register_parquet("t");
    ctx.register_parquet("t");
    assert_eq!(ctx.tables(), vec!["t".to_string()]);
}

#[test]
fn register_udf_records_fixed_signature() {
    let mut ctx = ExecutionContext::new();
    ctx.register_udf("inc");
    assert_eq!(ctx.udfs.len(), 1);
    assert_eq!(ctx.udfs[0].name, "inc");
    assert_eq!(ctx.udfs[0].input_field, "n");
    assert!(ctx.udfs[0].input_nullable);
    ctx.register_udf("inc");
    assert_eq!(ctx.udfs.len(), 1);
    ctx.register_udf("dec");
    assert_eq!(ctx.udfs.len(), 2);
    assert_eq!(ctx.tables().len(), 0);
}

#[test]
fn wrap_passes_success_and_carries_failure() {
    assert_eq!(wrap::<i32>(Ok(3)), Ok(3));
    match wrap::<i32>(Err("plan failed".to_string())) {
        Err(DataStoreError::Execution(m)) => assert_eq!(m, "plan failed"),
        other => panic!("expected Execution, got {:?}", other),
    }
}

#[test]
fn engine_array_values_and_nulls_are_read() {
    let array = Float64Array::from(vec![Some(1.5), None, Some(-2.25)]);
    let native = native_from_float64(&EngineFloat64Array { array });
    assert_eq!(native.validity, Some(vec![true, false, true]));
    match &native.values {
        ElementValues::Float64Bits(v) => {
            assert_eq!(f64::from_bits(v[0]), 1.5);
            assert_eq!(v[1], 0);
            assert_eq!(f64::from_bits(v[2]), -2.25);
        }
        other => panic!("wrong element type: {:?}", other),
    }
}

#[test]
fn invoke_on_engine_array_inc() {
    let array = Float64Array::from(vec![Some(1.0), None, Some(3.0)]);
    let out = invoke_on_arrow(&EngineFloat64Array { array }, &inc).expect("no element fails");
    assert_eq!(out.validity, Some(vec![true, false, true]));
    match &out.values {
        ElementValues::Float64Bits(v) => {
            assert_eq!(f64::from_bits(v[0]), 2.0);
            assert_eq!(v[1], 0);
            assert_eq!(f64::from_bits(v[2]), 4.0);
        }
        other => panic!("wrong element type: {:?}", other),
    }
}

#[test]
fn invoke_on_engine_array_raise_aborts() {
    let array = Float64Array::from(vec![Some(1.0), Some(2.0)]);
    let f = |bits: u64| -> Result<u64, CallFailure> {
        if f64::from_bits(bits) == 2.0 {
            Err(CallFailure::Raised("raised in host".to_string()))
        } else {
            Ok(bits)
        }
    };
    match invoke_on_arrow(&EngineFloat64Array { array }, &f) {
        Err(DataStoreError::CallableInvocation(m)) => assert_eq!(m, "raised in host"),
        other => panic!("expected CallableInvocation, got {:?}", other),
    }
}

#[test]
fn host_array_keeps_source_length() {
    let batch = ResultBatch { columns: vec![f64_column("n", vec![1.0, 2.0, 3.0, 4.0])] };
    let m = marshal(&batch).expect("supported");
    let host: &HostArray = &m[0].1;
    match &host.values {
        ElementValues::Float64Bits(v) => assert_eq!(v.len(), 4),
        other => panic!("wrong element type: {:?}", other),
    }
}
