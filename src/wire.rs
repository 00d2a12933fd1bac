use vstd::prelude::*;

use crate::store::{Datapoint, DatapointModel};
use crate::value::{DataValue, Timestamp, ValueModel, strings_model};

verus! {

/// A typed value as a producer sends it. Floating-point values are held as
/// their IEEE-754 bit patterns.
#[derive(Debug)]
pub enum TypedValue {
    String(String),
    Bool(bool),
    Int32(i32),
    Int64(i64),
    Uint32(u32),
    Uint64(u64),
    Float(u32),
    Double(u64),
    StringArray(Vec<String>),
    BoolArray(Vec<bool>),
    Int32Array(Vec<i32>),
    Int64Array(Vec<i64>),
    Uint32Array(Vec<u32>),
    Uint64Array(Vec<u64>),
    FloatArray(Vec<u32>),
    DoubleArray(Vec<u64>),
}

impl View for TypedValue {
    type V = ValueModel;

    open spec fn view(&self) -> ValueModel {
        match self {
            TypedValue::String(s) => ValueModel::String(s@),
            TypedValue::Bool(b) => ValueModel::Bool(*b),
            TypedValue::Int32(x) => ValueModel::Int32(*x),
            TypedValue::Int64(x) => ValueModel::Int64(*x),
            TypedValue::Uint32(x) => ValueModel::Uint32(*x),
            TypedValue::Uint64(x) => ValueModel::Uint64(*x),
            TypedValue::Float(x) => ValueModel::Float(*x),
            TypedValue::Double(x) => ValueModel::Double(*x),
            TypedValue::StringArray(a) => ValueModel::StringArray(strings_model(a@)),
            TypedValue::BoolArray(a) => ValueModel::BoolArray(a@),
            TypedValue::Int32Array(a) => ValueModel::Int32Array(a@),
            TypedValue::Int64Array(a) => ValueModel::Int64Array(a@),
            TypedValue::Uint32Array(a) => ValueModel::Uint32Array(a@),
            TypedValue::Uint64Array(a) => ValueModel::Uint64Array(a@),
            TypedValue::FloatArray(a) => ValueModel::FloatArray(a@),
            TypedValue::DoubleArray(a) => ValueModel::DoubleArray(a@),
        }
    }
}

/// What a producer reports for a signal: a value (possibly with no typed
/// content), or a failure code.
#[derive(Debug)]
pub enum ValueState {
    Value(Option<TypedValue>),
    Failure(i32),
}

/// A datapoint as a producer sends it.
#[derive(Debug)]
pub struct WireDatapoint {
    pub timestamp: Option<Timestamp>,
    pub value_state: Option<ValueState>,
}

/// The stored value for what a producer reported: its typed value where it
/// sent one, else `NotAvailable` (no state, no typed content, or a failure).
pub open spec fn value_of_state(s: Option<ValueState>) -> ValueModel {
    match s {
        Some(ValueState::Value(Some(t))) => t@,
        _ => ValueModel::NotAvailable,
    }
}

impl DataValue {
    /// The value that a producer's datapoint carries.
    pub fn from_wire(datapoint: WireDatapoint) -> (r: DataValue)
        ensures
            r@ == value_of_state(datapoint.value_state),
    {
        match datapoint.value_state {
            Some(ValueState::Value(Some(value))) => match value {
                TypedValue::String(v) => DataValue::String(v),
                TypedValue::Bool(v) => DataValue::Bool(v),
                TypedValue::Int32(v) => DataValue::Int32(v),
                TypedValue::Int64(v) => DataValue::Int64(v),
                TypedValue::Uint32(v) => DataValue::Uint32(v),
                TypedValue::Uint64(v) => DataValue::Uint64(v),
                TypedValue::Float(v) => DataValue::Float(v),
                TypedValue::Double(v) => DataValue::Double(v),
                TypedValue::StringArray(a) => DataValue::StringArray(a),
                TypedValue::BoolArray(a) => DataValue::BoolArray(a),
                TypedValue::Int32Array(a) => DataValue::Int32Array(a),
                TypedValue::Int64Array(a) => DataValue::Int64Array(a),
                TypedValue::Uint32Array(a) => DataValue::Uint32Array(a),
                TypedValue::Uint64Array(a) => DataValue::Uint64Array(a),
                TypedValue::FloatArray(a) => DataValue::FloatArray(a),
                TypedValue::DoubleArray(a) => DataValue::DoubleArray(a),
            },
            Some(ValueState::Value(None)) => DataValue::NotAvailable,
            Some(ValueState::Failure(_)) => DataValue::NotAvailable,
            None => DataValue::NotAvailable,
        }
    }
}

/// The datapoint stored for what a producer sent, accepted at broker time
/// `now`; the producer's timestamp is carried through as it came.
pub open spec fn datapoint_of_wire(d: WireDatapoint, now: u64) -> DatapointModel {
    DatapointModel { value: value_of_state(d.value_state), ts: now, source_ts: d.timestamp }
}

impl Datapoint {
    /// The datapoint for a producer's datapoint received at broker time `now`.
    pub fn from_wire(datapoint: WireDatapoint, now: u64) -> (r: Datapoint)
        ensures
            r@ == datapoint_of_wire(datapoint, now),
    {
        let source_ts = datapoint.timestamp;
        let value = DataValue::from_wire(datapoint);
        Datapoint { value, ts: now, source_ts }
    }
}

} // verus!
