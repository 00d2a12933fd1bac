use vstd::prelude::*;

verus! {

/// A point in time as seconds and nanoseconds since the UNIX epoch, as a
/// producer supplies it.
#[derive(Clone, Copy, Debug, PartialEq, Eq, Structural)]
pub struct Timestamp {
    pub seconds: i64,
    pub nanos: i32,
}

/// The declared type of a signal.
#[derive(Clone, Copy, Debug, PartialEq, Eq, Structural)]
pub enum DataType {
    String,
    Bool,
    Int32,
    Int64,
    Uint32,
    Uint64,
    Float,
    Double,
    StringArray,
    BoolArray,
    Int32Array,
    Int64Array,
    Uint32Array,
    Uint64Array,
    FloatArray,
    DoubleArray,
}

/// A signal value. Floating-point values are held as their IEEE-754 bit
/// patterns (`f32::to_bits`, `f64::to_bits`).
#[derive(Debug, Clone)]
pub enum DataValue {
    NotAvailable,
    String(String),
    Bool(bool),
    Int32(i32),
    Int64(i64),
    Uint32(u32),
    Uint64(u64),
    Float(u32),
    Double(u64),
    StringArray(Vec<String>),
    BoolArray(Vec<bool>),
    Int32Array(Vec<i32>),
    Int64Array(Vec<i64>),
    Uint32Array(Vec<u32>),
    Uint64Array(Vec<u64>),
    FloatArray(Vec<u32>),
    DoubleArray(Vec<u64>),
}

/// The mathematical value of a `DataValue`.
pub enum ValueModel {
    NotAvailable,
    String(Seq<char>),
    Bool(bool),
    Int32(i32),
    Int64(i64),
    Uint32(u32),
    Uint64(u64),
    Float(u32),
    Double(u64),
    StringArray(Seq<Seq<char>>),
    BoolArray(Seq<bool>),
    Int32Array(Seq<i32>),
    Int64Array(Seq<i64>),
    Uint32Array(Seq<u32>),
    Uint64Array(Seq<u64>),
    FloatArray(Seq<u32>),
    DoubleArray(Seq<u64>),
}

pub open spec fn strings_model(v: Seq<String>) -> Seq<Seq<char>> {
    v.map_values(|s: String| s@)
}

impl View for DataValue {
    type V = ValueModel;

    open spec fn view(&self) -> ValueModel {
        match self {
            DataValue::NotAvailable => ValueModel::NotAvailable,
            DataValue::String(s) => ValueModel::String(s@),
            DataValue::Bool(b) => ValueModel::Bool(*b),
            DataValue::Int32(x) => ValueModel::Int32(*x),
            DataValue::Int64(x) => ValueModel::Int64(*x),
            DataValue::Uint32(x) => ValueModel::Uint32(*x),
            DataValue::Uint64(x) => ValueModel::Uint64(*x),
            DataValue::Float(x) => ValueModel::Float(*x),
            DataValue::Double(x) => ValueModel::Double(*x),
            DataValue::StringArray(a) => ValueModel::StringArray(strings_model(a@)),
            DataValue::BoolArray(a) => ValueModel::BoolArray(a@),
            DataValue::Int32Array(a) => ValueModel::Int32Array(a@),
            DataValue::Int64Array(a) => ValueModel::Int64Array(a@),
            DataValue::Uint32Array(a) => ValueModel::Uint32Array(a@),
            DataValue::Uint64Array(a) => ValueModel::Uint64Array(a@),
            DataValue::FloatArray(a) => ValueModel::FloatArray(a@),
            DataValue::DoubleArray(a) => ValueModel::DoubleArray(a@),
        }
    }
}

/// The type a value belongs to; `None` for `NotAvailable`, which fits every type.
pub open spec fn type_of(v: ValueModel) -> Option<DataType> {
    match v {
        ValueModel::NotAvailable => None,
        ValueModel::String(_) => Some(DataType::String),
        ValueModel::Bool(_) => Some(DataType::Bool),
        ValueModel::Int32(_) => Some(DataType::Int32),
        ValueModel::Int64(_) => Some(DataType::Int64),
        ValueModel::Uint32(_) => Some(DataType::Uint32),
        ValueModel::Uint64(_) => Some(DataType::Uint64),
        ValueModel::Float(_) => Some(DataType::Float),
        ValueModel::Double(_) => Some(DataType::Double),
        ValueModel::StringArray(_) => Some(DataType::StringArray),
        ValueModel::BoolArray(_) => Some(DataType::BoolArray),
        ValueModel::Int32Array(_) => Some(DataType::Int32Array),
        ValueModel::Int64Array(_) => Some(DataType::Int64Array),
        ValueModel::Uint32Array(_) => Some(DataType::Uint32Array),
        ValueModel::Uint64Array(_) => Some(DataType::Uint64Array),
        ValueModel::FloatArray(_) => Some(DataType::FloatArray),
        ValueModel::DoubleArray(_) => Some(DataType::DoubleArray),
    }
}

impl DataValue {
    /// The type of this value; `None` for `NotAvailable`.
    pub fn data_type(&self) -> (r: Option<DataType>)
        ensures
            r == type_of(self@),
    {
        match self {
            DataValue::NotAvailable => None,
            DataValue::String(_) => Some(DataType::String),
            DataValue::Bool(_) => Some(DataType::Bool),
            DataValue::Int32(_) => Some(DataType::Int32),
            DataValue::Int64(_) => Some(DataType::Int64),
            DataValue::Uint32(_) => Some(DataType::Uint32),
            DataValue::Uint64(_) => Some(DataType::Uint64),
            DataValue::Float(_) => Some(DataType::Float),
            DataValue::Double(_) => Some(DataType::Double),
            DataValue::StringArray(_) => Some(DataType::StringArray),
            DataValue::BoolArray(_) => Some(DataType::BoolArray),
            DataValue::Int32Array(_) => Some(DataType::Int32Array),
            DataValue::Int64Array(_) => Some(DataType::Int64Array),
            DataValue::Uint32Array(_) => Some(DataType::Uint32Array),
            DataValue::Uint64Array(_) => Some(DataType::Uint64Array),
            DataValue::FloatArray(_) => Some(DataType::FloatArray),
            DataValue::DoubleArray(_) => Some(DataType::DoubleArray),
        }
    }

    /// Whether two values are the same value of the same type.
    pub fn same_as(&self, other: &DataValue) -> (r: bool)
        ensures
            r == (self@ == other@),
    {
        match (self, other) {
            (DataValue::NotAvailable, DataValue::NotAvailable) => true,
            (DataValue::String(a), DataValue::String(b)) => a.eq(b),
            (DataValue::Bool(a), DataValue::Bool(b)) => *a == *b,
            (DataValue::Int32(a), DataValue::Int32(b)) => *a == *b,
            (DataValue::Int64(a), DataValue::Int64(b)) => *a == *b,
            (DataValue::Uint32(a), DataValue::Uint32(b)) => *a == *b,
            (DataValue::Uint64(a), DataValue::Uint64(b)) => *a == *b,
            (DataValue::Float(a), DataValue::Float(b)) => *a == *b,
            (DataValue::Double(a), DataValue::Double(b)) => *a == *b,
            (DataValue::StringArray(a), DataValue::StringArray(b)) => strings_equal(a, b),
            (DataValue::BoolArray(a), DataValue::BoolArray(b)) => bools_equal(a, b),
            (DataValue::Int32Array(a), DataValue::Int32Array(b)) => i32s_equal(a, b),
            (DataValue::Int64Array(a), DataValue::Int64Array(b)) => i64s_equal(a, b),
            (DataValue::Uint32Array(a), DataValue::Uint32Array(b)) => u32s_equal(a, b),
            (DataValue::Uint64Array(a), DataValue::Uint64Array(b)) => u64s_equal(a, b),
            (DataValue::FloatArray(a), DataValue::FloatArray(b)) => u32s_equal(a, b),
            (DataValue::DoubleArray(a), DataValue::DoubleArray(b)) => u64s_equal(a, b),
            _ => false,
        }
    }
}

fn strings_equal(a: &Vec<String>, b: &Vec<String>) -> (r: bool)
    ensures
        r == (strings_model(a@) == strings_model(b@)),
{
    if a.len() != b.len() {
        proof {
            assert(strings_model(a@).len() != strings_model(b@).len());
        }
        return false;
    }
    let mut i: usize = 0;
    while i < a.len()
        invariant
            a@.len() == b@.len(),
            i <= a@.len(),
            forall|k: int| 0 <= k < i ==> a@[k]@ == b@[k]@,
        decreases a@.len() - i,
    {
        if a[i] != b[i] {
            proof {
                assert(strings_model(a@)[i as int] != strings_model(b@)[i as int]);
            }
            return false;
        }
        i = i + 1;
    }
    proof {
        assert(strings_model(a@) =~= strings_model(b@));
    }
    true
}

fn bools_equal(a: &Vec<bool>, b: &Vec<bool>) -> (r: bool)
    ensures
        r == (a@ == b@),
{
    if a.len() != b.len() {
        return false;
    }
    let mut i: usize = 0;
    while i < a.len()
        invariant
            a@.len() == b@.len(),
            i <= a@.len(),
            forall|k: int| 0 <= k < i ==> a@[k] == b@[k],
        decreases a@.len() - i,
    {
        if a[i] != b[i] {
            return false;
        }
        i = i + 1;
    }
    proof {
        assert(a@ =~= b@);
    }
    true
}

fn i32s_equal(a: &Vec<i32>, b: &Vec<i32>) -> (r: bool)
    ensures
        r == (a@ == b@),
{
    if a.len() != b.len() {
        return false;
    }
    let mut i: usize = 0;
    while i < a.len()
        invariant
            a@.len() == b@.len(),
            i <= a@.len(),
            forall|k: int| 0 <= k < i ==> a@[k] == b@[k],
        decreases a@.len() - i,
    {
        if a[i] != b[i] {
            return false;
        }
        i = i + 1;
    }
    proof {
        assert(a@ =~= b@);
    }
    true
}

fn i64s_equal(a: &Vec<i64>, b: &Vec<i64>) -> (r: bool)
    ensures
        r == (a@ == b@),
{
    if a.len() != b.len() {
        return false;
    }
    let mut i: usize = 0;
    while i < a.len()
        invariant
            a@.len() == b@.len(),
            i <= a@.len(),
            forall|k: int| 0 <= k < i ==> a@[k] == b@[k],
        decreases a@.len() - i,
    {
        if a[i] != b[i] {
            return false;
        }
        i = i + 1;
    }
    proof {
        assert(a@ =~= b@);
    }
    true
}

fn u32s_equal(a: &Vec<u32>, b: &Vec<u32>) -> (r: bool)
    ensures
        r == (a@ == b@),
{
    if a.len() != b.len() {
        return false;
    }
    let mut i: usize = 0;
    while i < a.len()
        invariant
            a@.len() == b@.len(),
            i <= a@.len(),
            forall|k: int| 0 <= k < i ==> a@[k] == b@[k],
        decreases a@.len() - i,
    {
        if a[i] != b[i] {
            return false;
        }
        i = i + 1;
    }
    proof {
        assert(a@ =~= b@);
    }
    true
}

fn u64s_equal(a: &Vec<u64>, b: &Vec<u64>) -> (r: bool)
    ensures
        r == (a@ == b@),
{
    if a.len() != b.len() {
        return false;
    }
    let mut i: usize = 0;
    while i < a.len()
        invariant
            a@.len() == b@.len(),
            i <= a@.len(),
            forall|k: int| 0 <= k < i ==> a@[k] == b@[k],
        decreases a@.len() - i,
    {
        if a[i] != b[i] {
            return false;
        }
        i = i + 1;
    }
    proof {
        assert(a@ =~= b@);
    }
    true
}

} // verus!
