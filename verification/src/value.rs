//! Plain model of the values the VM exchanges with a binding.
//!
//! A binding's hooks receive addresses and operands from the VM and hand
//! numeric results back.  At the binding boundary only two shapes matter:
//! the null sentinel (unassigned slot, out-of-range address, unsupported
//! tag) and a number.  Soft errors are always resolved to `Null`, never
//! surfaced as a VM-visible error.

use vstd::prelude::*;

verus! {

/// A value at the binding boundary: the null sentinel or a number.
#[derive(Clone, Copy, PartialEq, Eq, Structural, Debug)]
pub enum Value {
    Null,
    Num(i64),
}

/// Sensor tags a binding may be asked for.  Tags outside the closed set a
/// binding recognises resolve to "unsupported" (a `None` result).
#[derive(Clone, Copy, PartialEq, Eq, Structural, Debug)]
pub enum SensorTag {
    MemoryCapacity,
    BufferSize,
    DisplayWidth,
    DisplayHeight,
    Operations,
    Unrecognized,
}

/// The slot index an address denotes: a number that is representable as an
/// index on the target (non-negative, within 32 bits).  Anything else is
/// not an index, and an operation given it stays inert.
pub open spec fn spec_index_of(v: Value) -> Option<usize> {
    match v {
        Value::Num(n) => if 0 <= n <= 0xFFFF_FFFFi64 {
            Some(n as usize)
        } else {
            None
        },
        Value::Null => None,
    }
}

/// The numeric reading of a value: the null sentinel counts as zero.
pub open spec fn spec_numi(v: Value) -> i64 {
    match v {
        Value::Num(n) => n,
        Value::Null => 0,
    }
}

/// Truthiness of a value: the null sentinel and zero are false, every
/// other number is true.
pub open spec fn spec_truthy(v: Value) -> bool {
    match v {
        Value::Num(n) => n != 0,
        Value::Null => false,
    }
}

impl Value {
    /// Converts an address value to a slot index, or `None` when the value
    /// does not denote one.
    pub fn index(&self) -> (r: Option<usize>)
        ensures
            r == spec_index_of(*self),
    {
        match *self {
            Value::Num(n) => if 0 <= n && n <= 0xFFFF_FFFFi64 {
                Some(n as usize)
            } else {
                None
            },
            Value::Null => None,
        }
    }

    /// The numeric reading of the value.
    pub fn numi(&self) -> (r: i64)
        ensures
            r == spec_numi(*self),
    {
        match *self {
            Value::Num(n) => n,
            Value::Null => 0,
        }
    }

    /// Truthiness of the value.
    pub fn truthy(&self) -> (r: bool)
        ensures
            r == spec_truthy(*self),
    {
        match *self {
            Value::Num(n) => n != 0,
            Value::Null => false,
        }
    }

    /// The numeric form of a boolean: `1` for true, `0` for false.
    pub fn from_bool(b: bool) -> (r: Value)
        ensures
            r == Value::Num(if b { 1 } else { 0 }),
    {
        if b {
            Value::Num(1)
        } else {
            Value::Num(0)
        }
    }
}

} // verus!
