//! Lane values.
//!
//! A value is a bit pattern together with the lane it belongs to. The two
//! float lanes hold IEEE 754 bit patterns; nothing here looks inside them.
use vstd::prelude::*;
use crate::ast::{Const, Typ};

verus! {

/// A value of one of the four lanes.
#[derive(Clone, Copy, Debug, PartialEq, Eq, Structural)]
pub enum Value {
    F32(u32),
    F64(u64),
    I32(u32),
    I64(u64),
}

impl Value {
    /// The lane of the value.
    pub open spec fn typ(self) -> Typ {
        match self {
            Value::F32(_) => Typ::F32,
            Value::F64(_) => Typ::F64,
            Value::I32(_) => Typ::I32,
            Value::I64(_) => Typ::I64,
        }
    }

    /// The bit pattern of the value as it stands in a 64-bit register slot:
    /// a 32-bit pattern fills the low half and leaves the high half zero.
    pub open spec fn bits(self) -> u64 {
        match self {
            Value::F32(b) => b as u64,
            Value::F64(b) => b,
            Value::I32(b) => b as u64,
            Value::I64(b) => b,
        }
    }

    /// The value of lane `typ` that a register slot holding `bits` stands
    /// for. A 32-bit lane reads the low half of the slot and ignores the
    /// rest.
    pub open spec fn of_bits(typ: Typ, bits: u64) -> Value {
        match typ {
            Typ::F32 => Value::F32((bits % 0x1_0000_0000) as u32),
            Typ::F64 => Value::F64(bits),
            Typ::I32 => Value::I32((bits % 0x1_0000_0000) as u32),
            Typ::I64 => Value::I64(bits),
        }
    }

    /// The zero of lane `typ`.
    pub open spec fn zero(typ: Typ) -> Value {
        Value::of_bits(typ, 0)
    }

    /// The value a literal stands for.
    pub open spec fn of_const(literal: Const) -> Value {
        match literal {
            Const::F32Const(b) => Value::F32(b),
            Const::F64Const(b) => Value::F64(b),
            Const::I32Const(b) => Value::I32(b),
            Const::I64Const(b) => Value::I64(b),
        }
    }

    /// The lane of the value.
    pub fn lane(&self) -> (typ: Typ)
        ensures
            typ == self.typ(),
    {
        match self {
            Value::F32(_) => Typ::F32,
            Value::F64(_) => Typ::F64,
            Value::I32(_) => Typ::I32,
            Value::I64(_) => Typ::I64,
        }
    }

    /// Lifts a literal into its lane.
    pub fn from_constant(literal: &Const) -> (value: Value)
        ensures
            value == Value::of_const(*literal),
    {
        match literal {
            Const::F32Const(b) => Value::F32(*b),
            Const::F64Const(b) => Value::F64(*b),
            Const::I32Const(b) => Value::I32(*b),
            Const::I64Const(b) => Value::I64(*b),
        }
    }

    /// Reads a register slot as a value of lane `typ`. The bits are taken as
    /// they are; a 32-bit lane drops the high half.
    pub fn from_raw(typ: Typ, bits: u64) -> (value: Value)
        ensures
            value == Value::of_bits(typ, bits),
    {
        match typ {
            Typ::F32 => Value::F32(low_half(bits)),
            Typ::F64 => Value::F64(bits),
            Typ::I32 => Value::I32(low_half(bits)),
            Typ::I64 => Value::I64(bits),
        }
    }

    /// The register slot that holds the value.
    pub fn to_raw(self) -> (bits: u64)
        ensures
            bits == self.bits(),
    {
        match self {
            Value::F32(b) => b as u64,
            Value::F64(b) => b,
            Value::I32(b) => b as u64,
            Value::I64(b) => b,
        }
    }

    /// The zero of lane `typ`: what an expression that computes nothing
    /// evaluates to.
    pub fn default_value(typ: Typ) -> (value: Value)
        ensures
            value == Value::zero(typ),
    {
        match typ {
            Typ::F32 => Value::F32(0),
            Typ::F64 => Value::F64(0),
            Typ::I32 => Value::I32(0),
            Typ::I64 => Value::I64(0),
        }
    }
}

/// The low 32 bits of a register slot.
fn low_half(bits: u64) -> (low: u32)
    ensures
        low == bits % 0x1_0000_0000,
{
    assert(bits as u32 == bits % 0x1_0000_0000) by (bit_vector);
    #[verifier::truncate]
    (bits as u32)
}

/// A value written to a register slot and read back in its own lane is the
/// value that was written.
pub proof fn lemma_raw_round_trip(value: Value)
    ensures
        Value::of_bits(value.typ(), value.bits()) == value,
{
}

} // verus!
