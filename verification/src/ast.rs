//! Expression trees.
//!
//! A tree is built by a front end and only read here. Floating-point
//! literals are carried as their IEEE 754 bit patterns, so that every value
//! that passes through the evaluator is a plain integer.
use vstd::prelude::*;

verus! {

/// The four numeric representations ("lanes") a sub-expression can be
/// evaluated in.
#[derive(Clone, Copy, Debug, PartialEq, Eq, Structural)]
pub enum Typ {
    F32,
    F64,
    I32,
    I64,
}

/// A literal, tagged with its lane.
///
/// `F32Const` and `F64Const` hold the bit pattern of the float.
#[derive(Clone, Copy, Debug, PartialEq, Eq, Structural)]
pub enum Const {
    F32Const(u32),
    F64Const(u64),
    I32Const(u32),
    I64Const(u64),
}

/// Binary operators.
#[derive(Clone, Copy, Debug, PartialEq, Eq, Structural)]
pub enum BinOp {
    Add,
    And,
    DivS,
    DivU,
    Eq,
    GeS,
    GeU,
    GtS,
    GtU,
    LeS,
    LeU,
    LtS,
    LtU,
    Mul,
    Ne,
    Or,
    RemS,
    RemU,
    RotL,
    RotR,
    Shl,
    ShrS,
    ShrU,
    Sub,
    Xor,
}

/// Unary operators.
#[derive(Clone, Copy, Debug, PartialEq, Eq, Structural)]
pub enum UnaryOp {
    Clz,
    Ctz,
    Popcnt,
    Eqz,
}

/// A local variable, named by its slot in the register file.
#[derive(Clone, Copy, Debug, PartialEq, Eq, Structural)]
pub struct Var {
    pub position: usize,
}

/// An expression.
///
/// The lane tag of `BinOpExpr` and `UnaryOpExpr` records the operand type the
/// front end saw; evaluation does not consult it, because the lane of an
/// operator node is the lane its parent asks for.
#[derive(Debug, PartialEq, Eq)]
pub enum Expr {
    BinOpExpr(Typ, BinOp, Box<Expr>, Box<Expr>),
    ConstExpr(Const),
    GetLocalExpr(Var),
    GrowMemoryExpr(Box<Expr>),
    IfThenExpr(Box<Expr>, Box<Expr>),
    IfThenElseExpr(Box<Expr>, Box<Expr>, Box<Expr>),
    LoadExpr(Typ, Box<Expr>),
    NopExpr,
    SetLocalExpr(Var, Box<Expr>),
    StoreExpr(Typ, Box<Expr>, Box<Expr>),
    UnaryOpExpr(Typ, UnaryOp, Box<Expr>),
}

impl Typ {
    /// The number of bytes a value of this lane occupies in linear memory.
    pub open spec fn size(self) -> nat {
        match self {
            Typ::F32 | Typ::I32 => 4,
            Typ::F64 | Typ::I64 => 8,
        }
    }

    /// The number of bytes a value of this lane occupies in linear memory.
    pub fn width(&self) -> (n: usize)
        ensures
            n == self.size(),
    {
        match self {
            Typ::F32 | Typ::I32 => 4,
            Typ::F64 | Typ::I64 => 8,
        }
    }
}

impl Const {
    /// The lane of the literal.
    pub open spec fn typ(self) -> Typ {
        match self {
            Const::F32Const(_) => Typ::F32,
            Const::F64Const(_) => Typ::F64,
            Const::I32Const(_) => Typ::I32,
            Const::I64Const(_) => Typ::I64,
        }
    }

    /// The lane of the literal.
    pub fn lane(&self) -> (typ: Typ)
        ensures
            typ == self.typ(),
    {
        match self {
            Const::F32Const(_) => Typ::F32,
            Const::F64Const(_) => Typ::F64,
            Const::I32Const(_) => Typ::I32,
            Const::I64Const(_) => Typ::I64,
        }
    }
}

} // verus!
