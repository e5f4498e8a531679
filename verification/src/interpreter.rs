//! The evaluator.
//!
//! [`eval`] says what evaluating a tree computes: a result and the register
//! file and memory it leaves behind. [`Program::evaluate`] computes it, and
//! [`Program::interpret_expr`] is the same walk for trees that are known to
//! run to the end.
//!
//! Every sub-expression is evaluated in a lane fixed by its place in the
//! tree: conditions, addresses and growth sizes in the 32-bit integer lane,
//! a stored value in the lane of its store, anything else in the lane of its
//! parent. Nothing converts between lanes.
use vstd::prelude::*;
use vstd::pervasive::unreached;
use crate::ast::{BinOp, Expr, Typ, UnaryOp, Var};
use crate::memory::{
    decode, decoded, encode, encoded, grow, in_bounds, lemma_le_bytes_len, overwritten, zeros,
};
use crate::numeric::{binop, unop};
use crate::value::{lemma_raw_round_trip, Value};
use crate::Program;

verus! {

/// Why an evaluation stopped short of a result.
#[derive(Clone, Copy, Debug, PartialEq, Eq, Structural)]
pub enum Fault {
    /// A value of one lane turned up where another lane was asked for, or an
    /// operator was applied in a lane that does not have it.
    TypeError,
    /// A load or a store reached past the end of the memory.
    OutOfBounds,
    /// An integer division or remainder by zero.
    DivisionByZero,
    /// A local variable outside the register file.
    NoSuchLocal,
}

/// Where an evaluation ends: its result, and the register file and memory as
/// it leaves them. After a fault these are as they stood when it struck.
pub struct Step {
    pub result: Result<Value, Fault>,
    pub locals: Seq<u64>,
    pub heap: Seq<u8>,
}

/// `value` where lane `typ` is asked for: itself if it is of that lane, a
/// type error otherwise.
pub open spec fn in_lane(typ: Typ, value: Value) -> Result<Value, Fault> {
    if value.typ() == typ {
        Ok(value)
    } else {
        Err(Fault::TypeError)
    }
}

/// A binary operator applied to two values. Only the 32-bit integer lane has
/// binary operators.
pub open spec fn apply_binop(op: BinOp, lhs: Value, rhs: Value) -> Result<Value, Fault> {
    match (lhs, rhs) {
        (Value::I32(a), Value::I32(b)) => if op.divides() && b == 0 {
            Err(Fault::DivisionByZero)
        } else {
            Ok(Value::I32(binop(op, a, b)))
        },
        _ => Err(Fault::TypeError),
    }
}

/// A unary operator applied to a value. Only the 32-bit integer lane has
/// unary operators.
pub open spec fn apply_unop(op: UnaryOp, arg: Value) -> Result<Value, Fault> {
    match arg {
        Value::I32(a) => Ok(Value::I32(unop(op, a))),
        _ => Err(Fault::TypeError),
    }
}

/// What evaluating `expr` in lane `typ` computes, starting from the register
/// file `locals` and the memory `heap`.
///
/// Sub-expressions are evaluated from left to right, each from the state the
/// one before it left. The first fault ends the evaluation.
pub open spec fn eval(typ: Typ, expr: Expr, locals: Seq<u64>, heap: Seq<u8>) -> Step
    decreases expr,
{
    match expr {
        Expr::BinOpExpr(_, op, lhs, rhs) => {
            let l = eval(typ, *lhs, locals, heap);
            match l.result {
                Ok(a) => {
                    let r = eval(typ, *rhs, l.locals, l.heap);
                    match r.result {
                        Ok(b) => Step { result: apply_binop(op, a, b), locals: r.locals, heap: r.heap },
                        Err(_) => r,
                    }
                },
                Err(_) => l,
            }
        },
        Expr::ConstExpr(literal) => Step { result: in_lane(typ, Value::of_const(literal)), locals, heap },
        Expr::GetLocalExpr(var) => if var.position < locals.len() {
            Step { result: Ok(Value::of_bits(typ, locals[var.position as int])), locals, heap }
        } else {
            Step { result: Err(Fault::NoSuchLocal), locals, heap }
        },
        Expr::GrowMemoryExpr(ext) => {
            let e = eval(Typ::I32, *ext, locals, heap);
            match e.result {
                Ok(Value::I32(delta)) => Step {
                    result: in_lane(typ, Value::of_bits(Typ::I32, e.heap.len() as u64)),
                    locals: e.locals,
                    heap: e.heap + zeros(delta as nat),
                },
                Ok(_) => Step { result: Err(Fault::TypeError), locals: e.locals, heap: e.heap },
                Err(_) => e,
            }
        },
        Expr::IfThenExpr(cond, true_branch) => {
            let c = eval(Typ::I32, *cond, locals, heap);
            match c.result {
                Ok(Value::I32(flag)) => if flag == 0 {
                    Step { result: Ok(Value::zero(typ)), locals: c.locals, heap: c.heap }
                } else {
                    eval(typ, *true_branch, c.locals, c.heap)
                },
                Ok(_) => Step { result: Err(Fault::TypeError), locals: c.locals, heap: c.heap },
                Err(_) => c,
            }
        },
        Expr::IfThenElseExpr(cond, true_branch, false_branch) => {
            let c = eval(Typ::I32, *cond, locals, heap);
            match c.result {
                Ok(Value::I32(flag)) => if flag == 0 {
                    eval(typ, *false_branch, c.locals, c.heap)
                } else {
                    eval(typ, *true_branch, c.locals, c.heap)
                },
                Ok(_) => Step { result: Err(Fault::TypeError), locals: c.locals, heap: c.heap },
                Err(_) => c,
            }
        },
        Expr::LoadExpr(lane, addr) => {
            let a = eval(Typ::I32, *addr, locals, heap);
            match a.result {
                Ok(Value::I32(offset)) => if in_bounds(a.heap.len(), offset as nat, lane.size()) {
                    Step {
                        result: in_lane(
                            typ,
                            decoded(lane, a.heap.subrange(offset as int, offset + lane.size())),
                        ),
                        locals: a.locals,
                        heap: a.heap,
                    }
                } else {
                    Step { result: Err(Fault::OutOfBounds), locals: a.locals, heap: a.heap }
                },
                Ok(_) => Step { result: Err(Fault::TypeError), locals: a.locals, heap: a.heap },
                Err(_) => a,
            }
        },
        Expr::NopExpr => Step { result: Ok(Value::zero(typ)), locals, heap },
        Expr::SetLocalExpr(var, value) => {
            let v = eval(typ, *value, locals, heap);
            match v.result {
                Ok(x) => if var.position < v.locals.len() {
                    Step {
                        result: Ok(x),
                        locals: v.locals.update(var.position as int, x.bits()),
                        heap: v.heap,
                    }
                } else {
                    Step { result: Err(Fault::NoSuchLocal), locals: v.locals, heap: v.heap }
                },
                Err(_) => v,
            }
        },
        Expr::StoreExpr(lane, addr, value) => {
            let a = eval(Typ::I32, *addr, locals, heap);
            match a.result {
                Ok(Value::I32(offset)) => {
                    let v = eval(lane, *value, a.locals, a.heap);
                    match v.result {
                        Ok(x) => if in_bounds(v.heap.len(), offset as nat, lane.size()) {
                            Step {
                                result: in_lane(typ, x),
                                locals: v.locals,
                                heap: overwritten(v.heap, offset as int, encoded(x)),
                            }
                        } else {
                            Step { result: Err(Fault::OutOfBounds), locals: v.locals, heap: v.heap }
                        },
                        Err(_) => v,
                    }
                },
                Ok(_) => Step { result: Err(Fault::TypeError), locals: a.locals, heap: a.heap },
                Err(_) => a,
            }
        },
        Expr::UnaryOpExpr(_, op, arg) => {
            let a = eval(typ, *arg, locals, heap);
            match a.result {
                Ok(x) => Step { result: apply_unop(op, x), locals: a.locals, heap: a.heap },
                Err(_) => a,
            }
        },
    }
}

/// An evaluation in lane `typ` that runs to the end gives a value of lane
/// `typ`.
pub proof fn lemma_eval_lane(typ: Typ, expr: Expr, locals: Seq<u64>, heap: Seq<u8>)
    ensures
        eval(typ, expr, locals, heap).result matches Ok(value) ==> value.typ() == typ,
    decreases expr,
{
    match expr {
        Expr::BinOpExpr(_, _, lhs, rhs) => {
            let l = eval(typ, *lhs, locals, heap);
            lemma_eval_lane(typ, *lhs, locals, heap);
            lemma_eval_lane(typ, *rhs, l.locals, l.heap);
        },
        Expr::IfThenExpr(cond, true_branch) => {
            let c = eval(Typ::I32, *cond, locals, heap);
            lemma_eval_lane(typ, *true_branch, c.locals, c.heap);
        },
        Expr::IfThenElseExpr(cond, true_branch, false_branch) => {
            let c = eval(Typ::I32, *cond, locals, heap);
            lemma_eval_lane(typ, *true_branch, c.locals, c.heap);
            lemma_eval_lane(typ, *false_branch, c.locals, c.heap);
        },
        Expr::SetLocalExpr(_, value) => {
            lemma_eval_lane(typ, *value, locals, heap);
        },
        Expr::UnaryOpExpr(_, _, arg) => {
            lemma_eval_lane(typ, *arg, locals, heap);
        },
        _ => {},
    }
}

/// An evaluation never shortens the register file or the memory.
pub proof fn lemma_eval_keeps_sizes(typ: Typ, expr: Expr, locals: Seq<u64>, heap: Seq<u8>)
    ensures
        eval(typ, expr, locals, heap).locals.len() == locals.len(),
        eval(typ, expr, locals, heap).heap.len() >= heap.len(),
    decreases expr,
{
    match expr {
        Expr::BinOpExpr(_, _, lhs, rhs) => {
            let l = eval(typ, *lhs, locals, heap);
            lemma_eval_keeps_sizes(typ, *lhs, locals, heap);
            lemma_eval_keeps_sizes(typ, *rhs, l.locals, l.heap);
        },
        Expr::GrowMemoryExpr(ext) => {
            lemma_eval_keeps_sizes(Typ::I32, *ext, locals, heap);
        },
        Expr::IfThenExpr(cond, true_branch) => {
            let c = eval(Typ::I32, *cond, locals, heap);
            lemma_eval_keeps_sizes(Typ::I32, *cond, locals, heap);
            lemma_eval_keeps_sizes(typ, *true_branch, c.locals, c.heap);
        },
        Expr::IfThenElseExpr(cond, true_branch, false_branch) => {
            let c = eval(Typ::I32, *cond, locals, heap);
            lemma_eval_keeps_sizes(Typ::I32, *cond, locals, heap);
            lemma_eval_keeps_sizes(typ, *true_branch, c.locals, c.heap);
            lemma_eval_keeps_sizes(typ, *false_branch, c.locals, c.heap);
        },
        Expr::LoadExpr(_, addr) => {
            lemma_eval_keeps_sizes(Typ::I32, *addr, locals, heap);
        },
        Expr::SetLocalExpr(_, value) => {
            lemma_eval_keeps_sizes(typ, *value, locals, heap);
        },
        Expr::StoreExpr(lane, addr, value) => {
            let a = eval(Typ::I32, *addr, locals, heap);
            lemma_eval_keeps_sizes(Typ::I32, *addr, locals, heap);
            lemma_eval_keeps_sizes(lane, *value, a.locals, a.heap);
            let v = eval(lane, *value, a.locals, a.heap);
            if let Ok(x) = v.result {
                lemma_le_bytes_len(x.bits() as nat, x.typ().size());
            }
        },
        Expr::UnaryOpExpr(_, _, arg) => {
            lemma_eval_keeps_sizes(typ, *arg, locals, heap);
        },
        _ => {},
    }
}

/// Writing a local gives the value it stores: reading the same local right
/// after, in the same lane, gives that value again and changes nothing.
pub proof fn lemma_set_then_get(typ: Typ, var: Var, value: Expr, locals: Seq<u64>, heap: Seq<u8>)
    requires
        eval(typ, Expr::SetLocalExpr(var, Box::new(value)), locals, heap).result is Ok,
    ensures
        ({
            let written = eval(typ, Expr::SetLocalExpr(var, Box::new(value)), locals, heap);
            let read = eval(typ, Expr::GetLocalExpr(var), written.locals, written.heap);
            &&& written.result == eval(typ, value, locals, heap).result
            &&& read.result == written.result
            &&& read.locals == written.locals
            &&& read.heap == written.heap
        }),
{
    lemma_eval_lane(typ, value, locals, heap);
    lemma_eval_keeps_sizes(typ, value, locals, heap);
    let v = eval(typ, value, locals, heap);
    lemma_raw_round_trip(v.result->Ok_0);
}

/// A conditional without an else-branch whose condition is zero gives the
/// zero of its lane and leaves the state as the condition left it: the
/// branch is not evaluated.
pub proof fn lemma_if_then_skips(
    typ: Typ,
    cond: Expr,
    true_branch: Expr,
    locals: Seq<u64>,
    heap: Seq<u8>,
)
    requires
        eval(Typ::I32, cond, locals, heap).result == Ok::<Value, Fault>(Value::I32(0)),
    ensures
        ({
            let c = eval(Typ::I32, cond, locals, heap);
            let whole = eval(
                typ,
                Expr::IfThenExpr(Box::new(cond), Box::new(true_branch)),
                locals,
                heap,
            );
            &&& whole.result == Ok::<Value, Fault>(Value::zero(typ))
            &&& whole.locals == c.locals
            &&& whole.heap == c.heap
        }),
{
}

/// A conditional whose condition is not zero is its true branch, evaluated
/// from the state the condition left.
pub proof fn lemma_if_then_takes(
    typ: Typ,
    cond: Expr,
    true_branch: Expr,
    locals: Seq<u64>,
    heap: Seq<u8>,
)
    requires
        eval(Typ::I32, cond, locals, heap).result matches Ok(Value::I32(flag)) && flag != 0,
    ensures
        ({
            let c = eval(Typ::I32, cond, locals, heap);
            eval(typ, Expr::IfThenExpr(Box::new(cond), Box::new(true_branch)), locals, heap)
                == eval(typ, true_branch, c.locals, c.heap)
        }),
{
}

/// A conditional with an else-branch is the one branch its condition picks,
/// evaluated from the state the condition left: the false branch for zero,
/// the true branch otherwise. The other branch is not evaluated.
pub proof fn lemma_if_then_else_picks(
    typ: Typ,
    cond: Expr,
    true_branch: Expr,
    false_branch: Expr,
    locals: Seq<u64>,
    heap: Seq<u8>,
)
    requires
        eval(Typ::I32, cond, locals, heap).result is Ok,
    ensures
        ({
            let c = eval(Typ::I32, cond, locals, heap);
            let whole = eval(
                typ,
                Expr::IfThenElseExpr(Box::new(cond), Box::new(true_branch), Box::new(false_branch)),
                locals,
                heap,
            );
            if c.result == Ok::<Value, Fault>(Value::I32(0)) {
                whole == eval(typ, false_branch, c.locals, c.heap)
            } else {
                whole == eval(typ, true_branch, c.locals, c.heap)
            }
        }),
{
    lemma_eval_lane(Typ::I32, cond, locals, heap);
}

/// Growing the memory gives the length it had, as a 32-bit integer, and
/// leaves it longer by the size asked for, the new bytes all zero.
pub proof fn lemma_grow_memory(ext: Expr, locals: Seq<u64>, heap: Seq<u8>)
    requires
        eval(Typ::I32, ext, locals, heap).result is Ok,
    ensures
        ({
            let e = eval(Typ::I32, ext, locals, heap);
            let delta = e.result->Ok_0->I32_0;
            let grown = eval(Typ::I32, Expr::GrowMemoryExpr(Box::new(ext)), locals, heap);
            &&& grown.result == Ok::<Value, Fault>(
                Value::I32((e.heap.len() as u64 % 0x1_0000_0000) as u32),
            )
            &&& grown.locals == e.locals
            &&& grown.heap.len() == e.heap.len() + delta
            &&& grown.heap.subrange(0, e.heap.len() as int) == e.heap
            &&& forall|i: int| e.heap.len() <= i < grown.heap.len() ==> grown.heap[i] == 0
        }),
{
    lemma_eval_lane(Typ::I32, ext, locals, heap);
    let e = eval(Typ::I32, ext, locals, heap);
    let grown = eval(Typ::I32, Expr::GrowMemoryExpr(Box::new(ext)), locals, heap);
    assert(grown.heap.subrange(0, e.heap.len() as int) =~= e.heap);
}

/// Whether `width` bytes at `offset` lie inside a memory of `len` bytes.
fn fits(len: usize, offset: u32, width: usize) -> (b: bool)
    ensures
        b == in_bounds(len as nat, offset as nat, width as nat),
{
    width <= len && offset as usize <= len - width
}

impl Program {
    /// Applies a binary operator to two values, or says why it cannot.
    pub fn apply_binop(&self, op: &BinOp, lhs: Value, rhs: Value) -> (result: Result<Value, Fault>)
        ensures
            result == apply_binop(*op, lhs, rhs),
    {
        match (lhs, rhs) {
            (Value::I32(a), Value::I32(b)) => if op.is_division() && b == 0 {
                Err(Fault::DivisionByZero)
            } else {
                Ok(Value::I32(self.interpret_binop(op, a, b)))
            },
            _ => Err(Fault::TypeError),
        }
    }

    /// Applies a unary operator to a value, or says why it cannot.
    pub fn apply_unop(&self, op: &UnaryOp, arg: Value) -> (result: Result<Value, Fault>)
        ensures
            result == apply_unop(*op, arg),
    {
        match arg {
            Value::I32(a) => Ok(Value::I32(self.interpret_unop(op, a))),
            _ => Err(Fault::TypeError),
        }
    }

    /// Evaluates `expr` in lane `typ`.
    ///
    /// Returns the value of the expression, or the first fault on the way to
    /// it. Either way `locals` and `heap` are left as the evaluation had
    /// them at that point.
    pub fn evaluate(
        &self,
        typ: Typ,
        expr: &Expr,
        locals: &mut [u64],
        heap: &mut Vec<u8>,
    ) -> (result: Result<Value, Fault>)
        ensures
            result == eval(typ, *expr, old(locals)@, old(heap)@).result,
            final(locals)@ == eval(typ, *expr, old(locals)@, old(heap)@).locals,
            final(heap)@ == eval(typ, *expr, old(locals)@, old(heap)@).heap,
            result matches Ok(value) ==> value.typ() == typ,
        decreases expr,
    {
        match expr {
            Expr::BinOpExpr(_, op, lhs, rhs) => {
                let lhs = self.evaluate(typ, lhs, locals, heap)?;
                let rhs = self.evaluate(typ, rhs, locals, heap)?;
                self.apply_binop(op, lhs, rhs)
            },
            Expr::ConstExpr(literal) => {
                if literal.lane() == typ {
                    Ok(Value::from_constant(literal))
                } else {
                    Err(Fault::TypeError)
                }
            },
            Expr::GetLocalExpr(var) => {
                if var.position < locals.len() {
                    Ok(Value::from_raw(typ, locals[var.position]))
                } else {
                    Err(Fault::NoSuchLocal)
                }
            },
            Expr::GrowMemoryExpr(ext) => {
                match self.evaluate(Typ::I32, ext, locals, heap)? {
                    Value::I32(delta) => {
                        let previous = grow(heap, delta);
                        if typ == Typ::I32 {
                            Ok(Value::from_raw(Typ::I32, previous as u64))
                        } else {
                            Err(Fault::TypeError)
                        }
                    },
                    _ => Err(Fault::TypeError),
                }
            },
            Expr::IfThenExpr(cond, true_branch) => {
                match self.evaluate(Typ::I32, cond, locals, heap)? {
                    Value::I32(flag) => {
                        if flag == 0 {
                            Ok(Value::default_value(typ))
                        } else {
                            self.evaluate(typ, true_branch, locals, heap)
                        }
                    },
                    _ => Err(Fault::TypeError),
                }
            },
            Expr::IfThenElseExpr(cond, true_branch, false_branch) => {
                match self.evaluate(Typ::I32, cond, locals, heap)? {
                    Value::I32(flag) => {
                        if flag == 0 {
                            self.evaluate(typ, false_branch, locals, heap)
                        } else {
                            self.evaluate(typ, true_branch, locals, heap)
                        }
                    },
                    _ => Err(Fault::TypeError),
                }
            },
            Expr::LoadExpr(lane, addr) => {
                match self.evaluate(Typ::I32, addr, locals, heap)? {
                    Value::I32(offset) => {
                        if !fits(heap.len(), offset, lane.width()) {
                            return Err(Fault::OutOfBounds);
                        }
                        let value = decode(*lane, heap, offset as usize);
                        if *lane == typ {
                            Ok(value)
                        } else {
                            Err(Fault::TypeError)
                        }
                    },
                    _ => Err(Fault::TypeError),
                }
            },
            Expr::NopExpr => Ok(Value::default_value(typ)),
            Expr::SetLocalExpr(var, value) => {
                let value = self.evaluate(typ, value, locals, heap)?;
                if var.position < locals.len() {
                    locals[var.position] = value.to_raw();
                    Ok(value)
                } else {
                    Err(Fault::NoSuchLocal)
                }
            },
            Expr::StoreExpr(lane, addr, value) => {
                match self.evaluate(Typ::I32, addr, locals, heap)? {
                    Value::I32(offset) => {
                        let value = self.evaluate(*lane, value, locals, heap)?;
                        if !fits(heap.len(), offset, lane.width()) {
                            return Err(Fault::OutOfBounds);
                        }
                        encode(heap, offset as usize, value);
                        if *lane == typ {
                            Ok(value)
                        } else {
                            Err(Fault::TypeError)
                        }
                    },
                    _ => Err(Fault::TypeError),
                }
            },
            Expr::UnaryOpExpr(_, op, arg) => {
                let arg = self.evaluate(typ, arg, locals, heap)?;
                self.apply_unop(op, arg)
            },
        }
    }

    /// Evaluates in lane `typ` an expression that runs to the end, and
    /// returns its value.
    ///
    /// An expression that faults is left out. [`Program::evaluate`] takes
    /// every expression and tells the two apart.
    pub fn interpret_expr(
        &mut self,
        typ: Typ,
        expr: &Expr,
        locals: &mut [u64],
        heap: &mut Vec<u8>,
    ) -> (value: Value)
        requires
            eval(typ, *expr, old(locals)@, old(heap)@).result is Ok,
        ensures
            eval(typ, *expr, old(locals)@, old(heap)@).result == Ok::<Value, Fault>(value),
            final(locals)@ == eval(typ, *expr, old(locals)@, old(heap)@).locals,
            final(heap)@ == eval(typ, *expr, old(locals)@, old(heap)@).heap,
            value.typ() == typ,
    {
        match self.evaluate(typ, expr, locals, heap) {
            Ok(value) => value,
            Err(_) => unreached(),
        }
    }
}

} // verus!
