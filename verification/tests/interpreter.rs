use wasm_interpreter::ast::{BinOp, Const, Expr, Typ, UnaryOp, Var};
use wasm_interpreter::interpreter::Fault;
use wasm_interpreter::value::Value;
use wasm_interpreter::Program;

fn i32_const(value: u32) -> Box<Expr> {
    Box::new(Expr::ConstExpr(Const::I32Const(value)))
}

fn i64_const(value: u64) -> Box<Expr> {
    Box::new(Expr::ConstExpr(Const::I64Const(value)))
}

fn binop(op: BinOp, lhs: Box<Expr>, rhs: Box<Expr>) -> Box<Expr> {
    Box::new(Expr::BinOpExpr(Typ::I32, op, lhs, rhs))
}

fn store(typ: Typ, addr: Box<Expr>, value: Box<Expr>) -> Box<Expr> {
    Box::new(Expr::StoreExpr(typ, addr, value))
}

fn load(typ: Typ, addr: Box<Expr>) -> Box<Expr> {
    Box::new(Expr::LoadExpr(typ, addr))
}

fn set_local(position: usize, value: Box<Expr>) -> Box<Expr> {
    Box::new(Expr::SetLocalExpr(Var { position }, value))
}

fn get_local(position: usize) -> Box<Expr> {
    Box::new(Expr::GetLocalExpr(Var { position }))
}

fn grow_memory(ext: Box<Expr>) -> Box<Expr> {
    Box::new(Expr::GrowMemoryExpr(ext))
}

fn run(typ: Typ, expr: &Expr, locals: &mut [u64], heap: &mut Vec<u8>) -> Result<Value, Fault> {
    Program.evaluate(typ, expr, locals, heap)
}

#[test]
fn store_of_a_sum() {
    let tree = store(Typ::I32, i32_const(0), binop(BinOp::Add, i32_const(2), i32_const(3)));
    let mut locals: Vec<u64> = Vec::new();
    let mut heap = vec![0xffu8; 4];
    assert_eq!(run(Typ::I32, &tree, &mut locals, &mut heap), Ok(Value::I32(5)));
    assert_eq!(heap, vec![0x05, 0x00, 0x00, 0x00]);

    let mut longer = vec![0xffu8; 6];
    assert_eq!(
        Program.interpret_expr(Typ::I32, &tree, &mut locals, &mut longer),
        Value::I32(5)
    );
    assert_eq!(longer, vec![0x05, 0x00, 0x00, 0x00, 0xff, 0xff]);
}

#[test]
fn write_local_then_read_local() {
    let mut locals = vec![0u64];
    let mut heap: Vec<u8> = Vec::new();
    let write = set_local(0, i32_const(7));
    assert_eq!(run(Typ::I32, &write, &mut locals, &mut heap), Ok(Value::I32(7)));
    assert_eq!(locals, vec![7]);
    assert_eq!(run(Typ::I32, &get_local(0), &mut locals, &mut heap), Ok(Value::I32(7)));
    assert_eq!(locals, vec![7]);
}

#[test]
fn write_local_gives_what_read_local_sees_in_every_lane() {
    let cases = [
        (Typ::I32, Const::I32Const(0xffff_fffe), Value::I32(0xffff_fffe), 0xffff_fffeu64),
        (Typ::F32, Const::F32Const(0x8000_0000), Value::F32(0x8000_0000), 0x8000_0000),
        (Typ::I64, Const::I64Const(0xffff_ffff_ffff_fffe), Value::I64(0xffff_ffff_ffff_fffe), 0xffff_ffff_ffff_fffe),
        (Typ::F64, Const::F64Const(0x7ff0_0000_0000_0000), Value::F64(0x7ff0_0000_0000_0000), 0x7ff0_0000_0000_0000),
    ];
    for (typ, literal, value, slot) in cases {
        let mut locals = vec![0x1111_1111_1111_1111u64, 0x2222_2222_2222_2222];
        let mut heap: Vec<u8> = Vec::new();
        let write = set_local(1, Box::new(Expr::ConstExpr(literal)));
        assert_eq!(run(typ, &write, &mut locals, &mut heap), Ok(value));
        assert_eq!(locals, vec![0x1111_1111_1111_1111, slot]);
        assert_eq!(run(typ, &get_local(1), &mut locals, &mut heap), Ok(value));
    }
}

#[test]
fn read_local_reinterprets_the_slot() {
    let mut locals = vec![0xaaaa_bbbb_cccc_ddddu64];
    let mut heap: Vec<u8> = Vec::new();
    assert_eq!(run(Typ::I32, &get_local(0), &mut locals, &mut heap), Ok(Value::I32(0xcccc_dddd)));
    assert_eq!(run(Typ::F32, &get_local(0), &mut locals, &mut heap), Ok(Value::F32(0xcccc_dddd)));
    assert_eq!(
        run(Typ::I64, &get_local(0), &mut locals, &mut heap),
        Ok(Value::I64(0xaaaa_bbbb_cccc_dddd))
    );
    assert_eq!(
        run(Typ::F64, &get_local(0), &mut locals, &mut heap),
        Ok(Value::F64(0xaaaa_bbbb_cccc_dddd))
    );
}

#[test]
fn if_then_else_takes_one_branch() {
    let mut locals: Vec<u64> = Vec::new();
    let mut heap: Vec<u8> = Vec::new();
    let on_zero = Expr::IfThenElseExpr(i32_const(0), i32_const(1), i32_const(9));
    assert_eq!(run(Typ::I32, &on_zero, &mut locals, &mut heap), Ok(Value::I32(9)));
    let on_one = Expr::IfThenElseExpr(i32_const(1), i32_const(1), i32_const(9));
    assert_eq!(run(Typ::I32, &on_one, &mut locals, &mut heap), Ok(Value::I32(1)));
    let on_any = Expr::IfThenElseExpr(i32_const(0x8000_0000), i32_const(1), i32_const(9));
    assert_eq!(run(Typ::I32, &on_any, &mut locals, &mut heap), Ok(Value::I32(1)));
}

#[test]
fn if_then_on_zero_gives_the_default_and_stores_nothing() {
    let mut locals: Vec<u64> = Vec::new();
    let mut heap = vec![0x11u8; 8];
    let tree = Expr::IfThenExpr(i32_const(0), store(Typ::I32, i32_const(0), i32_const(0xdead_beef)));
    assert_eq!(run(Typ::I32, &tree, &mut locals, &mut heap), Ok(Value::I32(0)));
    assert_eq!(heap, vec![0x11u8; 8]);

    let wide = Expr::IfThenExpr(i32_const(0), store(Typ::I64, i32_const(0), i64_const(5)));
    assert_eq!(run(Typ::I64, &wide, &mut locals, &mut heap), Ok(Value::I64(0)));
    assert_eq!(heap, vec![0x11u8; 8]);
}

#[test]
fn if_then_on_nonzero_runs_the_branch() {
    let mut locals: Vec<u64> = Vec::new();
    let mut heap = vec![0x11u8; 8];
    let tree = Expr::IfThenExpr(i32_const(2), store(Typ::I32, i32_const(4), i32_const(0xdead_beef)));
    assert_eq!(run(Typ::I32, &tree, &mut locals, &mut heap), Ok(Value::I32(0xdead_beef)));
    assert_eq!(heap, vec![0x11, 0x11, 0x11, 0x11, 0xef, 0xbe, 0xad, 0xde]);
}

#[test]
fn only_the_taken_branch_stores() {
    let mut locals: Vec<u64> = Vec::new();
    let mut heap = vec![0u8; 8];
    let tree = Expr::IfThenElseExpr(
        i32_const(0),
        store(Typ::I32, i32_const(0), i32_const(0x0101_0101)),
        store(Typ::I32, i32_const(4), i32_const(0x0202_0202)),
    );
    assert_eq!(run(Typ::I32, &tree, &mut locals, &mut heap), Ok(Value::I32(0x0202_0202)));
    assert_eq!(heap, vec![0, 0, 0, 0, 2, 2, 2, 2]);
}

#[test]
fn grow_memory_returns_the_old_length() {
    let mut locals: Vec<u64> = Vec::new();
    let mut heap = vec![9u8; 10];
    let tree = grow_memory(i32_const(4));
    assert_eq!(run(Typ::I32, &tree, &mut locals, &mut heap), Ok(Value::I32(10)));
    assert_eq!(heap.len(), 14);
    assert_eq!(heap[..10], [9u8; 10]);
    assert_eq!(heap[10..14], [0u8; 4]);
}

#[test]
fn the_length_is_taken_after_the_size_is_evaluated() {
    let mut locals: Vec<u64> = Vec::new();
    let mut heap = vec![9u8; 3];
    let tree = grow_memory(grow_memory(i32_const(2)));
    assert_eq!(run(Typ::I32, &tree, &mut locals, &mut heap), Ok(Value::I32(5)));
    assert_eq!(heap, vec![9, 9, 9, 0, 0, 0, 0, 0]);
}

#[test]
fn division_by_zero_is_a_fault() {
    let mut locals: Vec<u64> = Vec::new();
    let mut heap: Vec<u8> = Vec::new();
    for op in [BinOp::DivU, BinOp::DivS, BinOp::RemU, BinOp::RemS] {
        let tree = binop(op, i32_const(5), i32_const(0));
        assert_eq!(run(Typ::I32, &tree, &mut locals, &mut heap), Err(Fault::DivisionByZero));
    }
    let fine = binop(BinOp::DivU, i32_const(5), i32_const(2));
    assert_eq!(run(Typ::I32, &fine, &mut locals, &mut heap), Ok(Value::I32(2)));
}

#[test]
fn a_literal_of_another_lane_is_a_type_error() {
    let mut locals: Vec<u64> = Vec::new();
    let mut heap: Vec<u8> = Vec::new();
    assert_eq!(run(Typ::I32, &i64_const(1), &mut locals, &mut heap), Err(Fault::TypeError));
    assert_eq!(run(Typ::I64, &i32_const(1), &mut locals, &mut heap), Err(Fault::TypeError));
    assert_eq!(
        run(Typ::I32, &Expr::ConstExpr(Const::F32Const(1)), &mut locals, &mut heap),
        Err(Fault::TypeError)
    );
    assert_eq!(
        run(Typ::F32, &Expr::ConstExpr(Const::F64Const(1)), &mut locals, &mut heap),
        Err(Fault::TypeError)
    );
    assert_eq!(run(Typ::I64, &i64_const(1), &mut locals, &mut heap), Ok(Value::I64(1)));
    assert_eq!(
        run(Typ::F64, &Expr::ConstExpr(Const::F64Const(1)), &mut locals, &mut heap),
        Ok(Value::F64(1))
    );
}

#[test]
fn operators_exist_in_the_32_bit_integer_lane_only() {
    let mut locals: Vec<u64> = Vec::new();
    let mut heap: Vec<u8> = Vec::new();
    let sum = Expr::BinOpExpr(Typ::I64, BinOp::Add, i64_const(1), i64_const(2));
    assert_eq!(run(Typ::I64, &sum, &mut locals, &mut heap), Err(Fault::TypeError));
    let count = Expr::UnaryOpExpr(Typ::I64, UnaryOp::Popcnt, i64_const(3));
    assert_eq!(run(Typ::I64, &count, &mut locals, &mut heap), Err(Fault::TypeError));
    let zero = Expr::UnaryOpExpr(Typ::I32, UnaryOp::Eqz, i32_const(0));
    assert_eq!(run(Typ::I32, &zero, &mut locals, &mut heap), Ok(Value::I32(1)));
}

#[test]
fn the_tag_of_an_operator_node_is_not_consulted() {
    let mut locals: Vec<u64> = Vec::new();
    let mut heap: Vec<u8> = Vec::new();
    let sum = Expr::BinOpExpr(Typ::F64, BinOp::Add, i32_const(1), i32_const(2));
    assert_eq!(run(Typ::I32, &sum, &mut locals, &mut heap), Ok(Value::I32(3)));
    let leading = Expr::UnaryOpExpr(Typ::I64, UnaryOp::Clz, i32_const(1));
    assert_eq!(run(Typ::I32, &leading, &mut locals, &mut heap), Ok(Value::I32(31)));
}

#[test]
fn access_past_the_end_is_a_fault() {
    let mut locals: Vec<u64> = Vec::new();
    let mut heap = vec![0u8; 7];
    assert_eq!(
        run(Typ::I32, &load(Typ::I32, i32_const(4)), &mut locals, &mut heap),
        Err(Fault::OutOfBounds)
    );
    assert_eq!(
        run(Typ::I32, &load(Typ::I32, i32_const(0xffff_ffff)), &mut locals, &mut heap),
        Err(Fault::OutOfBounds)
    );
    assert_eq!(
        run(Typ::I64, &load(Typ::I64, i32_const(0)), &mut locals, &mut heap),
        Err(Fault::OutOfBounds)
    );
    assert_eq!(
        run(Typ::I32, &store(Typ::I32, i32_const(4), i32_const(1)), &mut locals, &mut heap),
        Err(Fault::OutOfBounds)
    );
    assert_eq!(heap, vec![0u8; 7]);
    assert_eq!(
        run(Typ::I32, &load(Typ::I32, i32_const(3)), &mut locals, &mut heap),
        Ok(Value::I32(0))
    );
}

#[test]
fn a_local_outside_the_register_file_is_a_fault() {
    let mut locals = vec![0u64; 2];
    let mut heap: Vec<u8> = Vec::new();
    assert_eq!(run(Typ::I32, &get_local(2), &mut locals, &mut heap), Err(Fault::NoSuchLocal));
    assert_eq!(
        run(Typ::I32, &set_local(2, i32_const(1)), &mut locals, &mut heap),
        Err(Fault::NoSuchLocal)
    );
    assert_eq!(locals, vec![0, 0]);
}

#[test]
fn the_first_fault_ends_the_evaluation() {
    let mut locals = vec![0u64];
    let mut heap = vec![0u8; 4];
    let tree = binop(
        BinOp::Add,
        set_local(0, i32_const(3)),
        binop(BinOp::Add, load(Typ::I32, i32_const(9)), store(Typ::I32, i32_const(0), i32_const(1))),
    );
    assert_eq!(run(Typ::I32, &tree, &mut locals, &mut heap), Err(Fault::OutOfBounds));
    assert_eq!(locals, vec![3]);
    assert_eq!(heap, vec![0u8; 4]);
}

#[test]
fn load_reads_what_store_wrote() {
    let mut locals: Vec<u64> = Vec::new();
    let mut heap = vec![0u8; 16];
    let tree = store(Typ::I64, i32_const(8), i64_const(0x0102_0304_0506_0708));
    assert_eq!(
        run(Typ::I64, &tree, &mut locals, &mut heap),
        Ok(Value::I64(0x0102_0304_0506_0708))
    );
    assert_eq!(heap[8..], [8, 7, 6, 5, 4, 3, 2, 1]);
    assert_eq!(
        run(Typ::I64, &load(Typ::I64, i32_const(8)), &mut locals, &mut heap),
        Ok(Value::I64(0x0102_0304_0506_0708))
    );
    assert_eq!(
        run(Typ::I32, &load(Typ::I32, i32_const(10)), &mut locals, &mut heap),
        Ok(Value::I32(0x0304_0506))
    );
    assert_eq!(
        run(Typ::F32, &load(Typ::F32, i32_const(12)), &mut locals, &mut heap),
        Ok(Value::F32(0x0102_0304))
    );
}

#[test]
fn a_load_or_store_of_another_lane_is_a_type_error() {
    let mut locals: Vec<u64> = Vec::new();
    let mut heap = vec![0u8; 8];
    assert_eq!(
        run(Typ::I32, &load(Typ::I64, i32_const(0)), &mut locals, &mut heap),
        Err(Fault::TypeError)
    );
    assert_eq!(
        run(Typ::I32, &store(Typ::I64, i32_const(0), i64_const(1)), &mut locals, &mut heap),
        Err(Fault::TypeError)
    );
    assert_eq!(
        run(Typ::I64, &grow_memory(i32_const(1)), &mut locals, &mut heap),
        Err(Fault::TypeError)
    );
}

#[test]
fn nop_is_the_zero_of_its_lane() {
    let mut locals: Vec<u64> = Vec::new();
    let mut heap: Vec<u8> = Vec::new();
    assert_eq!(run(Typ::I32, &Expr::NopExpr, &mut locals, &mut heap), Ok(Value::I32(0)));
    assert_eq!(run(Typ::I64, &Expr::NopExpr, &mut locals, &mut heap), Ok(Value::I64(0)));
    assert_eq!(run(Typ::F32, &Expr::NopExpr, &mut locals, &mut heap), Ok(Value::F32(0)));
    assert_eq!(run(Typ::F64, &Expr::NopExpr, &mut locals, &mut heap), Ok(Value::F64(0)));
}

#[test]
fn operands_are_evaluated_from_left_to_right() {
    let mut locals = vec![0u64];
    let mut heap: Vec<u8> = Vec::new();
    let tree = binop(
        BinOp::Sub,
        set_local(0, i32_const(10)),
        binop(BinOp::Mul, get_local(0), set_local(0, i32_const(3))),
    );
    assert_eq!(
        run(Typ::I32, &tree, &mut locals, &mut heap),
        Ok(Value::I32(10u32.wrapping_sub(30)))
    );
    assert_eq!(locals, vec![3]);
}

#[test]
fn interpret_expr_gives_the_value_of_a_tree_that_runs_to_the_end() {
    let mut locals = vec![0u64; 2];
    let mut heap = vec![0u8; 4];
    let tree = Expr::IfThenElseExpr(
        binop(BinOp::LtS, i32_const(0xffff_ffff), i32_const(0)),
        set_local(1, binop(BinOp::RotL, i32_const(0x8000_0001), i32_const(4))),
        i32_const(0),
    );
    assert_eq!(
        Program.interpret_expr(Typ::I32, &tree, &mut locals, &mut heap),
        Value::I32(0x0000_0018)
    );
    assert_eq!(locals, vec![0, 0x18]);
}
