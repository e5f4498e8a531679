//! Linear memory: a growable string of bytes in which lane values lie in
//! little-endian order.
use vstd::prelude::*;
use vstd::slice::slice_subrange;
use byteorder::{ByteOrder, LittleEndian};
use crate::ast::Typ;
use crate::value::Value;

verus! {

/// The number of values that `width` bytes can tell apart: 256 to the power
/// `width`.
pub open spec fn capacity(width: nat) -> nat
    decreases width,
{
    if width == 0 {
        1
    } else {
        256 * capacity((width - 1) as nat)
    }
}

/// The number that a little-endian byte string stands for: the first byte
/// counts ones, the next 256s, and so on.
pub open spec fn le_value(bytes: Seq<u8>) -> nat
    decreases bytes.len(),
{
    if bytes.len() == 0 {
        0
    } else {
        bytes[0] as nat + 256 * le_value(bytes.skip(1))
    }
}

/// The `width` low-order bytes of `value`, least significant first.
pub open spec fn le_bytes(value: nat, width: nat) -> Seq<u8>
    decreases width,
{
    if width == 0 {
        Seq::empty()
    } else {
        seq![(value % 256) as u8] + le_bytes(value / 256, (width - 1) as nat)
    }
}

/// The bytes a value occupies in memory.
pub open spec fn encoded(value: Value) -> Seq<u8> {
    le_bytes(value.bits() as nat, value.typ().size())
}

/// The value of lane `typ` that `bytes` hold.
pub open spec fn decoded(typ: Typ, bytes: Seq<u8>) -> Value {
    Value::of_bits(typ, le_value(bytes) as u64)
}

/// Whether `width` bytes starting at `offset` lie inside a memory of `len`
/// bytes.
pub open spec fn in_bounds(len: nat, offset: nat, width: nat) -> bool {
    offset + width <= len
}

/// `heap` with `bytes` written over what was at `offset`.
pub open spec fn overwritten(heap: Seq<u8>, offset: int, bytes: Seq<u8>) -> Seq<u8>
    recommends
        0 <= offset,
        offset + bytes.len() <= heap.len(),
{
    heap.subrange(0, offset) + bytes + heap.subrange(offset + bytes.len(), heap.len() as int)
}

/// `count` zero bytes.
pub open spec fn zeros(count: nat) -> Seq<u8> {
    Seq::new(count, |i: int| 0u8)
}

/// `byteorder::LittleEndian::read_u32`: the number that the first four bytes
/// of `buf` stand for in little-endian order. It panics on fewer than four
/// bytes, which the precondition rules out.
#[verifier::external_body]
fn read_u32(buf: &[u8]) -> (value: u32)
    requires
        buf@.len() >= 4,
    ensures
        value == le_value(buf@.subrange(0, 4)),
{
    LittleEndian::read_u32(buf)
}

/// `byteorder::LittleEndian::read_u64`: the number that the first eight bytes
/// of `buf` stand for in little-endian order. It panics on fewer than eight
/// bytes, which the precondition rules out.
#[verifier::external_body]
fn read_u64(buf: &[u8]) -> (value: u64)
    requires
        buf@.len() >= 8,
    ensures
        value == le_value(buf@.subrange(0, 8)),
{
    LittleEndian::read_u64(buf)
}

/// `byteorder::LittleEndian::write_u32`: puts the four bytes of `value`,
/// least significant first, over the first four bytes of `buf` and leaves
/// the rest as it was. It panics on fewer than four bytes, which the
/// precondition rules out.
#[verifier::external_body]
fn write_u32(buf: &mut [u8], value: u32)
    requires
        old(buf)@.len() >= 4,
    ensures
        final(buf)@ == le_bytes(value as nat, 4) + old(buf)@.skip(4),
{
    LittleEndian::write_u32(buf, value)
}

/// `byteorder::LittleEndian::write_u64`: puts the eight bytes of `value`,
/// least significant first, over the first eight bytes of `buf` and leaves
/// the rest as it was. It panics on fewer than eight bytes, which the
/// precondition rules out.
#[verifier::external_body]
fn write_u64(buf: &mut [u8], value: u64)
    requires
        old(buf)@.len() >= 8,
    ensures
        final(buf)@ == le_bytes(value as nat, 8) + old(buf)@.skip(8),
{
    LittleEndian::write_u64(buf, value)
}

/// `le_bytes` gives as many bytes as it is asked for.
pub proof fn lemma_le_bytes_len(value: nat, width: nat)
    ensures
        le_bytes(value, width).len() == width,
    decreases width,
{
    if width > 0 {
        lemma_le_bytes_len(value / 256, (width - 1) as nat);
    }
}

/// A byte string stands for a number below the capacity of its length.
pub proof fn lemma_le_value_bound(bytes: Seq<u8>)
    ensures
        le_value(bytes) < capacity(bytes.len()),
    decreases bytes.len(),
{
    if bytes.len() > 0 {
        lemma_le_value_bound(bytes.skip(1));
    }
}

/// A number that fits in `width` bytes is the number its bytes stand for.
pub proof fn lemma_le_value_of_bytes(value: nat, width: nat)
    requires
        value < capacity(width),
    ensures
        le_value(le_bytes(value, width)) == value,
    decreases width,
{
    if width > 0 {
        let rest = le_bytes(value / 256, (width - 1) as nat);
        lemma_le_value_of_bytes(value / 256, (width - 1) as nat);
        assert(le_bytes(value, width).skip(1) =~= rest);
    }
}

/// A byte string is the bytes of the number it stands for.
pub proof fn lemma_le_bytes_of_value(bytes: Seq<u8>)
    ensures
        le_bytes(le_value(bytes), bytes.len()) == bytes,
    decreases bytes.len(),
{
    if bytes.len() > 0 {
        lemma_le_bytes_of_value(bytes.skip(1));
        assert(le_bytes(le_value(bytes), bytes.len()) =~= bytes);
    }
}

/// Four bytes hold the 32-bit patterns, eight bytes the 64-bit patterns.
pub proof fn lemma_capacity()
    ensures
        capacity(4) == 0x1_0000_0000,
        capacity(8) == 0x1_0000_0000_0000_0000,
{
    reveal_with_fuel(capacity, 9);
}

/// A value written into memory and read back from the same place in its own
/// lane is the value that was written.
pub proof fn lemma_encode_then_decode(heap: Seq<u8>, offset: nat, value: Value)
    requires
        in_bounds(heap.len(), offset, value.typ().size()),
    ensures
        decoded(
            value.typ(),
            overwritten(heap, offset as int, encoded(value)).subrange(
                offset as int,
                (offset + value.typ().size()) as int,
            ),
        ) == value,
{
    let width = value.typ().size();
    lemma_le_bytes_len(value.bits() as nat, width);
    assert(overwritten(heap, offset as int, encoded(value)).subrange(
        offset as int,
        (offset + width) as int,
    ) =~= encoded(value));
    lemma_capacity();
    lemma_le_value_of_bytes(value.bits() as nat, width);
}

/// Writing a value changes the bytes it occupies and no others.
pub proof fn lemma_encode_is_local(heap: Seq<u8>, offset: nat, value: Value, i: int)
    requires
        in_bounds(heap.len(), offset, value.typ().size()),
        0 <= i < heap.len(),
        i < offset || offset + value.typ().size() <= i,
    ensures
        overwritten(heap, offset as int, encoded(value)).len() == heap.len(),
        overwritten(heap, offset as int, encoded(value))[i] == heap[i],
{
    lemma_le_bytes_len(value.bits() as nat, value.typ().size());
}

/// Reads the value of lane `typ` that lies at `offset`.
pub fn decode(typ: Typ, heap: &Vec<u8>, offset: usize) -> (value: Value)
    requires
        in_bounds(heap@.len(), offset as nat, typ.size()),
    ensures
        value == decoded(typ, heap@.subrange(offset as int, offset + typ.size())),
{
    let tail = slice_subrange(heap.as_slice(), offset, heap.len());
    proof {
        assert(tail@.subrange(0, typ.size() as int) =~= heap@.subrange(
            offset as int,
            offset + typ.size(),
        ));
        lemma_le_value_bound(tail@.subrange(0, typ.size() as int));
        lemma_capacity();
    }
    match typ {
        Typ::F32 => Value::F32(read_u32(tail)),
        Typ::F64 => Value::F64(read_u64(tail)),
        Typ::I32 => Value::I32(read_u32(tail)),
        Typ::I64 => Value::I64(read_u64(tail)),
    }
}

/// Writes `value` over the bytes at `offset`.
pub fn encode(heap: &mut Vec<u8>, offset: usize, value: Value)
    requires
        in_bounds(old(heap)@.len(), offset as nat, value.typ().size()),
    ensures
        final(heap)@ == overwritten(old(heap)@, offset as int, encoded(value)),
{
    proof {
        lemma_le_bytes_len(value.bits() as nat, value.typ().size());
    }
    let (head, tail) = heap.as_mut_slice().split_at_mut(offset);
    match value {
        Value::F32(b) => write_u32(tail, b),
        Value::F64(b) => write_u64(tail, b),
        Value::I32(b) => write_u32(tail, b),
        Value::I64(b) => write_u64(tail, b),
    }
    assert(final(heap)@ =~= overwritten(old(heap)@, offset as int, encoded(value)));
}

/// Appends `delta` zero bytes and returns the length before the growth.
pub fn grow(heap: &mut Vec<u8>, delta: u32) -> (previous: usize)
    ensures
        previous == old(heap)@.len(),
        final(heap)@ == old(heap)@ + zeros(delta as nat),
{
    let previous = heap.len();
    let mut done: u32 = 0;
    while done < delta
        invariant
            done <= delta,
            heap@ == old(heap)@ + zeros(done as nat),
        decreases delta - done,
    {
        heap.push(0);
        done = done + 1;
        assert(heap@ =~= old(heap)@ + zeros(done as nat));
    }
    previous
}

} // verus!
