//! The value codec: lossless conversion between the host's typed value
//! representation and the engine's tagged wire value.
//!
//! The wire value is a 128-bit payload together with a type tag, mirroring
//! the engine's tagged union. Floating-point payloads are carried as their
//! raw IEEE-754 bit patterns, so conversion is bitwise and preserves NaN
//! payloads exactly; external references carry an opaque address that the
//! host controls, and the codec never dereferences or validates it.

use vstd::prelude::*;
use crate::types::WasmEdgeValType;

verus! {

/// The engine's wire value: a raw 128-bit payload and a type tag.
#[derive(Clone, Copy, Debug, PartialEq, Eq, Structural)]
pub struct WasmEdgeValue {
    /// The raw payload bits; how many of them carry meaning depends on `ty`.
    pub bits: u128,
    /// The type tag of the payload.
    pub ty: WasmEdgeValType,
}

/// The host's typed value: one variant per supported value kind.
///
/// The `F32` and `F64` variants hold raw IEEE-754 bit patterns; the
/// `ExternRef` variant holds an opaque host-controlled address.
#[derive(Clone, Copy, Debug, PartialEq, Eq, Structural)]
pub enum WasmVal {
    I32(i32),
    I64(i64),
    F32(u32),
    F64(u64),
    V128(u128),
    FuncRef(u32),
    ExternRef(usize),
}

/// The wire value that a host value encodes to: the payload is the value's
/// bits, zero-extended to 128 bits, under the matching type tag.
pub open spec fn spec_encode(v: WasmVal) -> WasmEdgeValue {
    match v {
        WasmVal::I32(x) => WasmEdgeValue {
            bits: x as u32 as u128,
            ty: WasmEdgeValType::WasmEdge_ValType_I32,
        },
        WasmVal::I64(x) => WasmEdgeValue {
            bits: x as u64 as u128,
            ty: WasmEdgeValType::WasmEdge_ValType_I64,
        },
        WasmVal::F32(b) => WasmEdgeValue {
            bits: b as u128,
            ty: WasmEdgeValType::WasmEdge_ValType_F32,
        },
        WasmVal::F64(b) => WasmEdgeValue {
            bits: b as u128,
            ty: WasmEdgeValType::WasmEdge_ValType_F64,
        },
        WasmVal::V128(b) => WasmEdgeValue {
            bits: b,
            ty: WasmEdgeValType::WasmEdge_ValType_V128,
        },
        WasmVal::FuncRef(i) => WasmEdgeValue {
            bits: i as u128,
            ty: WasmEdgeValType::WasmEdge_ValType_FuncRef,
        },
        WasmVal::ExternRef(a) => WasmEdgeValue {
            bits: a as u128,
            ty: WasmEdgeValType::WasmEdge_ValType_ExternRef,
        },
    }
}

/// The host value that a wire value decodes to: the type tag picks the kind
/// and the payload is truncated to the kind's width.
pub open spec fn spec_decode(v: WasmEdgeValue) -> WasmVal {
    match v.ty {
        WasmEdgeValType::WasmEdge_ValType_I32 => WasmVal::I32(v.bits as u32 as i32),
        WasmEdgeValType::WasmEdge_ValType_I64 => WasmVal::I64(v.bits as u64 as i64),
        WasmEdgeValType::WasmEdge_ValType_F32 => WasmVal::F32(v.bits as u32),
        WasmEdgeValType::WasmEdge_ValType_F64 => WasmVal::F64(v.bits as u64),
        WasmEdgeValType::WasmEdge_ValType_V128 => WasmVal::V128(v.bits),
        WasmEdgeValType::WasmEdge_ValType_FuncRef => WasmVal::FuncRef(v.bits as u32),
        WasmEdgeValType::WasmEdge_ValType_ExternRef => WasmVal::ExternRef(v.bits as usize),
    }
}

/// Encodes a host value into the engine's wire representation.
pub fn encode_value(v: WasmVal) -> (r: WasmEdgeValue)
    ensures
        r == spec_encode(v),
{
    match v {
        WasmVal::I32(x) => WasmEdgeValue {
            bits: x as u32 as u128,
            ty: WasmEdgeValType::WasmEdge_ValType_I32,
        },
        WasmVal::I64(x) => WasmEdgeValue {
            bits: x as u64 as u128,
            ty: WasmEdgeValType::WasmEdge_ValType_I64,
        },
        WasmVal::F32(b) => WasmEdgeValue {
            bits: b as u128,
            ty: WasmEdgeValType::WasmEdge_ValType_F32,
        },
        WasmVal::F64(b) => WasmEdgeValue {
            bits: b as u128,
            ty: WasmEdgeValType::WasmEdge_ValType_F64,
        },
        WasmVal::V128(b) => WasmEdgeValue {
            bits: b,
            ty: WasmEdgeValType::WasmEdge_ValType_V128,
        },
        WasmVal::FuncRef(i) => WasmEdgeValue {
            bits: i as u128,
            ty: WasmEdgeValType::WasmEdge_ValType_FuncRef,
        },
        WasmVal::ExternRef(a) => WasmEdgeValue {
            bits: a as u128,
            ty: WasmEdgeValType::WasmEdge_ValType_ExternRef,
        },
    }
}

/// Decodes a wire value back into the host's typed representation.
pub fn decode_value(v: WasmEdgeValue) -> (r: WasmVal)
    ensures
        r == spec_decode(v),
{
    match v.ty {
        WasmEdgeValType::WasmEdge_ValType_I32 => WasmVal::I32(v.bits as u32 as i32),
        WasmEdgeValType::WasmEdge_ValType_I64 => WasmVal::I64(v.bits as u64 as i64),
        WasmEdgeValType::WasmEdge_ValType_F32 => WasmVal::F32(v.bits as u32),
        WasmEdgeValType::WasmEdge_ValType_F64 => WasmVal::F64(v.bits as u64),
        WasmEdgeValType::WasmEdge_ValType_V128 => WasmVal::V128(v.bits),
        WasmEdgeValType::WasmEdge_ValType_FuncRef => WasmVal::FuncRef(v.bits as u32),
        WasmEdgeValType::WasmEdge_ValType_ExternRef => WasmVal::ExternRef(v.bits as usize),
    }
}

/// Decoding inverts encoding: for every value kind, and bitwise for the
/// floating-point kinds, decoding an encoded host value gives the value
/// back unchanged.
pub proof fn lemma_codec_round_trip(v: WasmVal)
    ensures
        spec_decode(spec_encode(v)) == v,
{
    match v {
        WasmVal::I32(x) => {
            assert(((x as u32 as u128) as u32) as i32 == x) by (bit_vector);
        },
        WasmVal::I64(x) => {
            assert(((x as u64 as u128) as u64) as i64 == x) by (bit_vector);
        },
        WasmVal::F32(b) => {
            assert((b as u128) as u32 == b) by (bit_vector);
        },
        WasmVal::F64(b) => {
            assert((b as u128) as u64 == b) by (bit_vector);
        },
        WasmVal::V128(b) => {},
        WasmVal::FuncRef(i) => {
            assert((i as u128) as u32 == i) by (bit_vector);
        },
        WasmVal::ExternRef(a) => {
            assert((a as u128) as usize == a) by (bit_vector);
        },
    }
}

/// Builds the wire value of a 32-bit integer.
#[allow(non_snake_case)]
pub fn WasmEdgeValueGenI32(val: i32) -> (r: WasmEdgeValue)
    ensures
        r == spec_encode(WasmVal::I32(val)),
{
    encode_value(WasmVal::I32(val))
}

/// Builds the wire value of a 64-bit integer.
#[allow(non_snake_case)]
pub fn WasmEdgeValueGenI64(val: i64) -> (r: WasmEdgeValue)
    ensures
        r == spec_encode(WasmVal::I64(val)),
{
    encode_value(WasmVal::I64(val))
}

/// Builds the wire value of a 32-bit float given as its IEEE-754 bits.
#[allow(non_snake_case)]
pub fn WasmEdgeValueGenF32(val: u32) -> (r: WasmEdgeValue)
    ensures
        r == spec_encode(WasmVal::F32(val)),
{
    encode_value(WasmVal::F32(val))
}

/// Builds the wire value of a 64-bit float given as its IEEE-754 bits.
#[allow(non_snake_case)]
pub fn WasmEdgeValueGenF64(val: u64) -> (r: WasmEdgeValue)
    ensures
        r == spec_encode(WasmVal::F64(val)),
{
    encode_value(WasmVal::F64(val))
}

/// Builds the wire value of an external reference from the opaque address
/// the host controls; the address is carried through, never dereferenced.
#[allow(non_snake_case)]
pub fn WasmEdgeValueGenExternRef(ptr: usize) -> (r: WasmEdgeValue)
    ensures
        r == spec_encode(WasmVal::ExternRef(ptr)),
{
    encode_value(WasmVal::ExternRef(ptr))
}

/// Builds the wire value of a function reference; the index is truncated to
/// 32 bits as the engine stores it.
#[allow(non_snake_case)]
pub fn WasmEdgeValueGenFuncRef(idx: usize) -> (r: WasmEdgeValue)
    ensures
        r == spec_encode(WasmVal::FuncRef(idx as u32)),
{
    encode_value(WasmVal::FuncRef(idx as u32))
}

/// Reads the low 32 payload bits of a wire value as a signed integer.
#[allow(non_snake_case)]
pub fn WasmEdgeValueGetI32(val: WasmEdgeValue) -> (r: i32)
    ensures
        r == val.bits as u32 as i32,
        val.ty == WasmEdgeValType::WasmEdge_ValType_I32 ==> WasmVal::I32(r) == spec_decode(val),
{
    (val.bits as u32) as i32
}

/// Reads the low 64 payload bits of a wire value as a signed integer.
#[allow(non_snake_case)]
pub fn WasmEdgeValueGetI64(val: WasmEdgeValue) -> (r: i64)
    ensures
        r == val.bits as u64 as i64,
        val.ty == WasmEdgeValType::WasmEdge_ValType_I64 ==> WasmVal::I64(r) == spec_decode(val),
{
    (val.bits as u64) as i64
}

/// Reads the low 32 payload bits of a wire value as IEEE-754 float bits.
#[allow(non_snake_case)]
pub fn WasmEdgeValueGetF32(val: WasmEdgeValue) -> (r: u32)
    ensures
        r == val.bits as u32,
        val.ty == WasmEdgeValType::WasmEdge_ValType_F32 ==> WasmVal::F32(r) == spec_decode(val),
{
    val.bits as u32
}

/// Reads the low 64 payload bits of a wire value as IEEE-754 float bits.
#[allow(non_snake_case)]
pub fn WasmEdgeValueGetF64(val: WasmEdgeValue) -> (r: u64)
    ensures
        r == val.bits as u64,
        val.ty == WasmEdgeValType::WasmEdge_ValType_F64 ==> WasmVal::F64(r) == spec_decode(val),
{
    val.bits as u64
}

/// Reads the payload of a wire value back as the opaque address of an
/// external reference.
#[allow(non_snake_case)]
pub fn WasmEdgeValueGetExternRef(val: WasmEdgeValue) -> (r: usize)
    ensures
        r == val.bits as usize,
        val.ty == WasmEdgeValType::WasmEdge_ValType_ExternRef ==> WasmVal::ExternRef(r)
            == spec_decode(val),
{
    val.bits as usize
}

} // verus!
