//! Values of the calling convention: a tagged union whose active member the paired
//! `TypeCode` selects, its 64-bit wire word, and typed extraction that checks the tag.

use vstd::prelude::*;
use vstd::slice::slice_to_vec;

use crate::bytearray::TVMByteArray;
use crate::context::{TVMContext, TVMDeviceType};
use crate::errors::Error;
use crate::function::Function;
use crate::module::Module;
use crate::ndarray::{ArrayInfo, NDArray, info_consistent};
use crate::ty::{type_code_name, type_code_of, TVMType, TypeCode};

verus! {

/// The active member of a wire value. Every integer and boolean is widened into the
/// 64-bit integer member; a float is kept as the bits of the 64-bit float member;
/// strings and byte arrays are held by value until they are laid out for a call.
#[derive(Debug, Clone)]
pub enum TVMValue {
    Int(i64),
    Float(u64),
    Handle(u64),
    Str(String),
    Bytes(Vec<u8>),
    Type(TVMType),
    Context(TVMContext),
}

/// Whether the tag `t` selects the member that `v` holds.
pub open spec fn fits(v: TVMValue, t: TypeCode) -> bool {
    match v {
        TVMValue::Int(_) => t is kDLInt || t is kDLUInt || t is kNull,
        TVMValue::Float(_) => t is kDLFloat,
        TVMValue::Handle(_) => t is kHandle || t is kArrayHandle || t is kNodeHandle
            || t is kModuleHandle || t is kFuncHandle,
        TVMValue::Str(_) => t is kStr,
        TVMValue::Bytes(_) => t is kBytes,
        TVMValue::Type(_) => t is kTVMType,
        TVMValue::Context(_) => t is kTVMContext,
    }
}

/// An element type laid out in the union: code, bits and lanes from the lowest byte up.
pub open spec fn pack_type(t: TVMType) -> u64 {
    (t.code as u64) | ((t.bits as u64) << 8u64) | ((t.lanes as u64) << 16u64)
}

/// A context laid out in the union: the device code in the low half, the device index
/// in the high half.
pub open spec fn pack_context(c: TVMContext) -> u64 {
    ((c.device_type.0 as u32) as u64) | (((c.device_id as u32) as u64) << 32u64)
}

pub open spec fn unpack_type(w: u64) -> TVMType {
    TVMType { code: w as u8, bits: (w >> 8u64) as u8, lanes: (w >> 16u64) as u16 }
}

pub open spec fn unpack_context(w: u64) -> TVMContext {
    TVMContext {
        device_type: TVMDeviceType((w as u32) as usize),
        device_id: ((w >> 32u64) as u32) as i32,
    }
}

/// The 64-bit word of the union for a value held in place; strings and byte arrays
/// travel behind a pointer and have none here.
pub open spec fn word_of(v: TVMValue) -> Option<u64> {
    match v {
        TVMValue::Int(i) => Some(i as u64),
        TVMValue::Float(b) => Some(b),
        TVMValue::Handle(h) => Some(h),
        TVMValue::Type(t) => Some(pack_type(t)),
        TVMValue::Context(c) => Some(pack_context(c)),
        TVMValue::Str(_) => None,
        TVMValue::Bytes(_) => None,
    }
}

/// The value that the word `w` holds under the tag `t`; none for the tags whose word
/// is a pointer to a string or a byte array.
pub open spec fn value_of_word(t: TypeCode, w: u64) -> Option<TVMValue> {
    match t {
        TypeCode::kDLInt | TypeCode::kDLUInt | TypeCode::kNull => Some(TVMValue::Int(w as i64)),
        TypeCode::kDLFloat => Some(TVMValue::Float(w)),
        TypeCode::kHandle | TypeCode::kArrayHandle | TypeCode::kNodeHandle
        | TypeCode::kModuleHandle | TypeCode::kFuncHandle => Some(TVMValue::Handle(w)),
        TypeCode::kTVMType => Some(TVMValue::Type(unpack_type(w))),
        TypeCode::kTVMContext => Some(TVMValue::Context(unpack_context(w))),
        TypeCode::kStr | TypeCode::kBytes => None,
    }
}

/// Round trip on the wire: a value held in place, laid out as a word and read back
/// under its own tag, is the same value. A context's device code must fit the 32 bits
/// that the union gives it.
pub proof fn lemma_word_round_trip(v: TVMValue, t: TypeCode)
    requires
        fits(v, t),
        word_of(v) is Some,
        v matches TVMValue::Context(c) ==> c.device_type.0 <= u32::MAX,
    ensures
        value_of_word(t, word_of(v).unwrap()) == Some(v),
{
    match v {
        TVMValue::Int(i) => {
            assert((i as u64) as i64 == i) by (bit_vector);
        },
        TVMValue::Type(ty) => {
            let (c, b, l) = (ty.code, ty.bits, ty.lanes);
            let w = pack_type(ty);
            assert(((c as u64) | ((b as u64) << 8u64) | ((l as u64) << 16u64)) as u8 == c)
                by (bit_vector);
            assert((((c as u64) | ((b as u64) << 8u64) | ((l as u64) << 16u64)) >> 8u64) as u8
                == b) by (bit_vector);
            assert((((c as u64) | ((b as u64) << 8u64) | ((l as u64) << 16u64)) >> 16u64) as u16
                == l) by (bit_vector);
            assert(unpack_type(w) == ty);
        },
        TVMValue::Context(ctx) => {
            let d = ctx.device_type.0 as u32;
            let i = ctx.device_id;
            assert((((d as u64) | (((i as u32) as u64) << 32u64)) as u32) == d) by (bit_vector);
            assert(((((d as u64) | (((i as u32) as u64) << 32u64)) >> 32u64) as u32) as i32 == i)
                by (bit_vector);
            assert((d as usize) == ctx.device_type.0);
            assert(unpack_context(pack_context(ctx)) == ctx);
        },
        _ => {},
    }
}

/// Round trip of the integer widths: widening into the 64-bit slot and narrowing back
/// gives every value of every width again, unsigned ones included.
pub proof fn lemma_int_widths_round_trip(
    a: i8,
    b: i16,
    c: i32,
    d: i64,
    e: u8,
    f: u16,
    g: u32,
    h: u64,
    k: usize,
)
    ensures
        (a as i64) as i8 == a,
        (b as i64) as i16 == b,
        (c as i64) as i32 == c,
        (d as i64) as i64 == d,
        (e as i64) as u8 == e,
        (f as i64) as u16 == f,
        (g as i64) as u32 == g,
        (h as i64) as u64 == h,
        (k as i64) as usize == k,
{
    assert((h as i64) as u64 == h) by (bit_vector);
    assert((k as u64 as i64) as u64 == k as u64) by (bit_vector);
    assert((k as i64) as usize == k) by (bit_vector);
}

impl TVMValue {
    /// The word of the union for a value held in place.
    pub fn word(&self) -> (r: Option<u64>)
        ensures
            r == word_of(*self),
    {
        match self {
            TVMValue::Int(i) => Some(*i as u64),
            TVMValue::Float(b) => Some(*b),
            TVMValue::Handle(h) => Some(*h),
            TVMValue::Type(t) => Some(
                (t.code as u64) | ((t.bits as u64) << 8u64) | ((t.lanes as u64) << 16u64),
            ),
            TVMValue::Context(c) => Some(
                ((c.device_type.0 as u32) as u64) | (((c.device_id as u32) as u64) << 32u64),
            ),
            TVMValue::Str(_) => None,
            TVMValue::Bytes(_) => None,
        }
    }

    /// The union read as its 64-bit integer member, for a value held in place.
    pub fn to_int(&self) -> (r: Option<i64>)
        ensures
            r == (match word_of(*self) {
                Some(w) => Some(w as i64),
                None => None,
            }),
    {
        match self.word() {
            Some(w) => Some(w as i64),
            None => None,
        }
    }

    /// The value that the word `w` holds under the tag `t`; none for strings and byte
    /// arrays, whose word is a pointer.
    pub fn from_word(t: TypeCode, w: u64) -> (r: Option<TVMValue>)
        ensures
            r == value_of_word(t, w),
    {
        match t {
            TypeCode::kDLInt | TypeCode::kDLUInt | TypeCode::kNull => Some(TVMValue::Int(w as i64)),
            TypeCode::kDLFloat => Some(TVMValue::Float(w)),
            TypeCode::kHandle | TypeCode::kArrayHandle | TypeCode::kNodeHandle
            | TypeCode::kModuleHandle | TypeCode::kFuncHandle => Some(TVMValue::Handle(w)),
            TypeCode::kTVMType => Some(
                TVMValue::Type(
                    TVMType { code: w as u8, bits: (w >> 8u64) as u8, lanes: (w >> 16u64) as u16 },
                ),
            ),
            TypeCode::kTVMContext => Some(
                TVMValue::Context(
                    TVMContext {
                        device_type: TVMDeviceType((w as u32) as usize),
                        device_id: ((w >> 32u64) as u32) as i32,
                    },
                ),
            ),
            TypeCode::kStr | TypeCode::kBytes => None,
        }
    }
}

/// The payload that a checked integer extraction yields.
pub open spec fn int_payload(v: TVMValue, t: TypeCode) -> Option<i64> {
    match v {
        TVMValue::Int(i) => if t is kDLInt || t is kNull {
            Some(i)
        } else {
            None
        },
        _ => None,
    }
}

pub open spec fn float_payload(v: TVMValue, t: TypeCode) -> Option<u64> {
    match v {
        TVMValue::Float(b) => if t is kDLFloat {
            Some(b)
        } else {
            None
        },
        _ => None,
    }
}

pub open spec fn str_payload(v: TVMValue, t: TypeCode) -> Option<Seq<char>> {
    match v {
        TVMValue::Str(s) => if t is kStr {
            Some(s@)
        } else {
            None
        },
        _ => None,
    }
}

pub open spec fn bytes_payload(v: TVMValue, t: TypeCode) -> Option<Seq<u8>> {
    match v {
        TVMValue::Bytes(b) => if t is kBytes {
            Some(b@)
        } else {
            None
        },
        _ => None,
    }
}

pub open spec fn type_payload(v: TVMValue, t: TypeCode) -> Option<TVMType> {
    match v {
        TVMValue::Type(x) => if t is kTVMType {
            Some(x)
        } else {
            None
        },
        _ => None,
    }
}

pub open spec fn ctx_payload(v: TVMValue, t: TypeCode) -> Option<TVMContext> {
    match v {
        TVMValue::Context(c) => if t is kTVMContext {
            Some(c)
        } else {
            None
        },
        _ => None,
    }
}

/// `e` reports that `expected` was asked for and the tag `found` was there.
pub open spec fn mismatch_of(e: Error, expected: Seq<char>, found: TypeCode) -> bool {
    e matches Error::TypeMismatch { expected: x, found: f } && x@ == expected && f@
        == type_code_name(found)
}

fn mismatch(expected: &str, found: TypeCode) -> (e: Error)
    ensures
        mismatch_of(e, expected@, found),
{
    Error::TypeMismatch { expected: expected.to_owned(), found: found.name().to_owned() }
}

/// The value and its tag, as handed to a call.
#[derive(Debug, Clone)]
pub struct TVMArgValue {
    pub value: TVMValue,
    pub type_code: TypeCode,
}

/// The value and its tag, as a call returned it.
#[derive(Debug, Clone)]
pub struct TVMRetValue {
    pub value: TVMValue,
    pub type_code: TypeCode,
}

fn int_of(value: &TVMValue, type_code: TypeCode) -> (r: Result<i64, Error>)
    ensures
        int_payload(*value, type_code) matches Some(i) ==> r == Ok::<i64, Error>(i),
        int_payload(*value, type_code) is None ==> (r matches Err(e) && mismatch_of(
            e,
            "int"@,
            type_code,
        )),
{
    match value {
        TVMValue::Int(i) => {
            if type_code == TypeCode::kDLInt || type_code == TypeCode::kNull {
                return Ok(*i);
            }
        },
        _ => {},
    }
    Err(mismatch("int", type_code))
}

fn float_bits_of(value: &TVMValue, type_code: TypeCode) -> (r: Result<u64, Error>)
    ensures
        float_payload(*value, type_code) matches Some(b) ==> r == Ok::<u64, Error>(b),
        float_payload(*value, type_code) is None ==> (r matches Err(e) && mismatch_of(
            e,
            "float"@,
            type_code,
        )),
{
    match value {
        TVMValue::Float(b) => {
            if type_code == TypeCode::kDLFloat {
                return Ok(*b);
            }
        },
        _ => {},
    }
    Err(mismatch("float", type_code))
}

fn string_of(value: &TVMValue, type_code: TypeCode) -> (r: Result<String, Error>)
    ensures
        str_payload(*value, type_code) matches Some(s) ==> (r matches Ok(x) && x@ == s),
        str_payload(*value, type_code) is None ==> (r matches Err(e) && mismatch_of(
            e,
            "string"@,
            type_code,
        )),
{
    match value {
        TVMValue::Str(s) => {
            if type_code == TypeCode::kStr {
                return Ok(s.clone());
            }
        },
        _ => {},
    }
    Err(mismatch("string", type_code))
}

fn bytes_of(value: &TVMValue, type_code: TypeCode) -> (r: Result<TVMByteArray, Error>)
    ensures
        bytes_payload(*value, type_code) matches Some(b) ==> (r matches Ok(x) && x@ == b),
        bytes_payload(*value, type_code) is None ==> (r matches Err(e) && mismatch_of(
            e,
            "bytes"@,
            type_code,
        )),
{
    match value {
        TVMValue::Bytes(b) => {
            if type_code == TypeCode::kBytes {
                return Ok(TVMByteArray::from(b.as_slice()));
            }
        },
        _ => {},
    }
    Err(mismatch("bytes", type_code))
}

/// The handle that an extraction under the tag `want` yields.
pub open spec fn handle_payload(v: TVMValue, t: TypeCode, want: TypeCode) -> Option<u64> {
    match v {
        TVMValue::Handle(h) => if t == want {
            Some(h)
        } else {
            None
        },
        _ => None,
    }
}

fn handle_of(value: &TVMValue, type_code: TypeCode, want: TypeCode) -> (r: Result<u64, Error>)
    ensures
        handle_payload(*value, type_code, want) matches Some(h) ==> r == Ok::<u64, Error>(h),
        handle_payload(*value, type_code, want) is None ==> (r matches Err(e) && mismatch_of(
            e,
            type_code_name(want),
            type_code,
        )),
{
    match value {
        TVMValue::Handle(h) => {
            if type_code == want {
                return Ok(*h);
            }
        },
        _ => {},
    }
    Err(mismatch(want.name(), type_code))
}

fn type_of(value: &TVMValue, type_code: TypeCode) -> (r: Result<TVMType, Error>)
    ensures
        type_payload(*value, type_code) matches Some(t) ==> r == Ok::<TVMType, Error>(t),
        type_payload(*value, type_code) is None ==> (r matches Err(e) && mismatch_of(
            e,
            "TVM type"@,
            type_code,
        )),
{
    match value {
        TVMValue::Type(t) => {
            if type_code == TypeCode::kTVMType {
                return Ok(*t);
            }
        },
        _ => {},
    }
    Err(mismatch("TVM type", type_code))
}

fn ctx_of(value: &TVMValue, type_code: TypeCode) -> (r: Result<TVMContext, Error>)
    ensures
        ctx_payload(*value, type_code) matches Some(c) ==> r == Ok::<TVMContext, Error>(c),
        ctx_payload(*value, type_code) is None ==> (r matches Err(e) && mismatch_of(
            e,
            "TVM context"@,
            type_code,
        )),
{
    match value {
        TVMValue::Context(c) => {
            if type_code == TypeCode::kTVMContext {
                return Ok(*c);
            }
        },
        _ => {},
    }
    Err(mismatch("TVM context", type_code))
}


impl TVMArgValue {
    pub fn new(value: TVMValue, type_code: TypeCode) -> (r: TVMArgValue)
        ensures
            r.value == value,
            r.type_code == type_code,
    {
        TVMArgValue { value, type_code }
    }

    pub fn from_i64(v: i64) -> (r: TVMArgValue)
        ensures
            r.value == TVMValue::Int(v),
            r.type_code == TypeCode::kDLInt,
    {
        TVMArgValue::new(TVMValue::Int(v), TypeCode::kDLInt)
    }

    pub fn from_i32(v: i32) -> (r: TVMArgValue)
        ensures
            r.value == TVMValue::Int(v as i64),
            r.type_code == TypeCode::kDLInt,
    {
        TVMArgValue::new(TVMValue::Int(v as i64), TypeCode::kDLInt)
    }

    pub fn from_i16(v: i16) -> (r: TVMArgValue)
        ensures
            r.value == TVMValue::Int(v as i64),
            r.type_code == TypeCode::kDLInt,
    {
        TVMArgValue::new(TVMValue::Int(v as i64), TypeCode::kDLInt)
    }

    pub fn from_i8(v: i8) -> (r: TVMArgValue)
        ensures
            r.value == TVMValue::Int(v as i64),
            r.type_code == TypeCode::kDLInt,
    {
        TVMArgValue::new(TVMValue::Int(v as i64), TypeCode::kDLInt)
    }

    pub fn from_usize(v: usize) -> (r: TVMArgValue)
        ensures
            r.value == TVMValue::Int(v as i64),
            r.type_code == TypeCode::kDLInt,
    {
        TVMArgValue::new(TVMValue::Int(v as i64), TypeCode::kDLInt)
    }

    pub fn from_u64(v: u64) -> (r: TVMArgValue)
        ensures
            r.value == TVMValue::Int(v as i64),
            r.type_code == TypeCode::kDLUInt,
    {
        TVMArgValue::new(TVMValue::Int(v as i64), TypeCode::kDLUInt)
    }

    pub fn from_u32(v: u32) -> (r: TVMArgValue)
        ensures
            r.value == TVMValue::Int(v as i64),
            r.type_code == TypeCode::kDLUInt,
    {
        TVMArgValue::new(TVMValue::Int(v as i64), TypeCode::kDLUInt)
    }

    pub fn from_u16(v: u16) -> (r: TVMArgValue)
        ensures
            r.value == TVMValue::Int(v as i64),
            r.type_code == TypeCode::kDLUInt,
    {
        TVMArgValue::new(TVMValue::Int(v as i64), TypeCode::kDLUInt)
    }

    pub fn from_u8(v: u8) -> (r: TVMArgValue)
        ensures
            r.value == TVMValue::Int(v as i64),
            r.type_code == TypeCode::kDLUInt,
    {
        TVMArgValue::new(TVMValue::Int(v as i64), TypeCode::kDLUInt)
    }

    /// A boolean, as the integer 1 or 0.
    pub fn from_bool(v: bool) -> (r: TVMArgValue)
        ensures
            r.value == TVMValue::Int(if v {
                1i64
            } else {
                0i64
            }),
            r.type_code == TypeCode::kDLInt,
    {
        TVMArgValue::new(TVMValue::Int(if v { 1 } else { 0 }), TypeCode::kDLInt)
    }

    /// A float, by the bits of its 64-bit form.
    pub fn from_float_bits(bits: u64) -> (r: TVMArgValue)
        ensures
            r.value == TVMValue::Float(bits),
            r.type_code == TypeCode::kDLFloat,
    {
        TVMArgValue::new(TVMValue::Float(bits), TypeCode::kDLFloat)
    }

    pub fn from_str(s: &str) -> (r: TVMArgValue)
        ensures
            str_payload(r.value, r.type_code) == Some(s@),
            r.type_code == TypeCode::kStr,
    {
        TVMArgValue::new(TVMValue::Str(s.to_owned()), TypeCode::kStr)
    }

    pub fn from_bytes(b: &[u8]) -> (r: TVMArgValue)
        ensures
            bytes_payload(r.value, r.type_code) == Some(b@),
            r.type_code == TypeCode::kBytes,
    {
        TVMArgValue::new(TVMValue::Bytes(slice_to_vec(b)), TypeCode::kBytes)
    }

    pub fn from_bytearray(b: &TVMByteArray) -> (r: TVMArgValue)
        ensures
            bytes_payload(r.value, r.type_code) == Some(b@),
            r.type_code == TypeCode::kBytes,
    {
        TVMArgValue::from_bytes(b.as_bytes().as_slice())
    }

    pub fn from_type(t: &TVMType) -> (r: TVMArgValue)
        ensures
            r.value == TVMValue::Type(*t),
            r.type_code == TypeCode::kTVMType,
    {
        TVMArgValue::new(TVMValue::Type(*t), TypeCode::kTVMType)
    }

    pub fn from_context(c: &TVMContext) -> (r: TVMArgValue)
        ensures
            r.value == TVMValue::Context(*c),
            r.type_code == TypeCode::kTVMContext,
    {
        TVMArgValue::new(TVMValue::Context(*c), TypeCode::kTVMContext)
    }

    /// A device kind, by its device code.
    pub fn from_device_type(d: &TVMDeviceType) -> (r: TVMArgValue)
        ensures
            r.value == TVMValue::Int(d.0 as i64),
            r.type_code == TypeCode::kDLInt,
    {
        TVMArgValue::new(TVMValue::Int(d.0 as i64), TypeCode::kDLInt)
    }

    /// A function, by its handle.
    pub fn from_function(f: &Function) -> (r: TVMArgValue)
        ensures
            r.value == TVMValue::Handle(f.spec_handle()),
            r.type_code == TypeCode::kFuncHandle,
    {
        TVMArgValue::new(TVMValue::Handle(f.as_handle()), TypeCode::kFuncHandle)
    }

    /// A module, by its handle.
    pub fn from_module(m: &Module) -> (r: TVMArgValue)
        ensures
            r.value == TVMValue::Handle(m.spec_handle()),
            r.type_code == TypeCode::kModuleHandle,
    {
        TVMArgValue::new(TVMValue::Handle(m.handle()), TypeCode::kModuleHandle)
    }

    /// A tensor, by its handle.
    pub fn from_ndarray(a: &NDArray) -> (r: TVMArgValue)
        ensures
            r.value == TVMValue::Handle(a.spec_slot().spec_handle()),
            r.type_code == TypeCode::kArrayHandle,
    {
        TVMArgValue::new(TVMValue::Handle(a.handle()), TypeCode::kArrayHandle)
    }

    /// The integer held under the `int` or `null` tag; `TypeMismatch` otherwise.
    pub fn to_int(&self) -> (r: Result<i64, Error>)
        ensures
            int_payload(self.value, self.type_code) matches Some(i) ==> r == Ok::<i64, Error>(i),
            int_payload(self.value, self.type_code) is None ==> (r matches Err(e) && mismatch_of(
                e,
                "int"@,
                self.type_code,
            )),
    {
        int_of(&self.value, self.type_code)
    }

    /// The bits of the 64-bit float held under the `float` tag; `TypeMismatch` otherwise.
    pub fn to_float_bits(&self) -> (r: Result<u64, Error>)
        ensures
            float_payload(self.value, self.type_code) matches Some(b) ==> r == Ok::<u64, Error>(b),
            float_payload(self.value, self.type_code) is None ==> (r matches Err(e)
                && mismatch_of(e, "float"@, self.type_code)),
    {
        float_bits_of(&self.value, self.type_code)
    }

    /// The string held under the `string` tag; `TypeMismatch` otherwise.
    pub fn to_string(&self) -> (r: Result<String, Error>)
        ensures
            str_payload(self.value, self.type_code) matches Some(s) ==> (r matches Ok(x) && x@
                == s),
            str_payload(self.value, self.type_code) is None ==> (r matches Err(e) && mismatch_of(
                e,
                "string"@,
                self.type_code,
            )),
    {
        string_of(&self.value, self.type_code)
    }

    /// The bytes held under the `bytes` tag; `TypeMismatch` otherwise.
    pub fn to_bytearray(&self) -> (r: Result<TVMByteArray, Error>)
        ensures
            bytes_payload(self.value, self.type_code) matches Some(b) ==> (r matches Ok(x) && x@
                == b),
            bytes_payload(self.value, self.type_code) is None ==> (r matches Err(e)
                && mismatch_of(e, "bytes"@, self.type_code)),
    {
        bytes_of(&self.value, self.type_code)
    }

    /// The module whose handle is held under the module tag, owned by the caller;
    /// `TypeMismatch` otherwise.
    pub fn to_module(&self) -> (r: Result<Module, Error>)
        ensures
            handle_payload(self.value, self.type_code, TypeCode::kModuleHandle) matches Some(h)
                ==> (r matches Ok(m) && m.spec_handle() == h && m.spec_slot().spec_owned()
                && !m.spec_slot().spec_released() && m.spec_entry() is None),
            handle_payload(self.value, self.type_code, TypeCode::kModuleHandle) is None ==> (r matches Err(e)
                && mismatch_of(e, "Module handle"@, self.type_code)),
    {
        match handle_of(&self.value, self.type_code, TypeCode::kModuleHandle) {
            Ok(h) => Ok(Module::new(h, false, None)),
            Err(e) => Err(e),
        }
    }

    /// A view of the tensor whose handle is held under the array tag, with the header
    /// the runtime's descriptor gives; `TypeMismatch` otherwise.
    pub fn to_ndarray(&self, info: ArrayInfo) -> (r: Result<NDArray, Error>)
        requires
            info_consistent(info),
        ensures
            handle_payload(self.value, self.type_code, TypeCode::kArrayHandle) matches Some(h)
                ==> (r matches Ok(a) && a.spec_slot().spec_handle() == h && !a.spec_slot().spec_owned()
                && a.spec_info() == info),
            handle_payload(self.value, self.type_code, TypeCode::kArrayHandle) is None ==> (r matches Err(e)
                && mismatch_of(e, "Array handle"@, self.type_code)),
    {
        match handle_of(&self.value, self.type_code, TypeCode::kArrayHandle) {
            Ok(h) => match NDArray::new(h, true, info) {
                Some(a) => Ok(a),
                None => Err(Error::EmptyArray),
            },
            Err(e) => Err(e),
        }
    }

    /// The element type held under the type tag; `TypeMismatch` otherwise.
    pub fn to_type(&self) -> (r: Result<TVMType, Error>)
        ensures
            type_payload(self.value, self.type_code) matches Some(t) ==> r == Ok::<TVMType, Error>(
                t,
            ),
            type_payload(self.value, self.type_code) is None ==> (r matches Err(e) && mismatch_of(
                e,
                "TVM type"@,
                self.type_code,
            )),
    {
        type_of(&self.value, self.type_code)
    }

    /// The context held under the context tag; `TypeMismatch` otherwise.
    pub fn to_ctx(&self) -> (r: Result<TVMContext, Error>)
        ensures
            ctx_payload(self.value, self.type_code) matches Some(c) ==> r == Ok::<
                TVMContext,
                Error,
            >(c),
            ctx_payload(self.value, self.type_code) is None ==> (r matches Err(e) && mismatch_of(
                e,
                "TVM context"@,
                self.type_code,
            )),
    {
        ctx_of(&self.value, self.type_code)
    }
}

impl TVMRetValue {
    pub fn new(value: TVMValue, type_code: TypeCode) -> (r: TVMRetValue)
        ensures
            r.value == value,
            r.type_code == type_code,
    {
        TVMRetValue { value, type_code }
    }

    /// The same value and tag, held as a result.
    pub fn from_arg(a: TVMArgValue) -> (r: TVMRetValue)
        ensures
            r.value == a.value,
            r.type_code == a.type_code,
    {
        TVMRetValue { value: a.value, type_code: a.type_code }
    }

    /// The same value and tag, handed on as an argument.
    pub fn into_arg(self) -> (r: TVMArgValue)
        ensures
            r.value == self.value,
            r.type_code == self.type_code,
    {
        TVMArgValue { value: self.value, type_code: self.type_code }
    }

    /// Decodes the two output slots of a call: the word and the tag code. `None` when
    /// the code is unknown, or names a string or byte array, whose word is a pointer
    /// that only the caller of the runtime can follow.
    pub fn from_word(word: u64, code: i32) -> (r: Option<TVMRetValue>)
        ensures
            r is Some <==> (type_code_of(code) matches Some(t) && value_of_word(t, word) is Some),
            r matches Some(v) ==> Some(v.type_code) == type_code_of(code) && Some(v.value)
                == value_of_word(v.type_code, word),
    {
        match TypeCode::from_code(code) {
            Some(t) => match TVMValue::from_word(t, word) {
                Some(v) => Some(TVMRetValue { value: v, type_code: t }),
                None => None,
            },
            None => None,
        }
    }

    /// The integer held under the `int` or `null` tag; `TypeMismatch` otherwise.
    pub fn to_int(&self) -> (r: Result<i64, Error>)
        ensures
            int_payload(self.value, self.type_code) matches Some(i) ==> r == Ok::<i64, Error>(i),
            int_payload(self.value, self.type_code) is None ==> (r matches Err(e) && mismatch_of(
                e,
                "int"@,
                self.type_code,
            )),
    {
        int_of(&self.value, self.type_code)
    }

    /// The bits of the 64-bit float held under the `float` tag; `TypeMismatch` otherwise.
    pub fn to_float_bits(&self) -> (r: Result<u64, Error>)
        ensures
            float_payload(self.value, self.type_code) matches Some(b) ==> r == Ok::<u64, Error>(b),
            float_payload(self.value, self.type_code) is None ==> (r matches Err(e)
                && mismatch_of(e, "float"@, self.type_code)),
    {
        float_bits_of(&self.value, self.type_code)
    }

    /// The string held under the `string` tag; `TypeMismatch` otherwise.
    pub fn to_string(&self) -> (r: Result<String, Error>)
        ensures
            str_payload(self.value, self.type_code) matches Some(s) ==> (r matches Ok(x) && x@
                == s),
            str_payload(self.value, self.type_code) is None ==> (r matches Err(e) && mismatch_of(
                e,
                "string"@,
                self.type_code,
            )),
    {
        string_of(&self.value, self.type_code)
    }

    /// The bytes held under the `bytes` tag; `TypeMismatch` otherwise.
    pub fn to_bytearray(&self) -> (r: Result<TVMByteArray, Error>)
        ensures
            bytes_payload(self.value, self.type_code) matches Some(b) ==> (r matches Ok(x) && x@
                == b),
            bytes_payload(self.value, self.type_code) is None ==> (r matches Err(e)
                && mismatch_of(e, "bytes"@, self.type_code)),
    {
        bytes_of(&self.value, self.type_code)
    }

    /// The module whose handle is held under the module tag, owned by the caller;
    /// `TypeMismatch` otherwise.
    pub fn to_module(&self) -> (r: Result<Module, Error>)
        ensures
            handle_payload(self.value, self.type_code, TypeCode::kModuleHandle) matches Some(h)
                ==> (r matches Ok(m) && m.spec_handle() == h && m.spec_slot().spec_owned()
                && !m.spec_slot().spec_released() && m.spec_entry() is None),
            handle_payload(self.value, self.type_code, TypeCode::kModuleHandle) is None ==> (r matches Err(e)
                && mismatch_of(e, "Module handle"@, self.type_code)),
    {
        match handle_of(&self.value, self.type_code, TypeCode::kModuleHandle) {
            Ok(h) => Ok(Module::new(h, false, None)),
            Err(e) => Err(e),
        }
    }

    /// A view of the tensor whose handle is held under the array tag, with the header
    /// the runtime's descriptor gives; `TypeMismatch` otherwise.
    pub fn to_ndarray(&self, info: ArrayInfo) -> (r: Result<NDArray, Error>)
        requires
            info_consistent(info),
        ensures
            handle_payload(self.value, self.type_code, TypeCode::kArrayHandle) matches Some(h)
                ==> (r matches Ok(a) && a.spec_slot().spec_handle() == h && !a.spec_slot().spec_owned()
                && a.spec_info() == info),
            handle_payload(self.value, self.type_code, TypeCode::kArrayHandle) is None ==> (r matches Err(e)
                && mismatch_of(e, "Array handle"@, self.type_code)),
    {
        match handle_of(&self.value, self.type_code, TypeCode::kArrayHandle) {
            Ok(h) => match NDArray::new(h, true, info) {
                Some(a) => Ok(a),
                None => Err(Error::EmptyArray),
            },
            Err(e) => Err(e),
        }
    }

    /// The element type held under the type tag; `TypeMismatch` otherwise.
    pub fn to_type(&self) -> (r: Result<TVMType, Error>)
        ensures
            type_payload(self.value, self.type_code) matches Some(t) ==> r == Ok::<TVMType, Error>(
                t,
            ),
            type_payload(self.value, self.type_code) is None ==> (r matches Err(e) && mismatch_of(
                e,
                "TVM type"@,
                self.type_code,
            )),
    {
        type_of(&self.value, self.type_code)
    }

    /// The context held under the context tag; `TypeMismatch` otherwise.
    pub fn to_ctx(&self) -> (r: Result<TVMContext, Error>)
        ensures
            ctx_payload(self.value, self.type_code) matches Some(c) ==> r == Ok::<
                TVMContext,
                Error,
            >(c),
            ctx_payload(self.value, self.type_code) is None ==> (r matches Err(e) && mismatch_of(
                e,
                "TVM context"@,
                self.type_code,
            )),
    {
        ctx_of(&self.value, self.type_code)
    }
}


/// Round trip of the primitives: a signed integer, an unsigned integer (read back
/// through the raw integer member), a boolean and the bits of a float, each encoded
/// as its constructor encodes it, laid out as a word and decoded under its tag, are
/// extracted unchanged.
pub proof fn lemma_primitive_round_trip(i: i64, u: u64, b: bool, f: u64)
    ensures
        value_of_word(TypeCode::kDLInt, word_of(TVMValue::Int(i)).unwrap()) matches Some(d)
            && int_payload(d, TypeCode::kDLInt) == Some(i),
        value_of_word(TypeCode::kDLUInt, word_of(TVMValue::Int(u as i64)).unwrap()) matches Some(
            d,
        ) && word_of(d) matches Some(w) && (w as i64) as u64 == u,
        value_of_word(
            TypeCode::kDLInt,
            word_of(TVMValue::Int(if b { 1i64 } else { 0i64 })).unwrap(),
        ) matches Some(d) && int_payload(d, TypeCode::kDLInt) matches Some(x) && (x != 0) == b,
        value_of_word(TypeCode::kDLFloat, word_of(TVMValue::Float(f)).unwrap()) matches Some(d)
            && float_payload(d, TypeCode::kDLFloat) == Some(f),
{
    lemma_word_round_trip(TVMValue::Int(i), TypeCode::kDLInt);
    lemma_word_round_trip(TVMValue::Int(u as i64), TypeCode::kDLUInt);
    lemma_word_round_trip(TVMValue::Int(if b { 1i64 } else { 0i64 }), TypeCode::kDLInt);
    lemma_word_round_trip(TVMValue::Float(f), TypeCode::kDLFloat);
    assert(((u as i64) as u64) as i64 == u as i64) by (bit_vector);
    assert((u as i64) as u64 == u) by (bit_vector);
}

/// Tag fidelity: of the typed extractions, exactly the one that the tag of a
/// well-formed value names succeeds; every other one finds no payload and so fails
/// with `TypeMismatch`.
pub proof fn lemma_only_matching_accessor(v: TVMValue, t: TypeCode, want: TypeCode)
    requires
        fits(v, t),
    ensures
        int_payload(v, t) is Some <==> (t is kDLInt || t is kNull),
        float_payload(v, t) is Some <==> t is kDLFloat,
        str_payload(v, t) is Some <==> t is kStr,
        bytes_payload(v, t) is Some <==> t is kBytes,
        type_payload(v, t) is Some <==> t is kTVMType,
        ctx_payload(v, t) is Some <==> t is kTVMContext,
        (want is kModuleHandle || want is kArrayHandle || want is kFuncHandle) ==> (handle_payload(
            v,
            t,
            want,
        ) is Some <==> t == want),
{
}

} // verus!
