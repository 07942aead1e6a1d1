//! Type codes that tag every value on the wire, and the element data types of tensors.
//!
//! Only the 32-bit numeric element types (`int`, `uint`, `float`) and 64-bit handles
//! have names.

use vstd::prelude::*;
use vstd::string::*;

verus! {

/// Tells whether two strings hold the same characters.
pub(crate) fn same_text(a: &str, b: &str) -> (r: bool)
    ensures
        r == (a@ == b@),
{
    let n = a.unicode_len();
    if n != b.unicode_len() {
        return false;
    }
    let mut i: usize = 0;
    while i < n
        invariant
            n == a@.len(),
            n == b@.len(),
            i <= n,
            forall|j: int| 0 <= j < i ==> a@[j] == b@[j],
        decreases n - i,
    {
        if a.get_char(i) != b.get_char(i) {
            return false;
        }
        i = i + 1;
    }
    assert(a@ =~= b@);
    true
}

/// The tag that says which member of a wire value is active.
#[allow(non_camel_case_types)]
#[derive(Debug, Clone, Copy, PartialEq, Eq, Hash, Structural)]
pub enum TypeCode {
    kDLInt,
    kDLUInt,
    kDLFloat,
    kHandle,
    kNull,
    kTVMType,
    kTVMContext,
    kArrayHandle,
    kNodeHandle,
    kModuleHandle,
    kFuncHandle,
    kStr,
    kBytes,
}

/// The integer that stands for `t` in the runtime's tag array.
pub open spec fn code_of(t: TypeCode) -> i32 {
    match t {
        TypeCode::kDLInt => 0,
        TypeCode::kDLUInt => 1,
        TypeCode::kDLFloat => 2,
        TypeCode::kHandle => 3,
        TypeCode::kNull => 4,
        TypeCode::kTVMType => 5,
        TypeCode::kTVMContext => 6,
        TypeCode::kArrayHandle => 7,
        TypeCode::kNodeHandle => 8,
        TypeCode::kModuleHandle => 9,
        TypeCode::kFuncHandle => 10,
        TypeCode::kStr => 11,
        TypeCode::kBytes => 12,
    }
}

/// The tag that the integer `c` stands for, if any.
pub open spec fn type_code_of(c: i32) -> Option<TypeCode> {
    if c == 0 {
        Some(TypeCode::kDLInt)
    } else if c == 1 {
        Some(TypeCode::kDLUInt)
    } else if c == 2 {
        Some(TypeCode::kDLFloat)
    } else if c == 3 {
        Some(TypeCode::kHandle)
    } else if c == 4 {
        Some(TypeCode::kNull)
    } else if c == 5 {
        Some(TypeCode::kTVMType)
    } else if c == 6 {
        Some(TypeCode::kTVMContext)
    } else if c == 7 {
        Some(TypeCode::kArrayHandle)
    } else if c == 8 {
        Some(TypeCode::kNodeHandle)
    } else if c == 9 {
        Some(TypeCode::kModuleHandle)
    } else if c == 10 {
        Some(TypeCode::kFuncHandle)
    } else if c == 11 {
        Some(TypeCode::kStr)
    } else if c == 12 {
        Some(TypeCode::kBytes)
    } else {
        None
    }
}

/// The display name of a tag.
pub open spec fn type_code_name(t: TypeCode) -> Seq<char> {
    match t {
        TypeCode::kDLInt => "int"@,
        TypeCode::kDLUInt => "uint"@,
        TypeCode::kDLFloat => "float"@,
        TypeCode::kHandle => "handle"@,
        TypeCode::kNull => "null"@,
        TypeCode::kTVMType => "TVM type"@,
        TypeCode::kTVMContext => "TVM context"@,
        TypeCode::kArrayHandle => "Array handle"@,
        TypeCode::kNodeHandle => "Node handle"@,
        TypeCode::kModuleHandle => "Module handle"@,
        TypeCode::kFuncHandle => "Function handle"@,
        TypeCode::kStr => "string"@,
        TypeCode::kBytes => "bytes"@,
    }
}

/// Decoding an encoded tag gives the tag back, and only the thirteen codes decode.
pub proof fn lemma_type_code_round_trip(t: TypeCode, c: i32)
    ensures
        type_code_of(code_of(t)) == Some(t),
        type_code_of(c) is Some <==> 0 <= c <= 12,
        type_code_of(c) is Some ==> code_of(type_code_of(c).unwrap()) == c,
{
}

impl TypeCode {
    /// The integer that stands for this tag in the runtime's tag array.
    pub fn code(&self) -> (r: i32)
        ensures
            r == code_of(*self),
    {
        match self {
            TypeCode::kDLInt => 0,
            TypeCode::kDLUInt => 1,
            TypeCode::kDLFloat => 2,
            TypeCode::kHandle => 3,
            TypeCode::kNull => 4,
            TypeCode::kTVMType => 5,
            TypeCode::kTVMContext => 6,
            TypeCode::kArrayHandle => 7,
            TypeCode::kNodeHandle => 8,
            TypeCode::kModuleHandle => 9,
            TypeCode::kFuncHandle => 10,
            TypeCode::kStr => 11,
            TypeCode::kBytes => 12,
        }
    }

    /// The tag that a code of the runtime's tag array stands for; `None` for an unknown code.
    pub fn from_code(c: i32) -> (r: Option<TypeCode>)
        ensures
            r == type_code_of(c),
    {
        if c == 0 {
            Some(TypeCode::kDLInt)
        } else if c == 1 {
            Some(TypeCode::kDLUInt)
        } else if c == 2 {
            Some(TypeCode::kDLFloat)
        } else if c == 3 {
            Some(TypeCode::kHandle)
        } else if c == 4 {
            Some(TypeCode::kNull)
        } else if c == 5 {
            Some(TypeCode::kTVMType)
        } else if c == 6 {
            Some(TypeCode::kTVMContext)
        } else if c == 7 {
            Some(TypeCode::kArrayHandle)
        } else if c == 8 {
            Some(TypeCode::kNodeHandle)
        } else if c == 9 {
            Some(TypeCode::kModuleHandle)
        } else if c == 10 {
            Some(TypeCode::kFuncHandle)
        } else if c == 11 {
            Some(TypeCode::kStr)
        } else if c == 12 {
            Some(TypeCode::kBytes)
        } else {
            None
        }
    }

    /// The display name of this tag.
    pub fn name(&self) -> (r: &'static str)
        ensures
            r@ == type_code_name(*self),
    {
        match self {
            TypeCode::kDLInt => "int",
            TypeCode::kDLUInt => "uint",
            TypeCode::kDLFloat => "float",
            TypeCode::kHandle => "handle",
            TypeCode::kNull => "null",
            TypeCode::kTVMType => "TVM type",
            TypeCode::kTVMContext => "TVM context",
            TypeCode::kArrayHandle => "Array handle",
            TypeCode::kNodeHandle => "Node handle",
            TypeCode::kModuleHandle => "Module handle",
            TypeCode::kFuncHandle => "Function handle",
            TypeCode::kStr => "string",
            TypeCode::kBytes => "bytes",
        }
    }
}

impl Default for TypeCode {
    fn default() -> (r: TypeCode)
        ensures
            r == TypeCode::kDLInt,
    {
        TypeCode::kDLInt
    }
}

/// The element type of a tensor: type code, bit width and vector lanes.
#[derive(Debug, Clone, Copy, PartialEq, Eq, Hash, Structural)]
pub struct TVMType {
    pub code: u8,
    pub bits: u8,
    pub lanes: u16,
}

/// The element type that a name stands for, if the name is one of the four known ones.
pub open spec fn type_of_name(s: Seq<char>) -> Option<TVMType> {
    if s == "int"@ {
        Some(TVMType { code: 0, bits: 32, lanes: 1 })
    } else if s == "uint"@ {
        Some(TVMType { code: 1, bits: 32, lanes: 1 })
    } else if s == "float"@ {
        Some(TVMType { code: 2, bits: 32, lanes: 1 })
    } else if s == "handle"@ {
        Some(TVMType { code: 4, bits: 64, lanes: 1 })
    } else {
        None
    }
}

/// The name of an element type, if it has one.
pub open spec fn name_of_type(t: TVMType) -> Option<Seq<char>> {
    if t == (TVMType { code: 0, bits: 32, lanes: 1 }) {
        Some("int"@)
    } else if t == (TVMType { code: 1, bits: 32, lanes: 1 }) {
        Some("uint"@)
    } else if t == (TVMType { code: 2, bits: 32, lanes: 1 }) {
        Some("float"@)
    } else if t == (TVMType { code: 4, bits: 64, lanes: 1 }) {
        Some("handle"@)
    } else {
        None
    }
}

/// The display text of an element type.
pub open spec fn type_display(t: TVMType) -> Seq<char> {
    match name_of_type(t) {
        Some(n) => n,
        None => "unknown type"@,
    }
}

/// Naming a named element type and reading the name back gives the type again.
pub proof fn lemma_type_name_round_trip(t: TVMType)
    requires
        name_of_type(t) is Some,
    ensures
        type_of_name(name_of_type(t).unwrap()) == Some(t),
{
    reveal_strlit("int");
    reveal_strlit("uint");
    reveal_strlit("float");
    reveal_strlit("handle");
    assert("int"@.len() == 3);
    assert("uint"@.len() == 4);
    assert("float"@.len() == 5);
    assert("handle"@.len() == 6);
}

impl TVMType {
    /// An element type from its three fields.
    pub fn new(type_code: u8, bits: u8, lanes: u16) -> (r: TVMType)
        ensures
            r == (TVMType { code: type_code, bits, lanes }),
    {
        TVMType { code: type_code, bits, lanes }
    }

    /// The element type that a name stands for: `int`, `uint`, `float` or `handle`.
    pub fn from_name(type_str: &str) -> (r: Option<TVMType>)
        ensures
            r == type_of_name(type_str@),
    {
        if same_text(type_str, "int") {
            Some(TVMType::new(0, 32, 1))
        } else if same_text(type_str, "uint") {
            Some(TVMType::new(1, 32, 1))
        } else if same_text(type_str, "float") {
            Some(TVMType::new(2, 32, 1))
        } else if same_text(type_str, "handle") {
            Some(TVMType::new(4, 64, 1))
        } else {
            None
        }
    }

    /// The element type that a known name stands for.
    pub fn from(type_str: &str) -> (r: TVMType)
        requires
            type_of_name(type_str@) is Some,
        ensures
            Some(r) == type_of_name(type_str@),
    {
        match TVMType::from_name(type_str) {
            Some(t) => t,
            None => TVMType::new(0, 32, 1),
        }
    }

    /// The name of this element type, if it is one of the four known ones.
    pub fn as_name(&self) -> (r: Option<&'static str>)
        ensures
            r matches Some(s) ==> name_of_type(*self) == Some(s@),
            r is None ==> name_of_type(*self) is None,
    {
        if self.code == 0 && self.bits == 32 && self.lanes == 1 {
            Some("int")
        } else if self.code == 1 && self.bits == 32 && self.lanes == 1 {
            Some("uint")
        } else if self.code == 2 && self.bits == 32 && self.lanes == 1 {
            Some("float")
        } else if self.code == 4 && self.bits == 64 && self.lanes == 1 {
            Some("handle")
        } else {
            None
        }
    }

    /// The display text of this element type: its name, or `unknown type`.
    pub fn name(&self) -> (r: &'static str)
        ensures
            r@ == type_display(*self),
    {
        match self.as_name() {
            Some(s) => s,
            None => "unknown type",
        }
    }
}

} // verus!
