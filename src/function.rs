//! Functions of the runtime and the packed calling convention: a call passes one array
//! of value slots and one parallel array of tag codes through a single entry point.

use vstd::prelude::*;

use vstd::string::*;

use crate::errors::Error;
use crate::handle::OwnedHandle;
use crate::module::Module;
use crate::registry::{is_listed, listed};
use crate::ty::{code_of, type_code_of, TypeCode};
use crate::value::{value_of_word, TVMArgValue, TVMRetValue, TVMValue};

verus! {

/// A function of the runtime. A globally registered one belongs to the runtime and is
/// never freed here; any other is freed once, by the wrapper that owns it.
#[derive(Debug)]
pub struct Function {
    slot: OwnedHandle,
}

/// A lookup found nothing under `name`.
pub open spec fn null_handle_of(e: Error, name: Seq<char>) -> bool {
    e matches Error::NullHandle { name: n } && n@ == name
}

impl Function {
    /// Who frees the handle of this function.
    pub closed spec fn spec_slot(&self) -> &OwnedHandle {
        &self.slot
    }

    pub open spec fn spec_handle(&self) -> u64 {
        self.spec_slot().spec_handle()
    }

    pub open spec fn spec_is_global(&self) -> bool {
        !self.spec_slot().spec_owned()
    }

    pub fn new(handle: u64, is_global: bool, is_released: bool) -> (r: Function)
        ensures
            r.spec_handle() == handle,
            r.spec_is_global() == is_global,
            r.spec_slot().spec_released() == is_released,
    {
        Function { slot: OwnedHandle::new(handle, !is_global, is_released) }
    }

    pub fn as_handle(&self) -> (r: u64)
        ensures
            r == self.spec_handle(),
    {
        self.slot.handle()
    }

    pub fn is_global(&self) -> (r: bool)
        ensures
            r == self.spec_is_global(),
    {
        !self.slot.is_owned()
    }

    pub fn is_released(&self) -> (r: bool)
        ensures
            r == self.spec_slot().spec_released(),
    {
        self.slot.is_released()
    }

    /// Takes over the duty to free the handle: true exactly when the caller must now
    /// call the runtime's free routine, which happens at most once and never for a
    /// global function.
    pub fn release(&mut self) -> (free_now: bool)
        ensures
            free_now == old(self).spec_slot().frees_now(),
            old(self).spec_slot().released_state(final(self).spec_slot()),
    {
        self.slot.release()
    }
}

/// What a lookup of a global function by name gives, from the handle the runtime
/// returned for it (0 when it found none): the function, which belongs to the runtime
/// and is never freed here; nothing when a missing one is allowed; or `NullHandle`
/// naming it.
pub fn get_global_func(name: &str, handle: u64, allow_missing: bool) -> (r: Result<
    Option<Function>,
    Error,
>)
    ensures
        handle != 0 ==> (r matches Ok(Some(f)) && f.spec_handle() == handle && f.spec_is_global()
            && !f.spec_slot().spec_released()),
        handle == 0 && allow_missing ==> r matches Ok(None),
        handle == 0 && !allow_missing ==> (r matches Err(e) && null_handle_of(e, name@)),
{
    if handle != 0 {
        Ok(Some(Function::new(handle, true, false)))
    } else if allow_missing {
        Ok(None)
    } else {
        Err(Error::NullHandle { name: name.to_owned() })
    }
}

impl Function {
    /// What resolving `name` among the global functions that the runtime listed gives.
    /// `handle` is what the runtime's lookup returned for it, 0 when it found none or
    /// was not asked because the name is not listed. A listed name with a handle gives
    /// the global function; any other name gives nothing when a missing function is
    /// allowed, and `NullHandle` naming it otherwise.
    pub fn get_function(names: &Vec<String>, name: &str, handle: u64, allow_missing: bool) -> (r:
        Result<Option<Function>, Error>)
        ensures
            listed(names@, name@) && handle != 0 ==> (r matches Ok(Some(f)) && f.spec_handle()
                == handle && f.spec_is_global() && !f.spec_slot().spec_released()),
            !(listed(names@, name@) && handle != 0) && allow_missing ==> r matches Ok(None),
            !(listed(names@, name@) && handle != 0) && !allow_missing ==> (r matches Err(e)
                && null_handle_of(e, name@)),
    {
        let found = if is_listed(names, name) {
            handle
        } else {
            0
        };
        get_global_func(name, found, allow_missing)
    }
}

/// Whether a name can be handed to the runtime: it holds no NUL character.
pub open spec fn c_name_ok(name: Seq<char>) -> bool {
    forall|i: int| 0 <= i < name.len() ==> name[i] != '\0'
}

/// Fails with `NulError` when a name cannot be handed to the runtime.
pub fn check_name(name: &str) -> (r: Result<(), Error>)
    ensures
        r is Ok <==> c_name_ok(name@),
        r matches Err(e) ==> e == Error::NulError,
{
    let n = name.unicode_len();
    let mut i: usize = 0;
    while i < n
        invariant
            n == name@.len(),
            i <= n,
            forall|j: int| 0 <= j < i ==> name@[j] != '\0',
        decreases n - i,
    {
        if name.get_char(i) == '\0' {
            return Err(Error::NulError);
        }
        i = i + 1;
    }
    Ok(())
}


/// A call under construction: the function, its arguments in call order, and an
/// optional output slot that the callee writes its result into.
#[derive(Debug)]
pub struct Builder {
    pub func: Option<Function>,
    pub arg_buf: Vec<TVMArgValue>,
    pub ret_buf: Option<TVMRetValue>,
}

/// A call laid out for the runtime's call entry point: the function, one value per
/// argument (the output slot last, if any), and the parallel tag codes.
#[derive(Debug)]
pub struct PackedCall {
    pub func: Function,
    pub values: Vec<TVMValue>,
    pub type_codes: Vec<i32>,
    pub num_args: i32,
}

/// The values that a call passes, in order: the arguments, then the output slot.
pub open spec fn packed_values(args: Seq<TVMArgValue>, out: Option<TVMRetValue>) -> Seq<TVMValue> {
    args.map_values(|a: TVMArgValue| a.value) + match out {
        Some(r) => seq![r.value],
        None => Seq::<TVMValue>::empty(),
    }
}

/// The tag codes that a call passes, parallel to its values.
pub open spec fn packed_codes(args: Seq<TVMArgValue>, out: Option<TVMRetValue>) -> Seq<i32> {
    args.map_values(|a: TVMArgValue| code_of(a.type_code)) + match out {
        Some(r) => seq![code_of(r.type_code)],
        None => Seq::<i32>::empty(),
    }
}

impl Default for Builder {
    fn default() -> (r: Builder)
        ensures
            r.func is None,
            r.arg_buf@.len() == 0,
            r.ret_buf is None,
    {
        Builder { func: None, arg_buf: Vec::new(), ret_buf: None }
    }
}

impl Builder {
    pub fn new(func: Option<Function>, arg_buf: Vec<TVMArgValue>, ret_buf: Option<TVMRetValue>) -> (r:
        Builder)
        ensures
            r.func == func,
            r.arg_buf@ == arg_buf@,
            r.ret_buf == ret_buf,
    {
        Builder { func, arg_buf, ret_buf }
    }

    /// A call of `func` with no arguments yet.
    pub fn from_function(func: Function) -> (r: Builder)
        ensures
            r.func == Some(func),
            r.arg_buf@.len() == 0,
            r.ret_buf is None,
    {
        Builder { func: Some(func), arg_buf: Vec::new(), ret_buf: None }
    }

    /// A call of a module's entry function, which the builder takes over from the module.
    pub fn from_module(module: &mut Module) -> (r: Builder)
        ensures
            r.func == old(module).spec_entry(),
            final(module).spec_entry() is None,
            final(module).spec_slot() == old(module).spec_slot(),
            r.arg_buf@.len() == 0,
            r.ret_buf is None,
    {
        Builder { func: module.take_entry(), arg_buf: Vec::new(), ret_buf: None }
    }

    /// Sets the function to call, as a lookup by name found it.
    pub fn get_function(self, found: Option<Function>) -> (r: Builder)
        ensures
            r.func == found,
            r.arg_buf@ == self.arg_buf@,
            r.ret_buf == self.ret_buf,
    {
        let Builder { func: _, arg_buf, ret_buf } = self;
        Builder { func: found, arg_buf, ret_buf }
    }

    /// Appends one argument after those already given.
    pub fn arg(self, arg: TVMArgValue) -> (r: Builder)
        ensures
            r.func == self.func,
            r.arg_buf@ == self.arg_buf@.push(arg),
            r.ret_buf == self.ret_buf,
    {
        let Builder { func, mut arg_buf, ret_buf } = self;
        arg_buf.push(arg);
        Builder { func, arg_buf, ret_buf }
    }

    /// Appends arguments, in their order, after those already given.
    pub fn args(self, args: Vec<TVMArgValue>) -> (r: Builder)
        ensures
            r.func == self.func,
            r.arg_buf@ == self.arg_buf@ + args@,
            r.ret_buf == self.ret_buf,
    {
        let Builder { func, mut arg_buf, ret_buf } = self;
        let mut rest = args;
        arg_buf.append(&mut rest);
        Builder { func, arg_buf, ret_buf }
    }

    /// Makes `out` the output slot of the call, in place of any earlier one.
    pub fn accept_ret(self, out: TVMRetValue) -> (r: Builder)
        ensures
            r.func == self.func,
            r.arg_buf@ == self.arg_buf@,
            r.ret_buf == Some(out),
    {
        let Builder { func, arg_buf, ret_buf: _ } = self;
        Builder { func, arg_buf, ret_buf: Some(out) }
    }

    /// The number of values a call passes: its arguments, and the output slot if any.
    pub open spec fn arg_count(&self) -> int {
        self.arg_buf@.len() + if self.ret_buf is Some {
            1int
        } else {
            0int
        }
    }

    /// Whether the count of values fits the runtime's `int` argument count.
    pub fn fits_call(&self) -> (r: bool)
        ensures
            r == (self.arg_count() <= i32::MAX),
    {
        let n = self.arg_buf.len();
        if self.ret_buf.is_some() {
            n < i32::MAX as usize
        } else {
            n <= i32::MAX as usize
        }
    }

    /// Lays the call out for the runtime: `NoFunction` without a function,
    /// `TooManyArguments` when the count of values exceeds the runtime's `int`; otherwise
    /// the values and tag codes of the arguments in the order given, the output slot last.
    pub fn pack(self) -> (r: Result<PackedCall, Error>)
        ensures
            (self.func is Some && self.arg_count() <= i32::MAX) <==> r is Ok,
            self.func is None ==> r == Err::<PackedCall, Error>(Error::NoFunction),
            self.func is Some && self.arg_count() > i32::MAX ==> r == Err::<PackedCall, Error>(
                Error::TooManyArguments,
            ),
            r matches Ok(p) ==> {
                &&& Some(p.func) == self.func
                &&& p.values@ == packed_values(self.arg_buf@, self.ret_buf)
                &&& p.type_codes@ == packed_codes(self.arg_buf@, self.ret_buf)
                &&& p.num_args == p.values@.len()
            },
    {
        if self.func.is_none() {
            return Err(Error::NoFunction);
        }
        if !self.fits_call() {
            return Err(Error::TooManyArguments);
        }
        let Builder { func, arg_buf, ret_buf } = self;
        let func = match func {
            Some(f) => f,
            None => return Err(Error::NoFunction),
        };
        let ghost orig = arg_buf@;
        let n = arg_buf.len();
        let mut rest = arg_buf;
        let mut reversed: Vec<TVMArgValue> = Vec::with_capacity(n);
        while rest.len() > 0
            invariant
                orig.len() == n,
                rest@ == orig.subrange(0, n - reversed@.len()),
                reversed@.len() <= n,
                forall|j: int| 0 <= j < reversed@.len() ==> reversed@[j] == orig[n - 1 - j],
            decreases rest@.len(),
        {
            match rest.pop() {
                Some(a) => {
                    reversed.push(a);
                },
                None => {},
            }
            assert(rest@ =~= orig.subrange(0, n - reversed@.len()));
        }
        let mut values: Vec<TVMValue> = Vec::with_capacity(n + 1);
        let mut type_codes: Vec<i32> = Vec::with_capacity(n + 1);
        while reversed.len() > 0
            invariant
                orig.len() == n,
                n <= i32::MAX,
                values@.len() + reversed@.len() == n,
                type_codes@.len() == values@.len(),
                forall|j: int| 0 <= j < reversed@.len() ==> reversed@[j] == orig[n - 1 - j],
                values@ == orig.subrange(0, values@.len() as int).map_values(
                    |a: TVMArgValue| a.value,
                ),
                type_codes@ == orig.subrange(0, values@.len() as int).map_values(
                    |a: TVMArgValue| code_of(a.type_code),
                ),
            decreases reversed@.len(),
        {
            let ghost k = values@.len();
            match reversed.pop() {
                Some(a) => {
                    assert(a == orig[k as int]);
                    type_codes.push(a.type_code.code());
                    values.push(a.value);
                },
                None => {},
            }
            assert(orig.subrange(0, k as int + 1).drop_last() =~= orig.subrange(0, k as int));
            assert(values@ =~= orig.subrange(0, values@.len() as int).map_values(
                |a: TVMArgValue| a.value,
            ));
            assert(type_codes@ =~= orig.subrange(0, values@.len() as int).map_values(
                |a: TVMArgValue| code_of(a.type_code),
            ));
        }
        assert(orig.subrange(0, n as int) =~= orig);
        match ret_buf {
            Some(out) => {
                type_codes.push(out.type_code.code());
                values.push(out.value);
            },
            None => {},
        }
        assert(values@ =~= packed_values(orig, ret_buf));
        assert(type_codes@ =~= packed_codes(orig, ret_buf));
        let num_args = values.len() as i32;
        Ok(PackedCall { func, values, type_codes, num_args })
    }
}

/// What a call's status says: success for 0, otherwise `CallFailed` carrying the
/// runtime's last error message, copied at the moment of failure.
pub fn check_call(status: i32, last_error: &str) -> (r: Result<(), Error>)
    ensures
        status == 0 ==> r is Ok,
        status != 0 ==> (r matches Err(Error::CallFailed { message }) && message@ == last_error@),
{
    if status == 0 {
        Ok(())
    } else {
        Err(Error::CallFailed { message: last_error.to_owned() })
    }
}

/// One output or argument slot as the runtime hands it over: the word of a value held
/// in place, or what the pointer of a string or a byte array points to.
#[derive(Debug, Clone)]
pub enum WireSlot {
    Word(u64),
    Text(String),
    Data(Vec<u8>),
}

/// The value that a slot holds under the tag code `code`, if the two agree.
pub open spec fn slot_value(slot: WireSlot, code: i32) -> Option<TVMValue> {
    match type_code_of(code) {
        Some(TypeCode::kStr) => match slot {
            WireSlot::Text(s) => Some(TVMValue::Str(s)),
            _ => None,
        },
        Some(TypeCode::kBytes) => match slot {
            WireSlot::Data(b) => Some(TVMValue::Bytes(b)),
            _ => None,
        },
        Some(t) => match slot {
            WireSlot::Word(w) => value_of_word(t, w),
            _ => None,
        },
        None => None,
    }
}

/// Decodes one slot under its tag code; `None` for an unknown code or a slot of the
/// wrong shape.
pub fn decode_slot(slot: WireSlot, code: i32) -> (r: Option<TVMRetValue>)
    ensures
        r is Some <==> slot_value(slot, code) is Some,
        r matches Some(v) ==> Some(v.type_code) == type_code_of(code) && Some(v.value)
            == slot_value(slot, code),
{
    match TypeCode::from_code(code) {
        Some(TypeCode::kStr) => match slot {
            WireSlot::Text(s) => Some(TVMRetValue::new(TVMValue::Str(s), TypeCode::kStr)),
            _ => None,
        },
        Some(TypeCode::kBytes) => match slot {
            WireSlot::Data(b) => Some(TVMRetValue::new(TVMValue::Bytes(b), TypeCode::kBytes)),
            _ => None,
        },
        Some(t) => match slot {
            WireSlot::Word(w) => match TVMValue::from_word(t, w) {
                Some(v) => Some(TVMRetValue::new(v, t)),
                None => None,
            },
            _ => None,
        },
        None => None,
    }
}

/// Whether an argument of this tag code reaches a host callback only after the runtime
/// has handed its ownership over: node, function and module handles.
pub fn needs_handoff(code: i32) -> (r: bool)
    ensures
        r == (code == code_of(TypeCode::kNodeHandle) || code == code_of(TypeCode::kFuncHandle)
            || code == code_of(TypeCode::kModuleHandle)),
{
    code == TypeCode::kNodeHandle.code() || code == TypeCode::kFuncHandle.code() || code
        == TypeCode::kModuleHandle.code()
}

/// Decodes the arguments of a call into a host callback, in order; `None` when the two
/// arrays differ in length or a slot does not agree with its code.
pub fn decode_callback_args(slots: Vec<WireSlot>, codes: &Vec<i32>) -> (r: Option<Vec<TVMArgValue>>)
    ensures
        r is Some <==> (slots@.len() == codes@.len() && forall|i: int|
            0 <= i < slots@.len() ==> slot_value(#[trigger] slots@[i], codes@[i]) is Some),
        r matches Some(args) ==> args@.len() == slots@.len() && forall|i: int|
            0 <= i < args@.len() ==> Some(#[trigger] args@[i].value) == slot_value(
                slots@[i],
                codes@[i],
            ) && Some(args@[i].type_code) == type_code_of(codes@[i]),
{
    if slots.len() != codes.len() {
        return None;
    }
    let n = slots.len();
    let ghost orig = slots@;
    let mut rest = slots;
    let mut reversed: Vec<WireSlot> = Vec::with_capacity(n);
    while rest.len() > 0
        invariant
            orig == slots@,
            orig.len() == n,
            rest@ == orig.subrange(0, n - reversed@.len()),
            reversed@.len() <= n,
            forall|j: int| 0 <= j < reversed@.len() ==> reversed@[j] == orig[n - 1 - j],
        decreases rest@.len(),
    {
        match rest.pop() {
            Some(a) => {
                reversed.push(a);
            },
            None => {},
        }
        assert(rest@ =~= orig.subrange(0, n - reversed@.len()));
    }
    let mut args: Vec<TVMArgValue> = Vec::with_capacity(n);
    while reversed.len() > 0
        invariant
            orig == slots@,
            orig.len() == n,
            codes@.len() == n,
            args@.len() + reversed@.len() == n,
            forall|j: int| 0 <= j < reversed@.len() ==> reversed@[j] == orig[n - 1 - j],
            forall|i: int|
                0 <= i < args@.len() ==> Some(#[trigger] args@[i].value) == slot_value(
                    orig[i],
                    codes@[i],
                ) && Some(args@[i].type_code) == type_code_of(codes@[i]),
            forall|i: int| 0 <= i < args@.len() ==> slot_value(#[trigger] orig[i], codes@[i]) is Some,
        decreases reversed@.len(),
    {
        let k = args.len();
        match reversed.pop() {
            Some(slot) => {
                assert(slot == orig[k as int]);
                match decode_slot(slot, codes[k]) {
                    Some(v) => {
                        args.push(v.into_arg());
                    },
                    None => {
                        assert(slot_value(orig[k as int], codes@[k as int]) is None);
                        return None;
                    },
                }
            },
            None => {},
        }
    }
    assert(orig == slots@);
    Some(args)
}

/// What a host callback's result becomes for the runtime: its value and tag code with
/// status 0, or the error's message, to be set as the last error, with status -1.
#[derive(Debug)]
pub enum CallbackReply {
    Return { value: TVMValue, type_code: i32 },
    Fail { message: String },
}

impl CallbackReply {
    pub fn from_result(result: Result<TVMRetValue, Error>) -> (r: CallbackReply)
        ensures
            result matches Ok(v) ==> r == (CallbackReply::Return {
                value: v.value,
                type_code: code_of(v.type_code),
            }),
            result matches Err(e) ==> (r matches CallbackReply::Fail { message } && message@
                == crate::errors::error_message(e)),
    {
        match result {
            Ok(v) => CallbackReply::Return { value: v.value, type_code: v.type_code.code() },
            Err(e) => CallbackReply::Fail { message: e.message() },
        }
    }

    /// The status the callback returns to the runtime.
    pub fn status(&self) -> (r: i32)
        ensures
            r == (if self is Return {
                0i32
            } else {
                -1i32
            }),
    {
        match self {
            CallbackReply::Return { .. } => 0,
            CallbackReply::Fail { .. } => -1,
        }
    }
}

} // verus!
