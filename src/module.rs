//! Modules of the runtime: function lookup, the entry function, loading from a file.

use vstd::prelude::*;

use crate::errors::Error;
use crate::function::{null_handle_of, Function};
use crate::handle::OwnedHandle;
use crate::ty::TypeCode;
use crate::value::{handle_payload, int_payload, mismatch_of, str_payload, TVMArgValue, TVMRetValue};

verus! {

/// The symbol under which a module keeps its entry function.
pub const ENTRY_FUNC: &'static str = "__tvm_main__";

/// The runtime function that loads a module from a file.
pub const LOAD_FUNC: &'static str = "module._LoadFromFile";

/// The runtime function that tells whether a device backend is enabled.
pub const ENABLED_FUNC: &'static str = "module._Enabled";

/// The extension of the file name at the end of a path, as `std::path::Path::extension`
/// finds it on this target (whose path separators it follows).
pub uninterp spec fn path_extension(path: Seq<char>) -> Option<Seq<char>>;

/// Relies on `std::path::Path::extension`: the part of the file name after its last
/// dot, or nothing; on this target it depends on the path alone.
#[verifier::external_body]
fn extension_of(path: &str) -> (r: Option<String>)
    ensures
        r matches Some(e) ==> path_extension(path@) == Some(e@),
        r is None ==> path_extension(path@) is None,
{
    std::path::Path::new(path).extension().and_then(|e| e.to_str()).map(|e| e.to_owned())
}

/// A module of the runtime, owned by this wrapper, with its entry function once it has
/// been looked up.
#[derive(Debug)]
pub struct Module {
    owner: ModuleHandle,
    entry: Option<Function>,
}

/// The handle of a module, always owned by the wrapper that holds it.
#[derive(Debug)]
struct ModuleHandle {
    slot: OwnedHandle,
}

impl ModuleHandle {
    #[verifier::type_invariant]
    closed spec fn inv(&self) -> bool {
        self.slot.spec_owned()
    }

    closed spec fn spec_slot(&self) -> &OwnedHandle {
        &self.slot
    }

    fn new(handle: u64, is_released: bool) -> (r: ModuleHandle)
        ensures
            r.spec_slot().spec_handle() == handle,
            r.spec_slot().spec_owned(),
            r.spec_slot().spec_released() == is_released,
    {
        ModuleHandle { slot: OwnedHandle::new(handle, true, is_released) }
    }

    fn handle(&self) -> (r: u64)
        ensures
            r == self.spec_slot().spec_handle(),
    {
        self.slot.handle()
    }

    fn is_released(&self) -> (r: bool)
        ensures
            r == self.spec_slot().spec_released(),
    {
        self.slot.is_released()
    }

    fn release(&mut self) -> (free_now: bool)
        ensures
            free_now == !old(self).spec_slot().spec_released(),
            old(self).spec_slot().released_state(final(self).spec_slot()),
            final(self).spec_slot().spec_released(),
        no_unwind
    {
        proof {
            use_type_invariant(&*self);
        }
        self.slot.release()
    }
}

impl Module {
    /// Who frees the handle of this module.
    pub closed spec fn spec_slot(&self) -> &OwnedHandle {
        self.owner.spec_slot()
    }

    /// The entry function, once looked up.
    pub closed spec fn spec_entry(&self) -> Option<Function> {
        self.entry
    }

    pub open spec fn spec_handle(&self) -> u64 {
        self.spec_slot().spec_handle()
    }

    pub fn new(handle: u64, is_released: bool, entry: Option<Function>) -> (r: Module)
        ensures
            r.spec_handle() == handle,
            r.spec_slot().spec_owned(),
            r.spec_slot().spec_released() == is_released,
            r.spec_entry() == entry,
    {
        Module { owner: ModuleHandle::new(handle, is_released), entry }
    }

    /// The module handle.
    pub fn handle(&self) -> (r: u64)
        ensures
            r == self.spec_handle(),
    {
        self.owner.handle()
    }

    /// Whether the module was freed already.
    pub fn is_released(&self) -> (r: bool)
        ensures
            r == self.spec_slot().spec_released(),
    {
        self.owner.is_released()
    }

    /// Whether the entry function has been looked up and kept.
    pub fn has_entry(&self) -> (r: bool)
        ensures
            r == self.spec_entry() is Some,
    {
        self.entry.is_some()
    }

    /// Keeps `found`, the result of looking up `ENTRY_FUNC`, as the entry function,
    /// unless one is kept already.
    pub fn entry_func(self, found: Option<Function>) -> (r: Module)
        ensures
            r.spec_slot() == self.spec_slot(),
            self.spec_entry() is Some ==> r.spec_entry() == self.spec_entry(),
            self.spec_entry() is None ==> r.spec_entry() == found,
    {
        let Module { owner, entry } = self;
        match entry {
            Some(f) => Module { owner, entry: Some(f) },
            None => Module { owner, entry: found },
        }
    }

    /// Hands the entry function over to the caller, who then owns it.
    pub fn take_entry(&mut self) -> (r: Option<Function>)
        ensures
            r == old(self).spec_entry(),
            final(self).spec_entry() is None,
            final(self).spec_slot() == old(self).spec_slot(),
    {
        self.entry.take()
    }

    /// What a lookup of `name` in a module gives, from the handle the runtime returned
    /// (0 when it found none): a function owned by the caller, or `NullHandle` naming it.
    pub fn function_from_lookup(name: &str, fhandle: u64) -> (r: Result<Function, Error>)
        ensures
            fhandle != 0 ==> (r matches Ok(f) && f.spec_handle() == fhandle && !f.spec_is_global()
                && !f.spec_slot().spec_released()),
            fhandle == 0 ==> (r matches Err(e) && null_handle_of(e, name@)),
    {
        if fhandle == 0 {
            Err(Error::NullHandle { name: name.to_owned() })
        } else {
            Ok(Function::new(fhandle, false, false))
        }
    }

    /// The flag the runtime's lookup takes to search imported modules too.
    pub fn query_import_flag(query_import: bool) -> (r: i32)
        ensures
            r == (if query_import {
                1i32
            } else {
                0i32
            }),
    {
        if query_import {
            1
        } else {
            0
        }
    }

    /// Takes over the duty to free the module: true exactly when the caller must now
    /// call the runtime's free routine, which happens at most once.
    pub fn release(&mut self) -> (free_now: bool)
        ensures
            free_now == !old(self).spec_slot().spec_released(),
            old(self).spec_slot().released_state(final(self).spec_slot()),
            final(self).spec_slot().spec_released(),
            final(self).spec_entry() == old(self).spec_entry(),
    {
        self.owner.release()
    }
}

impl Module {
    /// The arguments of `LOAD_FUNC` for a module file and its format: the path, then
    /// the format's name.
    pub fn load_args_with(path: &str, ext: &str) -> (r: Vec<TVMArgValue>)
        ensures
            r@.len() == 2,
            str_payload(r@[0].value, r@[0].type_code) == Some(path@),
            str_payload(r@[1].value, r@[1].type_code) == Some(ext@),
    {
        let mut args: Vec<TVMArgValue> = Vec::with_capacity(2);
        args.push(TVMArgValue::from_str(path));
        args.push(TVMArgValue::from_str(ext));
        args
    }

    /// The arguments of `LOAD_FUNC` for the module file at `path`, whose extension names
    /// its format; `InvalidPath` when the file name has no extension.
    pub fn load_args(path: &str) -> (r: Result<Vec<TVMArgValue>, Error>)
        ensures
            r is Ok <==> path_extension(path@) is Some,
            r matches Err(e) ==> (e matches Error::InvalidPath { path: p } && p@ == path@),
            r matches Ok(args) ==> {
                &&& args@.len() == 2
                &&& str_payload(args@[0].value, args@[0].type_code) == Some(path@)
                &&& str_payload(args@[1].value, args@[1].type_code) == path_extension(path@)
            },
    {
        match extension_of(path) {
            Some(ext) => Ok(Module::load_args_with(path, ext.as_str())),
            None => Err(Error::InvalidPath { path: path.to_owned() }),
        }
    }

    /// The module that `LOAD_FUNC` returned, owned by the caller; `TypeMismatch` when
    /// the reply holds no module.
    pub fn load(reply: &TVMRetValue) -> (r: Result<Module, Error>)
        ensures
            handle_payload(reply.value, reply.type_code, TypeCode::kModuleHandle) matches Some(h)
                ==> (r matches Ok(m) && m.spec_handle() == h && m.spec_slot().spec_owned()
                && !m.spec_slot().spec_released() && m.spec_entry() is None),
            handle_payload(reply.value, reply.type_code, TypeCode::kModuleHandle) is None ==> (r matches Err(e)
                && mismatch_of(e, "Module handle"@, reply.type_code)),
    {
        reply.to_module()
    }

    /// The argument of `ENABLED_FUNC` for a device backend.
    pub fn enabled_args(target: &str) -> (r: Vec<TVMArgValue>)
        ensures
            r@.len() == 1,
            str_payload(r@[0].value, r@[0].type_code) == Some(target@),
    {
        let mut args: Vec<TVMArgValue> = Vec::with_capacity(1);
        args.push(TVMArgValue::from_str(target));
        args
    }

    /// Whether the backend is enabled, from the runtime's answer to `ENABLED_FUNC`: a
    /// non-zero integer. `TypeMismatch` when the answer is not an integer.
    pub fn enabled(&self, reply: &TVMRetValue) -> (r: Result<bool, Error>)
        ensures
            int_payload(reply.value, reply.type_code) matches Some(i) ==> r == Ok::<bool, Error>(
                i != 0,
            ),
            int_payload(reply.value, reply.type_code) is None ==> (r matches Err(e)
                && mismatch_of(e, "int"@, reply.type_code)),
    {
        match reply.to_int() {
            Ok(i) => Ok(i != 0),
            Err(e) => Err(e),
        }
    }
}

} // verus!
