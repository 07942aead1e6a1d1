//! Client side of the packed calling convention of a deep-learning runtime.
//!
//! Values cross the boundary as a tag and one 64-bit slot; calls pass parallel
//! arrays of slots and tags through one entry point; the handles that the runtime
//! hands out are owned by exactly one wrapper and released at most once.

use vstd::prelude::*;

pub mod bytearray;
pub mod context;
pub mod errors;
pub mod function;
pub mod handle;
pub mod module;
pub mod ndarray;
pub mod registry;
pub mod ty;
pub mod value;

pub use bytearray::TVMByteArray;
pub use context::{TVMContext, TVMDeviceType};
pub use errors::Error;
pub use function::{Builder, Function};
pub use module::Module;
pub use ndarray::{NDArray, Num32};
pub use ty::{TVMType, TypeCode};
pub use value::{TVMArgValue, TVMRetValue, TVMValue};

verus! {

/// Version string of the runtime this frontend speaks to.
pub const TVM_VERSION: &'static str = "0.5.dev";

/// Returns the runtime version this frontend was written against.
pub fn version() -> (r: &'static str)
    ensures
        r@ == TVM_VERSION@,
{
    TVM_VERSION
}

} // verus!
