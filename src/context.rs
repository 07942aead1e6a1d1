//! Devices and device contexts, and the device-attribute query of the runtime.

use vstd::prelude::*;

use crate::errors::Error;
use crate::ty::{same_text, TypeCode};
use crate::value::{int_payload, mismatch_of, TVMArgValue, TVMRetValue, TVMValue};

verus! {

/// A device kind, by the runtime's device code.
#[derive(Debug, Clone, Copy, PartialEq, Eq, Hash, Structural)]
pub struct TVMDeviceType(pub usize);

impl Default for TVMDeviceType {
    /// The cpu.
    fn default() -> (r: TVMDeviceType)
        ensures
            r == TVMDeviceType(1),
    {
        TVMDeviceType(1)
    }
}

/// The device kinds of the runtime's ABI.
#[allow(non_camel_case_types)]
#[derive(Debug, Clone, Copy, PartialEq, Eq, Hash, Structural)]
pub enum DLDeviceType {
    kDLCPU,
    kDLGPU,
    kDLCPUPinned,
    kDLOpenCL,
    kDLMetal,
    kDLVPI,
    kDLROCM,
}

/// The device code of an ABI device kind.
pub open spec fn dl_device_code(d: DLDeviceType) -> usize {
    match d {
        DLDeviceType::kDLCPU => 1,
        DLDeviceType::kDLGPU => 2,
        DLDeviceType::kDLCPUPinned => 3,
        DLDeviceType::kDLOpenCL => 4,
        DLDeviceType::kDLMetal => 8,
        DLDeviceType::kDLVPI => 9,
        DLDeviceType::kDLROCM => 10,
    }
}

/// The device code that a target name stands for, if the name is known.
pub open spec fn device_code_of_name(s: Seq<char>) -> Option<usize> {
    if s == "cpu"@ || s == "llvm"@ || s == "stackvm"@ {
        Some(1)
    } else if s == "gpu"@ || s == "cuda"@ || s == "nvptx"@ {
        Some(2)
    } else if s == "cl"@ || s == "opencl"@ {
        Some(4)
    } else if s == "metal"@ {
        Some(8)
    } else if s == "vpi"@ {
        Some(9)
    } else if s == "rocm"@ {
        Some(10)
    } else {
        None
    }
}

/// The display name of a device code; every unknown code is a remote device.
pub open spec fn device_name(code: usize) -> Seq<char> {
    if code == 1 {
        "cpu"@
    } else if code == 2 {
        "gpu"@
    } else if code == 3 {
        "cpu_pinned"@
    } else if code == 4 {
        "opencl"@
    } else if code == 8 {
        "meta"@
    } else if code == 9 {
        "vpi"@
    } else if code == 10 {
        "rocm"@
    } else {
        "rpc"@
    }
}

impl TVMDeviceType {
    /// The device kind of an ABI device code.
    pub fn from_dl(device_type: DLDeviceType) -> (r: TVMDeviceType)
        ensures
            r.0 == dl_device_code(device_type),
    {
        match device_type {
            DLDeviceType::kDLCPU => TVMDeviceType(1),
            DLDeviceType::kDLGPU => TVMDeviceType(2),
            DLDeviceType::kDLCPUPinned => TVMDeviceType(3),
            DLDeviceType::kDLOpenCL => TVMDeviceType(4),
            DLDeviceType::kDLMetal => TVMDeviceType(8),
            DLDeviceType::kDLVPI => TVMDeviceType(9),
            DLDeviceType::kDLROCM => TVMDeviceType(10),
        }
    }

    /// The device kind that a target name stands for, if the name is known.
    pub fn from_name(type_str: &str) -> (r: Option<TVMDeviceType>)
        ensures
            r matches Some(d) ==> device_code_of_name(type_str@) == Some(d.0),
            r is None ==> device_code_of_name(type_str@) is None,
    {
        if same_text(type_str, "cpu") || same_text(type_str, "llvm") || same_text(
            type_str,
            "stackvm",
        ) {
            Some(TVMDeviceType(1))
        } else if same_text(type_str, "gpu") || same_text(type_str, "cuda") || same_text(
            type_str,
            "nvptx",
        ) {
            Some(TVMDeviceType(2))
        } else if same_text(type_str, "cl") || same_text(type_str, "opencl") {
            Some(TVMDeviceType(4))
        } else if same_text(type_str, "metal") {
            Some(TVMDeviceType(8))
        } else if same_text(type_str, "vpi") {
            Some(TVMDeviceType(9))
        } else if same_text(type_str, "rocm") {
            Some(TVMDeviceType(10))
        } else {
            None
        }
    }

    /// The device kind that a known target name stands for.
    pub fn from(type_str: &str) -> (r: TVMDeviceType)
        requires
            device_code_of_name(type_str@) is Some,
        ensures
            device_code_of_name(type_str@) == Some(r.0),
    {
        match TVMDeviceType::from_name(type_str) {
            Some(d) => d,
            None => TVMDeviceType(1),
        }
    }

    /// The display name of this device kind.
    pub fn name(&self) -> (r: &'static str)
        ensures
            r@ == device_name(self.0),
    {
        if self.0 == 1 {
            "cpu"
        } else if self.0 == 2 {
            "gpu"
        } else if self.0 == 3 {
            "cpu_pinned"
        } else if self.0 == 4 {
            "opencl"
        } else if self.0 == 8 {
            "meta"
        } else if self.0 == 9 {
            "vpi"
        } else if self.0 == 10 {
            "rocm"
        } else {
            "rpc"
        }
    }
}

/// A device and the index of one such device. The default is the first cpu.
#[derive(Debug, Clone, Copy, PartialEq, Eq, Hash, Structural)]
pub struct TVMContext {
    /// The device kind.
    pub device_type: TVMDeviceType,
    /// The index of the device.
    pub device_id: i32,
}

impl Default for TVMContext {
    fn default() -> (r: TVMContext)
        ensures
            r == (TVMContext { device_type: TVMDeviceType(1), device_id: 0 }),
    {
        TVMContext { device_type: TVMDeviceType(1), device_id: 0 }
    }
}

impl TVMContext {
    pub fn new(device_type: TVMDeviceType, device_id: i32) -> (r: TVMContext)
        ensures
            r == (TVMContext { device_type, device_id }),
    {
        TVMContext { device_type, device_id }
    }

    pub fn current_context(&self) -> (r: &TVMContext)
        ensures
            *r == *self,
    {
        self
    }

    pub fn cpu(device_id: i32) -> (r: TVMContext)
        ensures
            r == (TVMContext { device_type: TVMDeviceType(1), device_id }),
    {
        TVMContext::new(TVMDeviceType(1), device_id)
    }

    pub fn gpu(device_id: i32) -> (r: TVMContext)
        ensures
            r == (TVMContext { device_type: TVMDeviceType(2), device_id }),
    {
        TVMContext::new(TVMDeviceType(2), device_id)
    }

    pub fn cpu_pinned(device_id: i32) -> (r: TVMContext)
        ensures
            r == (TVMContext { device_type: TVMDeviceType(3), device_id }),
    {
        TVMContext::new(TVMDeviceType(3), device_id)
    }

    pub fn cuda(device_id: i32) -> (r: TVMContext)
        ensures
            r == (TVMContext { device_type: TVMDeviceType(2), device_id }),
    {
        TVMContext::new(TVMDeviceType(2), device_id)
    }

    pub fn nvptx(device_id: i32) -> (r: TVMContext)
        ensures
            r == (TVMContext { device_type: TVMDeviceType(2), device_id }),
    {
        TVMContext::new(TVMDeviceType(2), device_id)
    }

    pub fn cl(device_id: i32) -> (r: TVMContext)
        ensures
            r == (TVMContext { device_type: TVMDeviceType(4), device_id }),
    {
        TVMContext::new(TVMDeviceType(4), device_id)
    }

    pub fn opencl(device_id: i32) -> (r: TVMContext)
        ensures
            r == (TVMContext { device_type: TVMDeviceType(4), device_id }),
    {
        TVMContext::new(TVMDeviceType(4), device_id)
    }

    pub fn metal(device_id: i32) -> (r: TVMContext)
        ensures
            r == (TVMContext { device_type: TVMDeviceType(8), device_id }),
    {
        TVMContext::new(TVMDeviceType(8), device_id)
    }

    pub fn vpi(device_id: i32) -> (r: TVMContext)
        ensures
            r == (TVMContext { device_type: TVMDeviceType(9), device_id }),
    {
        TVMContext::new(TVMDeviceType(9), device_id)
    }

    pub fn rocm(device_id: i32) -> (r: TVMContext)
        ensures
            r == (TVMContext { device_type: TVMDeviceType(10), device_id }),
    {
        TVMContext::new(TVMDeviceType(10), device_id)
    }

    /// The first device of the kind that a known target name stands for.
    pub fn from(target: &str) -> (r: TVMContext)
        requires
            device_code_of_name(target@) is Some,
        ensures
            device_code_of_name(target@) == Some(r.device_type.0),
            r.device_id == 0,
    {
        TVMContext::new(TVMDeviceType::from(target), 0)
    }
}


/// The runtime function that answers device-attribute queries.
pub const DEVICE_ATTR_FUNC: &'static str = "_GetDeviceAttr";

/// The attributes of a device that the runtime can be asked for.
#[derive(Debug, Clone, Copy, PartialEq, Eq, Hash, Structural)]
pub enum DeviceAttr {
    Exist,
    MaxThreadsPerBlock,
    WarpSize,
    MaxSharedMemoryPerBlock,
    ComputeVersion,
    DeviceName,
    MaxClockRate,
    MultiProcessorCount,
    MaxThreadDimensions,
}

/// The code by which the runtime knows an attribute.
pub open spec fn attr_code(a: DeviceAttr) -> i32 {
    match a {
        DeviceAttr::Exist => 0,
        DeviceAttr::MaxThreadsPerBlock => 1,
        DeviceAttr::WarpSize => 2,
        DeviceAttr::MaxSharedMemoryPerBlock => 3,
        DeviceAttr::ComputeVersion => 4,
        DeviceAttr::DeviceName => 5,
        DeviceAttr::MaxClockRate => 6,
        DeviceAttr::MultiProcessorCount => 7,
        DeviceAttr::MaxThreadDimensions => 8,
    }
}

impl DeviceAttr {
    pub fn code(&self) -> (r: i32)
        ensures
            r == attr_code(*self),
    {
        match self {
            DeviceAttr::Exist => 0,
            DeviceAttr::MaxThreadsPerBlock => 1,
            DeviceAttr::WarpSize => 2,
            DeviceAttr::MaxSharedMemoryPerBlock => 3,
            DeviceAttr::ComputeVersion => 4,
            DeviceAttr::DeviceName => 5,
            DeviceAttr::MaxClockRate => 6,
            DeviceAttr::MultiProcessorCount => 7,
            DeviceAttr::MaxThreadDimensions => 8,
        }
    }
}

impl TVMContext {
    /// The arguments of a query of `DEVICE_ATTR_FUNC` for one attribute of this device:
    /// the device code, the device index and the attribute code, each as an integer.
    pub fn device_attr_args(&self, attr: DeviceAttr) -> (r: Vec<TVMArgValue>)
        ensures
            r@.len() == 3,
            r@[0].value == TVMValue::Int((self.device_type.0 as i32) as i64),
            r@[1].value == TVMValue::Int(self.device_id as i64),
            r@[2].value == TVMValue::Int(attr_code(attr) as i64),
            forall|i: int| 0 <= i < 3 ==> (#[trigger] r@[i]).type_code == TypeCode::kDLInt,
    {
        let mut args: Vec<TVMArgValue> = Vec::with_capacity(3);
        args.push(TVMArgValue::from_i32(self.device_type.0 as i32));
        args.push(TVMArgValue::from_i32(self.device_id));
        args.push(TVMArgValue::from_i32(attr.code()));
        args
    }

    /// Whether the device exists, from the runtime's answer to the `Exist` query: a
    /// non-zero integer. `TypeMismatch` when the answer is not an integer.
    pub fn exist(&self, reply: &TVMRetValue) -> (r: Result<bool, Error>)
        ensures
            int_payload(reply.value, reply.type_code) matches Some(i) ==> r == Ok::<bool, Error>(
                i != 0,
            ),
            int_payload(reply.value, reply.type_code) is None ==> (r matches Err(e)
                && mismatch_of(e, "int"@, reply.type_code)),
    {
        match reply.to_int() {
            Ok(i) => Ok(i != 0),
            Err(e) => Err(e),
        }
    }

    /// The value of a numeric attribute, from the runtime's answer to its query.
    /// `TypeMismatch` when the answer is not an integer.
    pub fn attr_value(&self, reply: &TVMRetValue) -> (r: Result<usize, Error>)
        ensures
            int_payload(reply.value, reply.type_code) matches Some(i) ==> r == Ok::<usize, Error>(
                i as usize,
            ),
            int_payload(reply.value, reply.type_code) is None ==> (r matches Err(e)
                && mismatch_of(e, "int"@, reply.type_code)),
    {
        match reply.to_int() {
            Ok(i) => Ok(i as usize),
            Err(e) => Err(e),
        }
    }
}

} // verus!
