use tvm_frontend::function::{
    check_call, check_name, decode_callback_args, decode_slot, get_global_func, needs_handoff,
    CallbackReply, PackedCall, WireSlot,
};
use tvm_frontend::handle::OwnedHandle;
use tvm_frontend::module::{Module, ENTRY_FUNC};
use tvm_frontend::ndarray::ArrayInfo;
use tvm_frontend::registry::{is_listed, HandleRegistry};
use tvm_frontend::{
    Builder, Error, Function, NDArray, TVMArgValue, TVMContext, TVMDeviceType, TVMRetValue,
    TVMType, TVMValue, TypeCode,
};

fn mismatch(expected: &str, found: &str) -> Error {
    Error::TypeMismatch { expected: expected.to_owned(), found: found.to_owned() }
}

/// Lays a packed value out as the runtime receives it.
fn to_slot(v: &TVMValue) -> WireSlot {
    match v {
        TVMValue::Str(s) => WireSlot::Text(s.clone()),
        TVMValue::Bytes(b) => WireSlot::Data(b.clone()),
        other => WireSlot::Word(other.word().unwrap()),
    }
}

#[test]
fn round_trip_through_the_wire() {
    let args = vec![
        TVMArgValue::from_i64(i64::MIN),
        TVMArgValue::from_i64(-7),
        TVMArgValue::from_u64(u64::MAX),
        TVMArgValue::from_bool(true),
        TVMArgValue::from_bool(false),
        TVMArgValue::from_float_bits((-2.5f64).to_bits()),
        TVMArgValue::from_float_bits((1.25f32 as f64).to_bits()),
        TVMArgValue::from_type(&TVMType::new(2, 16, 4)),
        TVMArgValue::from_context(&TVMContext::new(TVMDeviceType(10), -3)),
    ];
    for a in args.iter() {
        let word = a.value.word().unwrap();
        let back = TVMRetValue::from_word(word, a.type_code.code()).unwrap();
        assert_eq!(back.type_code, a.type_code);
        assert_eq!(back.value.word(), Some(word));
    }
    let back = TVMRetValue::from_word(TVMArgValue::from_i64(i64::MIN).value.word().unwrap(), 0);
    assert_eq!(back.unwrap().to_int().unwrap(), i64::MIN);
    let u = TVMArgValue::from_u64(u64::MAX);
    let back = TVMRetValue::from_word(u.value.word().unwrap(), 1).unwrap();
    assert_eq!(back.value.to_int().unwrap() as u64, u64::MAX);
    let f = TVMArgValue::from_float_bits((1.25f32 as f64).to_bits());
    let back = TVMRetValue::from_word(f.value.word().unwrap(), 2).unwrap();
    assert_eq!(f64::from_bits(back.to_float_bits().unwrap()) as f32, 1.25f32);
    let b = TVMArgValue::from_bool(true);
    assert_eq!(b.to_int().unwrap() != 0, true);
    let c = TVMContext::new(TVMDeviceType(10), -3);
    let w = TVMArgValue::from_context(&c).value.word().unwrap();
    assert_eq!(TVMRetValue::from_word(w, 6).unwrap().to_ctx().unwrap(), c);
    let t = TVMType::new(2, 16, 4);
    let w = TVMArgValue::from_type(&t).value.word().unwrap();
    assert_eq!(TVMRetValue::from_word(w, 5).unwrap().to_type().unwrap(), t);
}

#[test]
fn narrow_widths_round_trip() {
    assert_eq!(TVMArgValue::from_i8(-128).to_int().unwrap() as i8, -128);
    assert_eq!(TVMArgValue::from_i16(i16::MIN).to_int().unwrap() as i16, i16::MIN);
    assert_eq!(TVMArgValue::from_i32(i32::MAX).to_int().unwrap() as i32, i32::MAX);
    assert_eq!(TVMArgValue::from_usize(usize::MAX).to_int().unwrap() as usize, usize::MAX);
    assert_eq!(TVMArgValue::from_u8(255).value.to_int().unwrap() as u8, 255);
    assert_eq!(TVMArgValue::from_u16(65535).value.to_int().unwrap() as u16, 65535);
    assert_eq!(TVMArgValue::from_u32(u32::MAX).value.to_int().unwrap() as u32, u32::MAX);
    assert_eq!(TVMArgValue::from_u32(7).type_code, TypeCode::kDLUInt);
    assert_eq!(TVMArgValue::from_device_type(&TVMDeviceType(2)).to_int().unwrap(), 2);
}

#[test]
fn exact_wire_words() {
    assert_eq!(TVMArgValue::from_type(&TVMType::from("int")).value.word(), Some(73728));
    assert_eq!(TVMArgValue::from_type(&TVMType::from("handle")).value.word(), Some(81924));
    assert_eq!(TVMArgValue::from_context(&TVMContext::gpu(1)).value.word(), Some(4294967298));
    assert_eq!(TVMArgValue::from_i64(-1).value.word(), Some(u64::MAX));
    assert_eq!(TVMArgValue::from_str("x").value.word(), None);
}

#[test]
fn tags_of_constructors() {
    assert_eq!(TVMArgValue::from_i32(1).type_code, TypeCode::kDLInt);
    assert_eq!(TVMArgValue::from_u8(1).type_code, TypeCode::kDLUInt);
    assert_eq!(TVMArgValue::from_float_bits(0).type_code, TypeCode::kDLFloat);
    assert_eq!(TVMArgValue::from_str("s").type_code, TypeCode::kStr);
    assert_eq!(TVMArgValue::from_bytes(&[1u8]).type_code, TypeCode::kBytes);
    assert_eq!(TVMArgValue::from_type(&TVMType::from("float")).type_code, TypeCode::kTVMType);
    assert_eq!(TVMArgValue::from_context(&TVMContext::cpu(0)).type_code, TypeCode::kTVMContext);
    let f = Function::new(0x10, true, false);
    assert_eq!(TVMArgValue::from_function(&f).type_code, TypeCode::kFuncHandle);
    let m = Module::new(0x20, false, None);
    assert_eq!(TVMArgValue::from_module(&m).type_code, TypeCode::kModuleHandle);
    let a = NDArray::from_alloc(0x30, &vec![2], TVMContext::cpu(0), TVMType::from("float")).unwrap();
    assert_eq!(TVMArgValue::from_ndarray(&a).type_code, TypeCode::kArrayHandle);
    assert_eq!(TVMArgValue::from_ndarray(&a).value.word(), Some(0x30));
}

#[test]
fn wrong_accessor_fails_with_type_mismatch() {
    let v = TVMRetValue::from_arg(TVMArgValue::from_float_bits(3f64.to_bits()));
    assert_eq!(v.to_int(), Err(mismatch("int", "float")));
    assert_eq!(v.to_string().unwrap_err(), mismatch("string", "float"));
    assert_eq!(v.to_type().unwrap_err(), mismatch("TVM type", "float"));
    assert_eq!(v.to_ctx().unwrap_err(), mismatch("TVM context", "float"));
    assert_eq!(v.to_bytearray().unwrap_err(), mismatch("bytes", "float"));
    assert_eq!(v.to_module().unwrap_err(), mismatch("Module handle", "float"));
    let i = TVMRetValue::from_arg(TVMArgValue::from_i64(5));
    assert_eq!(i.to_float_bits(), Err(mismatch("float", "int")));
    let u = TVMRetValue::from_arg(TVMArgValue::from_u32(5));
    assert_eq!(u.to_int(), Err(mismatch("int", "uint")));
    let null = TVMRetValue::new(TVMValue::Int(0), TypeCode::kNull);
    assert_eq!(null.to_int(), Ok(0));
    let s = TVMRetValue::from_arg(TVMArgValue::from_str("hello"));
    let info = ArrayInfo::compact(&vec![2], TVMContext::cpu(0), TVMType::from("float"));
    assert_eq!(s.to_ndarray(info).unwrap_err(), mismatch("Array handle", "string"));
}

#[test]
fn type_codes_and_names() {
    for c in 0..13 {
        let t = TypeCode::from_code(c).unwrap();
        assert_eq!(t.code(), c);
    }
    assert_eq!(TypeCode::from_code(13), None);
    assert_eq!(TypeCode::from_code(-1), None);
    assert_eq!(TypeCode::kFuncHandle.name(), "Function handle");
    assert_eq!(TVMType::from_name("uint"), Some(TVMType::new(1, 32, 1)));
    assert_eq!(TVMType::from_name("double"), None);
    assert_eq!(TVMType::new(2, 32, 1).name(), "float");
    assert_eq!(TVMType::new(2, 64, 1).name(), "unknown type");
    assert_eq!(TVMType::new(2, 64, 1).as_name(), None);
    assert_eq!(TVMDeviceType(8).name(), "meta");
    assert_eq!(TVMDeviceType(42).name(), "rpc");
    assert_eq!(TVMDeviceType::from_name("cuda"), Some(TVMDeviceType(2)));
    assert_eq!(TVMDeviceType::from_name("tpu"), None);
    assert_eq!(TVMDeviceType::default(), TVMDeviceType(1));
    assert_eq!(TVMContext::default(), TVMContext::cpu(0));
}

#[test]
fn single_release_of_owned_handles() {
    let mut f = Function::new(0x10, false, false);
    assert!(f.release());
    assert!(!f.release());
    assert!(f.is_released());
    let mut g = Function::new(0x11, true, false);
    assert!(!g.release());
    assert!(!g.release());
    let mut m = Module::new(0x20, false, None);
    assert!(m.release());
    assert!(!m.release());
    assert!(m.is_released());
    let mut freed = Module::new(0x21, true, None);
    assert!(!freed.release());
    let mut view = NDArray::new(0x30, true, ArrayInfo::compact(&vec![2], TVMContext::cpu(0), TVMType::from("int"))).unwrap();
    assert!(view.is_view());
    assert!(!view.release());
    let mut owner = NDArray::from_alloc(0x31, &vec![2], TVMContext::cpu(0), TVMType::from("int")).unwrap();
    assert!(owner.release());
    assert!(!owner.release());
    let mut h = OwnedHandle::new(0x40, true, true);
    assert!(!h.release());
}

#[test]
fn argument_order_is_kept() {
    let f = Function::new(0x99, true, false);
    let out = TVMRetValue::from_arg(TVMArgValue::from_i64(0));
    let call = Builder::from_function(f)
        .arg(TVMArgValue::from_str("a"))
        .arg(TVMArgValue::from_i32(2))
        .args(vec![TVMArgValue::from_float_bits(3f64.to_bits()), TVMArgValue::from_bool(true)])
        .accept_ret(out)
        .pack()
        .unwrap();
    assert_eq!(call.func.as_handle(), 0x99);
    assert_eq!(call.num_args, 5);
    assert_eq!(call.type_codes, vec![11, 0, 2, 0, 0]);
    assert_eq!(call.values[1].word(), Some(2));
    assert_eq!(call.values[2].word(), Some(3f64.to_bits()));
    assert_eq!(call.values[3].word(), Some(1));
    match &call.values[0] {
        TVMValue::Str(s) => assert_eq!(s, "a"),
        other => panic!("unexpected {:?}", other),
    }
}

#[test]
fn empty_call_and_missing_function() {
    let call = Builder::from_function(Function::new(1, true, false)).pack().unwrap();
    assert_eq!(call.num_args, 0);
    assert!(call.values.is_empty());
    assert_eq!(Builder::default().pack().unwrap_err(), Error::NoFunction);
    assert!(Builder::default().fits_call());
    assert_eq!(Error::TooManyArguments.message(), "too many arguments for one call");
}

/// A host callback that adds its integer arguments.
fn sum(args: &[TVMArgValue]) -> Result<TVMRetValue, Error> {
    let mut total = 0i64;
    for a in args.iter() {
        total += a.to_int()?;
    }
    Ok(TVMRetValue::from_arg(TVMArgValue::from_i64(total)))
}

fn call_through_runtime(call: PackedCall) -> Result<TVMRetValue, Error> {
    let slots: Vec<WireSlot> = call.values.iter().map(to_slot).collect();
    let args = decode_callback_args(slots, &call.type_codes).unwrap();
    let reply = CallbackReply::from_result(sum(&args));
    let status = reply.status();
    match reply {
        CallbackReply::Return { value, type_code } => {
            check_call(status, "")?;
            Ok(decode_slot(to_slot(&value), type_code).unwrap())
        }
        CallbackReply::Fail { message } => {
            check_call(status, &message)?;
            unreachable!()
        }
    }
}

#[test]
fn scalar_call_of_registered_sum() {
    let mut registry = HandleRegistry::new();
    let sum_fn = registry.set("sum", 0x5000);
    let call = Builder::from_function(sum_fn)
        .args(vec![TVMArgValue::from_i64(10), TVMArgValue::from_i64(20), TVMArgValue::from_i64(30)])
        .pack()
        .unwrap();
    let ret = call_through_runtime(call).unwrap();
    assert_eq!(ret.to_int().unwrap(), 60);
}

#[test]
fn failing_callback_reports_call_failed() {
    let call = Builder::from_function(Function::new(0x5001, true, false))
        .args(vec![TVMArgValue::from_i64(10), TVMArgValue::from_str("x")])
        .pack()
        .unwrap();
    let err = call_through_runtime(call).unwrap_err();
    assert_eq!(
        err,
        Error::CallFailed { message: "expected type `int`, but found `string`".to_owned() }
    );
}

#[test]
fn tensor_add_call_layout() {
    let ctx = TVMContext::cpu(0);
    let shape = vec![2];
    let a = NDArray::from_alloc(0x100, &shape, ctx, TVMType::from("float")).unwrap();
    let out = NDArray::from_alloc(0x200, &shape, ctx, TVMType::from("float")).unwrap();
    let module = Module::new(0x300, false, None);
    let mut module = module.entry_func(Module::function_from_lookup(ENTRY_FUNC, 0x400).ok());
    assert!(module.has_entry());
    let call = Builder::from_module(&mut module)
        .arg(TVMArgValue::from_ndarray(&a))
        .arg(TVMArgValue::from_ndarray(&a))
        .accept_ret(TVMRetValue::from_arg(TVMArgValue::from_ndarray(&out)))
        .pack()
        .unwrap();
    assert!(!module.has_entry());
    assert_eq!(call.func.as_handle(), 0x400);
    assert_eq!(call.type_codes, vec![7, 7, 7]);
    let words: Vec<Option<u64>> = call.values.iter().map(|v| v.word()).collect();
    assert_eq!(words, vec![Some(0x100), Some(0x100), Some(0x200)]);
}

#[test]
fn copy_between_dtypes_is_refused() {
    let ctx = TVMContext::cpu(0);
    let shape = vec![4];
    let f = NDArray::from_alloc(0x100, &shape, ctx, TVMType::from("float")).unwrap();
    let i = NDArray::from_alloc(0x200, &shape, ctx, TVMType::from("int")).unwrap();
    assert_eq!(f.copy_to_ndarray(i).unwrap_err(), mismatch("float", "int"));
    assert_eq!(f.dtype(), TVMType::from("float"));
    assert_eq!(f.shape(), Some(vec![4]));
    let same = NDArray::from_alloc(0x300, &shape, ctx, TVMType::from("float")).unwrap();
    assert_eq!(f.copy_to_ndarray(same).unwrap().handle(), 0x300);
}

#[test]
fn missing_global_function() {
    let err = get_global_func("nope", 0, false).unwrap_err();
    assert_eq!(err, Error::NullHandle { name: "nope".to_owned() });
    assert_eq!(err.message(), "requested `nope` handle is null");
    assert!(get_global_func("nope", 0, true).unwrap().is_none());
    let found = get_global_func("sum", 0x77, false).unwrap().unwrap();
    assert_eq!(found.as_handle(), 0x77);
    assert!(found.is_global());
    let mut found = found;
    assert!(!found.release());
    let err = Module::function_from_lookup("f", 0).unwrap_err();
    assert_eq!(err, Error::NullHandle { name: "f".to_owned() });
}

#[test]
fn lookup_among_listed_names() {
    let names = vec!["sum".to_owned(), "tvm.graph_runtime.create".to_owned()];
    let err = Function::get_function(&names, "never_registered", 0, false).unwrap_err();
    assert_eq!(err, Error::NullHandle { name: "never_registered".to_owned() });
    assert!(Function::get_function(&names, "never_registered", 0, true).unwrap().is_none());
    assert!(Function::get_function(&names, "never_registered", 0x9, true).unwrap().is_none());
    let err = Function::get_function(&names, "sum", 0, false).unwrap_err();
    assert_eq!(err, Error::NullHandle { name: "sum".to_owned() });
    let f = Function::get_function(&names, "sum", 0x9, false).unwrap().unwrap();
    assert_eq!(f.as_handle(), 0x9);
    assert!(f.is_global());
}

#[test]
fn name_resolution_is_idempotent() {
    let mut registry = HandleRegistry::new();
    assert!(registry.get("_GetDeviceAttr").is_none());
    let first = registry.set("_GetDeviceAttr", 0xA0);
    assert!(registry.get("_GetDeviceAttr").is_some());
    let second = registry.set("_GetDeviceAttr", 0xB0);
    assert_eq!(first.as_handle(), second.as_handle());
    assert_eq!(registry.lookup("_GetDeviceAttr"), Some(0xA0));
    registry.set("module._Enabled", 0xC0);
    assert_eq!(registry.lookup("module._Enabled"), Some(0xC0));
    assert_eq!(registry.lookup("_GetDeviceAttr"), Some(0xA0));
    assert!(registry.get("module._Enabled").unwrap().is_global());
    let names = vec!["a".to_owned(), "tvm.graph_runtime.create".to_owned()];
    assert!(is_listed(&names, "tvm.graph_runtime.create"));
    assert!(!is_listed(&names, "b"));
}

#[test]
fn error_variants_and_messages() {
    let none = NDArray::new(
        0x1,
        true,
        ArrayInfo {
            shape: None,
            strides: None,
            ndim: 0,
            ctx: TVMContext::cpu(0),
            dtype: TVMType::from("int"),
            byte_offset: 0,
        },
    )
    .unwrap();
    assert_eq!(none.to_vec_len(), Err(Error::EmptyArray));
    assert_eq!(none.size(), None);
    assert_eq!(Error::EmptyArray.message(), "cannot convert from empty array");
    assert_eq!(Error::NoFunction.message(), "function was not set in `function::Builder`");
    assert_eq!(
        check_call(-1, "boom"),
        Err(Error::CallFailed { message: "boom".to_owned() })
    );
    assert_eq!(check_call(0, "ignored"), Ok(()));
    assert_eq!(check_name("a\0b"), Err(Error::NulError));
    assert_eq!(check_name("fine"), Ok(()));
    assert_eq!(mismatch("float", "int").message(), "expected type `float`, but found `int`");
}

#[test]
fn array_headers() {
    let bad = ArrayInfo {
        shape: Some(vec![2, 3]),
        strides: None,
        ndim: 3,
        ctx: TVMContext::cpu(0),
        dtype: TVMType::from("int"),
        byte_offset: 0,
    };
    assert!(!bad.is_consistent());
    assert!(NDArray::new(0x1, true, bad).is_none());
    assert!(NDArray::from_alloc(0x1, &vec![usize::MAX, 2], TVMContext::cpu(0), TVMType::from("int")).is_none());
    let zero = NDArray::from_alloc(0x1, &vec![3, 0, 5], TVMContext::cpu(0), TVMType::from("int")).unwrap();
    assert_eq!(zero.size(), Some(0));
    let scalar = NDArray::from_alloc(0x1, &vec![], TVMContext::cpu(0), TVMType::from("int")).unwrap();
    assert_eq!(scalar.to_vec_len(), Ok(1));
    let strided = NDArray::new(
        0x2,
        true,
        ArrayInfo {
            shape: Some(vec![2, 2]),
            strides: Some(vec![4, 1]),
            ndim: 2,
            ctx: TVMContext::gpu(0),
            dtype: TVMType::from("float"),
            byte_offset: 16,
        },
    )
    .unwrap();
    assert!(!strided.is_contiguous());
    assert_eq!(strided.strides(), Some(vec![4, 1]));
    assert_eq!(strided.byte_offset(), 16);
    assert_eq!(strided.ctx(), TVMContext::gpu(0));
}

#[test]
fn module_load_and_enabled() {
    let args = Module::load_args("deploy/add_cpu.so").unwrap();
    assert_eq!(args.len(), 2);
    assert_eq!(args[0].to_string().unwrap(), "deploy/add_cpu.so");
    assert_eq!(args[1].to_string().unwrap(), "so");
    let err = Module::load_args("no_extension").unwrap_err();
    assert_eq!(err, Error::InvalidPath { path: "no_extension".to_owned() });
    assert_eq!(err.message(), "cannot load a module from `no_extension`");
    let reply = TVMRetValue::new(TVMValue::Handle(0x600), TypeCode::kModuleHandle);
    let m = Module::load(&reply).unwrap();
    assert_eq!(m.handle(), 0x600);
    assert!(!m.is_released());
    assert_eq!(Module::enabled_args("gpu")[0].to_string().unwrap(), "gpu");
    assert!(m.enabled(&TVMRetValue::from_arg(TVMArgValue::from_i64(1))).unwrap());
    assert!(!m.enabled(&TVMRetValue::from_arg(TVMArgValue::from_i64(0))).unwrap());
    assert_eq!(Module::query_import_flag(true), 1);
}

#[test]
fn callback_handoff_and_slots() {
    assert!(needs_handoff(8));
    assert!(needs_handoff(9));
    assert!(needs_handoff(10));
    assert!(!needs_handoff(7));
    assert!(decode_slot(WireSlot::Word(5), 11).is_none());
    assert!(decode_slot(WireSlot::Text("x".to_owned()), 0).is_none());
    assert!(decode_slot(WireSlot::Word(5), 99).is_none());
    let s = decode_slot(WireSlot::Text("abc".to_owned()), 11).unwrap();
    assert_eq!(s.to_string().unwrap(), "abc");
    let b = decode_slot(WireSlot::Data(vec![200u8]), 12).unwrap();
    assert_eq!(b.to_bytearray().unwrap().data(), vec![-56i8]);
    assert!(decode_callback_args(vec![WireSlot::Word(1)], &vec![0, 0]).is_none());
}
