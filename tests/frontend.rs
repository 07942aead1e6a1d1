use tvm_frontend::context::DeviceAttr;
use tvm_frontend::function::Builder;
use tvm_frontend::{
    version, Function, NDArray, TVMArgValue, TVMByteArray, TVMContext, TVMDeviceType,
    TVMRetValue, TVMType,
};

#[test]
fn convert() {
    let v = vec![1u8, 2, 3];
    let barr = TVMByteArray::from(&v);
    assert_eq!(barr.len(), v.len());
    assert_eq!(barr.data(), vec![1i8, 2, 3]);
    let v = b"hello".to_vec();
    let barr = TVMByteArray::from(&v);
    assert_eq!(barr.len(), v.len());
    assert_eq!(barr.data(), vec![104i8, 101, 108, 108, 111]);
}

#[test]
fn context() {
    let ctx = TVMContext::cpu(0);
    println!("ctx: {:?}", ctx);
    let default_ctx = TVMContext::new(TVMDeviceType(1), 0);
    assert_eq!(ctx.current_context().clone(), default_ctx);
    assert_ne!(ctx, TVMContext::gpu(0));

    let str_ctx = TVMContext::new(TVMDeviceType::from("gpu"), 0);
    assert_eq!(str_ctx.current_context().clone(), str_ctx);
    assert_ne!(str_ctx, TVMContext::new(TVMDeviceType::from("cpu"), 0));
}

#[test]
fn dev_attributes() {
    let ctx = TVMContext::cpu(0);
    let query = ctx.device_attr_args(DeviceAttr::Exist);
    assert_eq!(query.len(), 3);
    assert_eq!(query[0].to_int().unwrap(), 1);
    assert_eq!(query[1].to_int().unwrap(), 0);
    assert_eq!(query[2].to_int().unwrap(), 0);
    // What the runtime answers for the first cpu.
    let answer = TVMRetValue::from_arg(TVMArgValue::from_i64(1));
    assert!(ctx.exist(&answer).unwrap());
    let attrs = [
        ("max thread per block", DeviceAttr::MaxThreadsPerBlock, 1i64),
        ("warp size", DeviceAttr::WarpSize, 1),
        ("max shared memory per block", DeviceAttr::MaxSharedMemoryPerBlock, 0),
        ("compute version", DeviceAttr::ComputeVersion, 0),
        ("device name", DeviceAttr::DeviceName, 0),
        ("max clock rate", DeviceAttr::MaxClockRate, 0),
        ("multi processor count", DeviceAttr::MultiProcessorCount, 0),
        ("max thread dimensions", DeviceAttr::MaxThreadDimensions, 0),
    ];
    for (label, attr, answer) in attrs.iter() {
        let query = ctx.device_attr_args(*attr);
        assert_eq!(query[2].to_int().unwrap(), attr.code() as i64);
        let reply = TVMRetValue::from_arg(TVMArgValue::from_i64(*answer));
        println!("{}: {}", label, ctx.attr_value(&reply).unwrap());
    }
}

#[test]
fn print_version() {
    println!("TVM version: {}", version());
}

#[test]
fn provide_args() {
    let func = Builder::default()
        .get_function(Some(Function::new(0x1000, true, false)))
        .args(vec![TVMArgValue::from_i32(10), TVMArgValue::from_i32(20)])
        .arg(TVMArgValue::from_str(&"test".to_owned()));
    assert!(func.func.is_some());
    assert_eq!(func.arg_buf.len(), 3);
}

#[test]
fn basics() {
    let shape = vec![1, 2, 3];
    let ctx = TVMContext::cpu(0);
    let ndarray = NDArray::from_alloc(0x2000, &shape, ctx, TVMType::from("int")).unwrap();
    assert_eq!(ndarray.shape().unwrap(), shape);
    assert_eq!(ndarray.size().unwrap(), shape.into_iter().product());
    assert_eq!(ndarray.ndim(), 3);
    assert!(ndarray.strides().is_none());
    assert_eq!(ndarray.byte_offset(), 0);
}

#[test]
#[should_panic(expected = "called `Result::unwrap()` on an `Err`")]
fn copy_wrong_dtype() {
    let shape = vec![4];
    let ctx = TVMContext::cpu(0);
    let nd_float = NDArray::from_alloc(0x3000, &shape, ctx.clone(), TVMType::from("float")).unwrap();
    let empty_int = NDArray::from_alloc(0x4000, &shape, ctx, TVMType::from("int")).unwrap();
    nd_float.copy_to_ndarray(empty_int).unwrap();
}

#[test]
fn numeric() {
    let v = 42i8;
    assert_eq!(TVMArgValue::from_i8(v).to_int().unwrap() as i8, v);
    assert_eq!(TVMRetValue::from_arg(TVMArgValue::from_i8(v)).to_int().unwrap() as i8, v);
    let v = 42i16;
    assert_eq!(TVMArgValue::from_i16(v).to_int().unwrap() as i16, v);
    assert_eq!(TVMRetValue::from_arg(TVMArgValue::from_i16(v)).to_int().unwrap() as i16, v);
    let v = 42i32;
    assert_eq!(TVMArgValue::from_i32(v).to_int().unwrap() as i32, v);
    assert_eq!(TVMRetValue::from_arg(TVMArgValue::from_i32(v)).to_int().unwrap() as i32, v);
    let v = 42i64;
    assert_eq!(TVMArgValue::from_i64(v).to_int().unwrap(), v);
    assert_eq!(TVMRetValue::from_arg(TVMArgValue::from_i64(v)).to_int().unwrap(), v);

    let v = 42f32;
    let a = TVMArgValue::from_float_bits((v as f64).to_bits());
    assert_eq!(f64::from_bits(a.to_float_bits().unwrap()) as f32, v);
    let b = TVMRetValue::from_arg(TVMArgValue::from_float_bits((v as f64).to_bits()));
    assert_eq!(f64::from_bits(b.to_float_bits().unwrap()) as f32, v);
    let v = 42f64;
    let a = TVMArgValue::from_float_bits(v.to_bits());
    assert_eq!(f64::from_bits(a.to_float_bits().unwrap()), v);
    let b = TVMRetValue::from_arg(TVMArgValue::from_float_bits(v.to_bits()));
    assert_eq!(f64::from_bits(b.to_float_bits().unwrap()), v);
}

#[test]
fn bytearray() {
    let v = b"hello".to_vec();
    let tvm = TVMRetValue::from_arg(TVMArgValue::from_bytes(&v[..]));
    assert_eq!(
        tvm.to_bytearray().unwrap().data(),
        v.iter().map(|e| *e as i8).collect::<Vec<i8>>()
    );
    let w = vec![1u8, 2, 3, 4, 5];
    let tvm = TVMRetValue::from_arg(TVMArgValue::from_bytes(&w[..]));
    assert_eq!(
        tvm.to_bytearray().unwrap().data(),
        w.iter().map(|e| *e as i8).collect::<Vec<i8>>()
    );
}

#[test]
fn string() {
    let s = "hello";
    let tvm_arg = TVMRetValue::from_arg(TVMArgValue::from_str(s));
    assert_eq!(tvm_arg.to_string().unwrap(), s.to_string());
    let s = "hello".to_string();
    let tvm_arg = TVMRetValue::from_arg(TVMArgValue::from_str(&s));
    assert_eq!(tvm_arg.to_string().unwrap(), s);
}

#[test]
fn ty() {
    let t = TVMType::from("int");
    let tvm = TVMRetValue::from_arg(TVMArgValue::from_type(&t));
    assert_eq!(tvm.to_type().unwrap(), t);
}

#[test]
fn ctx() {
    let c = TVMContext::from("gpu");
    let tvm = TVMRetValue::from_arg(TVMArgValue::from_context(&c));
    assert_eq!(tvm.to_ctx().unwrap(), c);
}
