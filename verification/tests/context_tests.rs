use tvm_rust::context::{TVMContext, TVMDeviceType};
use tvm_rust::function::register;
use tvm_rust::value::{TVMArgValue, TVMRetValue};
use tvm_rust::TVMError;
use tvm_rust::runtime::Runtime;
use tvm_rust::version;

#[test]
fn context_context() {
    let ctx = TVMContext::cpu(0);
    println!("ctx: {}", ctx.describe());
    let default_ctx = TVMContext::new(TVMDeviceType(1), 0);
    assert_eq!(ctx.clone(), default_ctx);
    assert_ne!(ctx, TVMContext::gpu(0));

    let str_ctx = TVMContext::new(TVMDeviceType::from("gpu"), 0);
    assert_eq!(str_ctx.clone(), str_ctx);
    assert_ne!(str_ctx, TVMContext::new(TVMDeviceType::from("cpu"), 0));
}

#[test]
fn lib_context() {
    let ctx = TVMContext::cpu(0);
    let default_ctx = TVMContext::new(TVMDeviceType::new(1), 0);
    assert_eq!(ctx.current_context().clone(), default_ctx);
    assert_ne!(ctx, TVMContext::gpu(0));

    let str_ctx = TVMContext::new(TVMDeviceType::from("gpu"), 0);
    assert_eq!(str_ctx.current_context().clone(), str_ctx);
    assert_ne!(str_ctx, TVMContext::new(TVMDeviceType::from("cpu"), 0));
}

#[test]
fn print_version() {
    println!("TVM version: {}", version());
}

#[test]
fn error() {
    let mut rt = Runtime::new();
    let msg: &'static str = "Invalid";
    rt.set_last(String::from(msg));
    assert_eq!(rt.get_last().trim(), msg);
}

#[test]
fn context_sync() {
    let ctx = TVMContext::cpu(0);
    assert!(ctx.sync().is_ok())
}

#[test]
fn lib_sync() {
    let ctx = TVMContext::cpu(0);
    assert!(ctx.sync().is_ok())
}

#[test]
fn device_names() {
    assert_eq!(TVMDeviceType(1).name(), "cpu");
    assert_eq!(TVMDeviceType(2).name(), "gpu");
    assert_eq!(TVMDeviceType(10).name(), "rocm");
    assert_eq!(TVMDeviceType(12).name(), "rpc");
    assert_eq!(TVMContext::gpu(3).describe(), "gpu(3)");
    assert_eq!(TVMContext::cpu(17).describe(), "cpu(17)");
    assert_eq!(TVMContext::default().describe(), "cpu(0)");
}

#[test]
fn device_codes() {
    assert_eq!(TVMDeviceType::from("cuda"), TVMDeviceType(2));
    assert_eq!(TVMDeviceType::from("llvm"), TVMDeviceType(1));
    assert_eq!(TVMDeviceType::from("opencl").device_code(), 4);
    assert_eq!(TVMDeviceType::from_device_code(9), TVMDeviceType(9));
    assert_eq!(TVMDeviceType::default(), TVMDeviceType(1));
}

#[test]
fn exist_queries_device() {
    fn query(args: Vec<TVMArgValue>) -> Result<TVMRetValue, TVMError> {
        // device code, device id, attribute kind
        assert_eq!(args.len(), 3);
        assert_eq!(args[2].to_uint().unwrap(), 0);
        let present: i64 = if args[0].to_uint().unwrap() == 1 { 1 } else { 0 };
        Ok(TVMRetValue::from(&present))
    }
    let mut rt = Runtime::new();
    register(&query, "_GetDeviceAttr".to_owned(), false, &mut rt).unwrap();
    assert_eq!(TVMContext::cpu(0).exist(&mut rt, query).unwrap(), true);
    assert_eq!(TVMContext::gpu(0).exist(&mut rt, query).unwrap(), false);
}
