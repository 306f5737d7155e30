use tvm_rust::function::{get_global_func, register, Builder, Function};
use tvm_rust::ty::TypeTag;
use tvm_rust::value::{Payload, TVMValue, ValueKind};
use tvm_rust::runtime::Runtime;
use tvm_rust::value::{TVMArgValue, TVMRetValue};
use tvm_rust::TVMError;

fn sum(args: Vec<TVMArgValue>) -> Result<TVMRetValue, TVMError> {
    let mut ret: i64 = 0;
    for arg in args.iter() {
        ret += arg.to_int()?;
    }
    let ret_val = TVMRetValue::from(&ret);
    Ok(ret_val)
}

fn unit(_args: Vec<TVMArgValue>) -> Result<TVMRetValue, TVMError> {
    Ok(TVMRetValue::from(&0i64))
}

#[test]
fn list_global_func() {
    let mut rt = Runtime::new();
    register(&unit, "tvm.graph_runtime.create".to_owned(), false, &mut rt).unwrap();
    assert!(
        rt.global_function_names()
            .iter()
            .find(|s| s.as_str() == "tvm.graph_runtime.create")
            .is_some()
    );
}

#[test]
fn get_fn() {
    let mut rt = Runtime::new();
    register(&unit, "tvm.graph_runtime.remote_create".to_owned(), false, &mut rt).unwrap();
    assert!(Function::get_function("tvm.graph_runtime.remote_create", true, &mut rt).is_some());
    assert!(Function::get_function("does not exists!", false, &mut rt).is_none());
}

#[test]
fn provide_args() {
    let mut rt = Runtime::new();
    register(&unit, "tvm.graph_runtime.remote_create".to_owned(), false, &mut rt).unwrap();
    let mut func = Builder::default();
    func.get_function("tvm.graph_runtime.remote_create", true, &mut rt)
        .args(&[10, 20])
        .arg(&"test".to_owned());
    assert!(func.arg_buf.is_some());
    assert_eq!(func.arg_buf.take().map(|bv| Vec::from(bv).len()), Some(3));
}

#[test]
fn callback_round_trip() {
    let mut rt = Runtime::new();
    register(&sum, "mysum".to_owned(), false, &mut rt).unwrap();
    let mut registered = Builder::default();
    registered.get_function("mysum", true, &mut rt);
    assert!(registered.func.is_some());
    registered.args(&[10, 20, 30]);
    assert_eq!(registered.invoke(&mut rt, sum).unwrap().to_int().unwrap(), 60);
}

#[test]
fn resolve_missing_name() {
    let mut rt = Runtime::new();
    register(&sum, "mysum".to_owned(), false, &mut rt).unwrap();
    assert!(get_global_func("nosuch", true, &rt).is_none());
    assert!(Function::get_function("nosuch", true, &mut rt).is_none());
}

#[test]
fn callback_error_propagates() {
    fn failing(_args: Vec<TVMArgValue>) -> Result<TVMRetValue, TVMError> {
        Err(TVMError::NativeCallFailed { message: "something went wrong".to_owned() })
    }
    let mut rt = Runtime::new();
    register(&failing, "always_fails".to_owned(), false, &mut rt).unwrap();
    let mut b = Builder::default();
    b.get_function("always_fails", true, &mut rt);
    let err = b.invoke(&mut rt, failing).unwrap_err();
    match err {
        TVMError::NativeCallFailed { message } => assert_eq!(message, "something went wrong"),
        other => panic!("unexpected error: {:?}", other),
    }
    assert_eq!(rt.get_last(), "something went wrong");
}

#[test]
fn invoke_without_function() {
    let mut rt = Runtime::new();
    let b = Builder::default();
    let err = b.invoke(&mut rt, sum).unwrap_err();
    assert!(matches!(err, TVMError::FunctionNotFound));
}

#[test]
fn builder_serializes_in_order() {
    fn probe(args: Vec<TVMArgValue>) -> Result<TVMRetValue, TVMError> {
        assert_eq!(args.len(), 4);
        assert_eq!(args[0].to_int().unwrap(), 1);
        assert_eq!(args[1].to_int().unwrap(), 2);
        assert_eq!(args[2].to_int().unwrap(), 3);
        // the output slot travels as the one trailing argument
        assert_eq!(args[3].to_int().unwrap(), 99);
        let n = args.len() as i64;
        Ok(TVMRetValue::from(&n))
    }
    let mut rt = Runtime::new();
    register(&probe, "probe".to_owned(), false, &mut rt).unwrap();
    let mut b = Builder::default();
    b.get_function("probe", true, &mut rt);
    b.args(&[1, 2, 3]);
    b.set_output(&99i64);
    assert_eq!(b.invoke(&mut rt, probe).unwrap().to_int().unwrap(), 4);
}

#[test]
fn register_collision() {
    let mut rt = Runtime::new();
    register(&unit, "f".to_owned(), false, &mut rt).unwrap();
    let h1 = rt.lookup_global("f").unwrap();
    let err = register(&sum, "f".to_owned(), false, &mut rt).unwrap_err();
    match err {
        TVMError::DuplicateName { name } => assert_eq!(name, "f"),
        other => panic!("unexpected error: {:?}", other),
    }
    assert_eq!(rt.lookup_global("f").unwrap(), h1);
}

#[test]
fn register_override() {
    let mut rt = Runtime::new();
    register(&unit, "f".to_owned(), false, &mut rt).unwrap();
    let h1 = rt.lookup_global("f").unwrap();
    register(&sum, "f".to_owned(), true, &mut rt).unwrap();
    let h2 = rt.lookup_global("f").unwrap();
    assert_ne!(h1, h2);
    // the replaced binding resolves to the second registration
    let f = get_global_func("f", true, &rt).unwrap();
    assert_eq!(f.handle(), h2);
    let mut b = Builder::default();
    b.get_function("f", true, &mut rt);
    b.args(&[4, 5]);
    assert_eq!(b.invoke(&mut rt, sum).unwrap().to_int().unwrap(), 9);
}

#[test]
fn malformed_result_is_refused() {
    fn confused(_args: Vec<TVMArgValue>) -> Result<TVMRetValue, TVMError> {
        // a string payload under an integer tag must not cross the boundary
        Ok(TVMRetValue {
            value: TVMValue { kind: ValueKind::Return, inner: Payload::Text("oops".to_owned()) },
            type_code: TypeTag::Int,
        })
    }
    let mut rt = Runtime::new();
    register(&confused, "confused".to_owned(), false, &mut rt).unwrap();
    let mut b = Builder::default();
    b.get_function("confused", true, &mut rt);
    let err = b.invoke(&mut rt, confused).unwrap_err();
    assert!(matches!(err, TVMError::NativeCallFailed { .. }));
}

#[test]
fn handle_args_are_converted() {
    let mut rt = Runtime::new();
    register(&unit, "takes_handles".to_owned(), false, &mut rt).unwrap();
    let f = get_global_func("takes_handles", true, &rt).unwrap();
    let args = vec![
        TVMArgValue {
            value: TVMValue { kind: ValueKind::Argument, inner: Payload::Handle(41) },
            type_code: TypeTag::FuncHandle,
        },
        TVMArgValue {
            value: TVMValue { kind: ValueKind::Argument, inner: Payload::Int(5) },
            type_code: TypeTag::Int,
        },
        TVMArgValue {
            value: TVMValue { kind: ValueKind::Argument, inner: Payload::Handle(42) },
            type_code: TypeTag::NodeHandle,
        },
        TVMArgValue {
            value: TVMValue { kind: ValueKind::Argument, inner: Payload::Handle(43) },
            type_code: TypeTag::Handle,
        },
    ];
    let b = Builder::new(Some(f), Some(args), None);
    b.invoke(&mut rt, unit).unwrap();
    // only node, function and module handles take the argument-to-return
    // conversion, in argument order; a plain handle does not
    assert_eq!(rt.converted, vec![41, 42]);
}

#[test]
fn null_binding_resolves_to_nothing() {
    let mut rt = Runtime::new();
    rt.register_global("nil".to_owned(), 0, false).unwrap();
    assert!(get_global_func("nil", true, &rt).is_none());
    assert!(Function::get_function("nil", true, &mut rt).is_none());
    let mut b = Builder::default();
    b.get_function("nil", true, &mut rt);
    assert!(b.func.is_none());
}
