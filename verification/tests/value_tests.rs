use tvm_rust::ty::TypeTag;
use tvm_rust::value::{TVMArgValue, TVMRetValue};
use tvm_rust::TVMError;

#[test]
fn int_round_trip() {
    for v in [0i64, -1, 42, -7_000_000_000, i64::MAX, i64::MIN] {
        assert_eq!(TVMArgValue::from(&v).to_int().unwrap(), v);
        assert_eq!(TVMRetValue::from(&v).to_int().unwrap(), v);
    }
    assert_eq!(TVMArgValue::from(&(-3i32)).to_int().unwrap(), -3);
}

#[test]
fn uint_round_trip() {
    for v in [0u64, 7, u64::MAX] {
        assert_eq!(TVMArgValue::from(&v).to_uint().unwrap(), v);
        assert_eq!(TVMRetValue::from(&v).to_uint().unwrap(), v);
    }
    assert_eq!(TVMArgValue::from(&9usize).to_uint().unwrap(), 9);
    assert_eq!(TVMArgValue::from(&8u32).to_uint().unwrap(), 8);
}

#[test]
fn float_bits_round_trip() {
    for f in [0.0f64, -1.5, 3.25e300, f64::MIN_POSITIVE, f64::INFINITY] {
        let bits = f.to_bits();
        let arg = TVMArgValue::from_float_bits(bits);
        assert_eq!(arg.to_float_bits().unwrap(), bits);
        assert_eq!(f64::from_bits(arg.to_float_bits().unwrap()), f);
        let ret = TVMRetValue::from_float_bits(bits);
        assert_eq!(ret.to_float_bits().unwrap(), bits);
    }
}

#[test]
fn string_round_trip() {
    for s in ["", "hello", "packed functions"] {
        let owned = s.to_owned();
        assert_eq!(TVMArgValue::from(&owned).to_string().unwrap(), s);
        assert_eq!(TVMRetValue::from(&owned).to_string().unwrap(), s);
    }
}

#[test]
fn bytes_round_trip() {
    for b in [vec![], vec![0u8], vec![1, 2, 255, 0, 7]] {
        assert_eq!(TVMArgValue::from(&b).to_bytes().unwrap(), b);
        assert_eq!(TVMRetValue::from(&b).to_bytes().unwrap(), b);
    }
}

#[test]
fn handle_round_trip() {
    for tag in [
        TypeTag::Handle,
        TypeTag::ArrayHandle,
        TypeTag::NodeHandle,
        TypeTag::ModuleHandle,
        TypeTag::FuncHandle,
    ] {
        let rv = TVMRetValue::from_handle(0xdead_beef, tag).unwrap();
        assert_eq!(rv.to_handle().unwrap(), 0xdead_beef);
    }
    assert!(matches!(
        TVMRetValue::from_handle(1, TypeTag::Int),
        Err(TVMError::UnsupportedType)
    ));
}

#[test]
fn accessor_type_mismatch() {
    let arg = TVMArgValue::from(&5i64);
    match arg.to_string().unwrap_err() {
        TVMError::TypeMismatch { expected, actual } => {
            assert_eq!(expected, TypeTag::Str);
            assert_eq!(actual, TypeTag::Int);
        }
        other => panic!("unexpected error: {:?}", other),
    }
    assert!(arg.to_uint().is_err());
    assert!(arg.to_float_bits().is_err());
    assert!(arg.to_bytes().is_err());
    assert!(arg.to_handle().is_err());
    assert!(arg.to_int().is_ok());
}

#[test]
fn tag_codes() {
    assert_eq!(TypeTag::Int.code(), 0);
    assert_eq!(TypeTag::Float.code(), 2);
    assert_eq!(TypeTag::FuncHandle.code(), 10);
    assert_eq!(TypeTag::Bytes.code(), 12);
    for c in [0u32, 1, 2, 3, 4, 7, 8, 9, 10, 11, 12] {
        assert_eq!(TypeTag::from_code(c).unwrap().code(), c);
    }
    assert!(matches!(TypeTag::from_code(5), Err(TVMError::UnsupportedType)));
    assert!(matches!(TypeTag::from_code(99), Err(TVMError::UnsupportedType)));
    assert!(TypeTag::NodeHandle.needs_arg_to_return());
    assert!(TypeTag::FuncHandle.needs_arg_to_return());
    assert!(TypeTag::ModuleHandle.needs_arg_to_return());
    assert!(!TypeTag::Handle.needs_arg_to_return());
    assert!(!TypeTag::Int.needs_arg_to_return());
}

#[test]
fn error_messages() {
    let e = TVMError::DuplicateName { name: "f".to_owned() };
    assert_eq!(e.message(), "global function is already registered: f");
    let e = TVMError::NativeCallFailed { message: "bad".to_owned() };
    assert_eq!(e.message(), "bad");
    let e = TVMError::NullHandle { name: "g".to_owned() };
    assert_eq!(e.message(), "null handle returned for: g");
}
