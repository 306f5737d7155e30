use tvm_rust::function::{register, Builder};
use tvm_rust::module::Module;
use tvm_rust::runtime::Runtime;
use tvm_rust::ty::TypeTag;
use tvm_rust::value::{TVMArgValue, TVMRetValue};
use tvm_rust::TVMError;

fn module_from_handle(h: u64) -> Module {
    TVMRetValue::from_handle(h, TypeTag::ModuleHandle)
        .unwrap()
        .to_module()
        .unwrap()
}

#[test]
fn module_resolution() {
    let mut rt = Runtime::new();
    let h = rt.install_module(&vec!["__tvm_main__".to_owned(), "add".to_owned()]);
    let m = module_from_handle(h);
    assert_eq!(m.as_handle(), h);
    assert!(!m.is_released());
    let add = m.get_function("add", false, &rt).unwrap();
    assert!(!add.is_global());
    match m.get_function("missing", false, &rt).unwrap_err() {
        TVMError::NullHandle { name } => assert_eq!(name, "missing"),
        other => panic!("unexpected error: {:?}", other),
    }
}

#[test]
fn entry_function_cached() {
    let mut rt = Runtime::new();
    let h = rt.install_module(&vec!["__tvm_main__".to_owned()]);
    let mut m = module_from_handle(h).entry_func(&rt);
    let mut b = Builder::from_module(&mut m);
    assert!(b.func.is_some());
    assert!(b.func.take().is_some());
    // the entry was taken out of the module: a second builder starts empty
    let b2 = Builder::from_module(&mut m);
    assert!(b2.func.is_none());
}

#[test]
fn import_resolution() {
    let mut rt = Runtime::new();
    let h1 = rt.install_module(&vec!["main_fn".to_owned()]);
    let h2 = rt.install_module(&vec!["dep_fn".to_owned()]);
    let m1 = module_from_handle(h1);
    let m2 = module_from_handle(h2);
    assert!(m1.get_function("dep_fn", true, &rt).is_err());
    m1.import_module(m2, &mut rt);
    // the dependent handle was dropped by the import and released once
    assert_eq!(rt.freed, vec![h2]);
    assert!(m1.get_function("dep_fn", true, &rt).is_ok());
    assert!(m1.get_function("dep_fn", false, &rt).is_err());
}

#[test]
fn module_release_once() {
    let mut rt = Runtime::new();
    let h = rt.install_module(&vec![]);
    let mut m = module_from_handle(h);
    m.release(&mut rt);
    m.release(&mut rt);
    assert!(m.is_released());
    assert_eq!(rt.freed, vec![h]);
}

#[test]
fn load_resolves_loader_and_extension() {
    let mut rt = Runtime::new();
    let h = rt.install_module(&vec!["__tvm_main__".to_owned()]);
    let loader = move |args: Vec<TVMArgValue>| -> Result<TVMRetValue, TVMError> {
        assert_eq!(args.len(), 2);
        assert_eq!(args[0].to_string().unwrap(), "add_cpu.so");
        assert_eq!(args[1].to_string().unwrap(), "so");
        TVMRetValue::from_handle(h, TypeTag::ModuleHandle)
    };
    register(&loader, "module._LoadFromFile".to_owned(), false, &mut rt).unwrap();
    let m = Module::load("add_cpu.so", &mut rt, loader).unwrap();
    assert_eq!(m.as_handle(), h);
    assert!(!m.is_released());
}

#[test]
fn load_without_loader_fails() {
    let mut rt = Runtime::new();
    fn loader(_args: Vec<TVMArgValue>) -> Result<TVMRetValue, TVMError> {
        TVMRetValue::from_handle(1, TypeTag::ModuleHandle)
    }
    let err = Module::load("add_cpu.so", &mut rt, loader).unwrap_err();
    assert!(matches!(err, TVMError::FunctionNotFound));
}

#[test]
fn enabled_queries_target() {
    let mut rt = Runtime::new();
    let h = rt.install_module(&vec![]);
    let m = module_from_handle(h);
    fn query(args: Vec<TVMArgValue>) -> Result<TVMRetValue, TVMError> {
        let target = args[0].to_string().unwrap();
        let answer: i64 = if target == "cpu" { 1 } else { 0 };
        Ok(TVMRetValue::from(&answer))
    }
    register(&query, "module._Enabled".to_owned(), false, &mut rt).unwrap();
    assert_eq!(m.enabled("cpu", &mut rt, query).unwrap(), true);
    assert_eq!(m.enabled("cuda", &mut rt, query).unwrap(), false);
}
