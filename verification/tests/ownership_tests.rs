use tvm_rust::function::{get_global_func, register, Builder};
use tvm_rust::runtime::Runtime;
use tvm_rust::value::{TVMArgValue, TVMRetValue};
use tvm_rust::TVMError;

fn unit(_args: Vec<TVMArgValue>) -> Result<TVMRetValue, TVMError> {
    Ok(TVMRetValue::from(&0i64))
}

#[test]
fn global_handle_never_released() {
    let mut rt = Runtime::new();
    register(&unit, "f".to_owned(), false, &mut rt).unwrap();
    let mut f = get_global_func("f", true, &rt).unwrap();
    assert!(f.is_global());
    f.release(&mut rt);
    assert_eq!(rt.freed.len(), 0);
}

#[test]
fn owning_handle_released_exactly_once() {
    let mut rt = Runtime::new();
    register(&unit, "f".to_owned(), false, &mut rt).unwrap();
    let mut f = get_global_func("f", false, &rt).unwrap();
    let h = f.handle();
    f.release(&mut rt);
    f.release(&mut rt);
    assert!(f.is_released());
    assert_eq!(rt.freed, vec![h]);
}

#[test]
fn clone_and_original_release_at_most_once() {
    let mut rt = Runtime::new();
    register(&unit, "f".to_owned(), false, &mut rt).unwrap();
    let mut f = get_global_func("f", false, &rt).unwrap();
    let mut c = f.clone();
    assert!(c.is_cloned());
    assert!(!f.is_cloned());
    c.release(&mut rt);
    f.release(&mut rt);
    assert_eq!(rt.freed.len(), 1);
}

#[test]
fn invoke_issues_no_release() {
    let mut rt = Runtime::new();
    register(&unit, "f".to_owned(), false, &mut rt).unwrap();
    let mut b = Builder::default();
    b.get_function("f", true, &mut rt);
    b.invoke(&mut rt, unit).unwrap();
    b.invoke(&mut rt, unit).unwrap();
    assert_eq!(rt.freed.len(), 0);
}

#[test]
fn clone_of_clone_stays_non_owning() {
    let mut rt = Runtime::new();
    register(&unit, "f".to_owned(), false, &mut rt).unwrap();
    let mut f = get_global_func("f", false, &rt).unwrap();
    let mut c1 = f.clone();
    let mut c2 = c1.clone();
    assert!(c1.is_cloned());
    assert!(c2.is_cloned());
    c2.release(&mut rt);
    c1.release(&mut rt);
    f.release(&mut rt);
    // however many duplicates exist, only the owning instance releases
    assert_eq!(rt.freed.len(), 1);
}
