use std::sync::{Arc, Mutex};

use c_closures::{argument_usable, check_rebind, Closure, ClosureMarkerTrait};

#[test]
fn lib_fn_not_mut() {
    let y = 4;
    let mut closure = Closure::fn_not_mut(move |x: i32| x + x + y);
    let ret = closure.call(2);
    assert_eq!(ret, Some(8));
    drop(closure);
}

#[test]
fn lib_fn_mut() {
    let mut y = 4;
    let mut closure = Closure::fn_mut(move |x: i32| {
        y *= 2;
        x + x + y
    });
    let ret = closure.call(2);
    assert_eq!(ret, Some(12));
    let ret = closure.call(2);
    assert_eq!(ret, Some(20));
    drop(closure);
}

#[test]
fn lib_fn_once() {
    let mut y = 4;
    let mut closure = Closure::fn_once(move |x: i32| {
        y *= 2;
        x + x + y
    });
    let ret = closure.call(2);
    assert_eq!(ret, Some(12));
    drop(closure);
}

#[test]
fn lib_fn_drop_test() {
    let value = Arc::new(());
    let value_clone = value.clone();
    let mut closure = Closure::fn_not_mut(move |_: ()| value_clone.clone());
    let ret = closure.call(());
    assert_eq!(Arc::strong_count(&value), 3);
    drop(ret);
    assert_eq!(Arc::strong_count(&value), 2);
    drop(closure);
    assert_eq!(Arc::strong_count(&value), 1);
}

struct NotAClosure;

impl ClosureMarkerTrait for NotAClosure {}

/// Rebinds an adapter as `C`, failing loudly when the layouts differ in size.
fn rebind_ref<F, C: ClosureMarkerTrait>(c: &Closure<F>) -> &Closure<F> {
    check_rebind::<Closure<F>, C>().expect("adapter types differ in size");
    c
}

fn rebind_mut<F, C: ClosureMarkerTrait>(c: &mut Closure<F>) -> &mut Closure<F> {
    check_rebind::<Closure<F>, C>().expect("adapter types differ in size");
    c
}

#[test]
#[should_panic]
fn bad_ref_usage() {
    let c = Closure::fn_not_mut(|_: ()| ());
    rebind_ref::<_, NotAClosure>(&c);
}

#[test]
#[should_panic]
fn bad_mut_usage() {
    let mut c = Closure::fn_not_mut(|_: ()| ());
    rebind_mut::<_, NotAClosure>(&mut c);
}

#[test]
fn two_in_scope() {
    let _a: Closure<fn(())> = Closure::new_noop();
    assert!(check_rebind::<Closure<fn(())>, Closure<fn(())>>().is_ok());
    let _b: Closure<fn(())> = Closure::new_noop();
    assert!(check_rebind::<Closure<fn(())>, Closure<fn(())>>().is_ok());
}

#[test]
fn main_fn_not_mut() {
    let y = 4;
    let mut closure = Closure::fn_not_mut(move |x: i32| x + x + y);
    let ret = closure.call(2);
    assert_eq!(ret, Some(8));
    drop(closure);
}

#[test]
fn main_fn_mut() {
    let mut y = 4;
    let mut closure = Closure::fn_mut(move |x: i32| {
        y *= 2;
        x + x + y
    });
    let ret = closure.call(2);
    assert_eq!(ret, Some(12));
    let ret = closure.call(2);
    assert_eq!(ret, Some(20));
    drop(closure);
}

#[test]
fn main_fn_once() {
    let mut y = 4;
    let mut closure = Closure::fn_once(move |x: i32| {
        y *= 2;
        x + x + y
    });
    let ret = closure.call(2);
    assert_eq!(ret, Some(12));
    drop(closure);
}

#[test]
fn main_fn_drop_test() {
    let value = Arc::new(());
    let value_clone = value.clone();
    let closure =
        Closure::fn_not_mut(move |_: ()| println!("{}", Arc::strong_count(&value_clone)));
    assert_eq!(Arc::strong_count(&value), 2);
    drop(closure);
    assert_eq!(Arc::strong_count(&value), 1);
}

#[test]
fn fn_noop() {
    let mut closure: Closure<fn(())> = Closure::new_noop();
    assert_eq!(closure.call(()), None);
}

#[test]
fn fn_closure_returning_closure() {
    let mut closure = Closure::fn_mut(|_: ()| Closure::fn_mut(|_: ()| 2 + 2));
    let mut sub_closure = closure.call(()).unwrap();
    assert_eq!(sub_closure.call(()), Some(4));
    drop(sub_closure);
    // Do it again, just to be sure.
    let mut sub_closure = closure.call(()).unwrap();
    assert_eq!(sub_closure.call(()), Some(4));
    drop(sub_closure);
}

#[test]
fn fn_closure_returning_closure_with_data() {
    let y = Arc::new(Mutex::new(0));
    let mut closure = Closure::fn_mut(move |_: ()| {
        *y.lock().unwrap() += 2;
        let y = y.clone();
        Closure::fn_mut(move |_: ()| {
            let mut y = y.lock().unwrap();
            *y += 2;
            *y + 2
        })
    });
    let mut sub_closure = closure.call(()).unwrap();
    assert_eq!(sub_closure.call(()), Some(6));
    drop(sub_closure);
    // Do it again, just to be sure.
    let mut sub_closure = closure.call(()).unwrap();
    assert_eq!(sub_closure.call(()), Some(10));
    drop(sub_closure);
}

#[test]
fn once_refuses_second_call() {
    let mut y = 4;
    let mut closure = Closure::fn_once(move |x: i32| {
        y *= 2;
        x + x + y
    });
    assert_eq!(closure.call(2), Some(12));
    assert_eq!(closure.call(2), None);
}

#[test]
fn once_releases_state_after_call() {
    let value = Arc::new(());
    let value_clone = value.clone();
    let mut closure = Closure::fn_once(move |_: ()| Arc::strong_count(&value_clone));
    assert_eq!(Arc::strong_count(&value), 2);
    assert_eq!(closure.call(()), Some(2));
    assert_eq!(Arc::strong_count(&value), 1);
    assert_eq!(closure.call(()), None);
}

#[test]
fn mutable_keeps_state_between_calls() {
    let mut count = 0u32;
    let mut closure = Closure::fn_mut(move |step: u32| {
        count += step;
        count
    });
    assert_eq!(closure.call(1), Some(1));
    assert_eq!(closure.call(5), Some(6));
    assert_eq!(closure.call(0), Some(6));
}

#[test]
fn noop_call_has_no_effect() {
    let mut noop: Closure<fn(i32)> = Closure::new_noop();
    assert_eq!(noop.call(3), None);
    assert_eq!(noop.call(3), None);
}

struct OneByte(#[allow(dead_code)] u8);
struct FourBytes(#[allow(dead_code)] [u8; 4]);
struct Word(#[allow(dead_code)] u32);
struct Half(#[allow(dead_code)] u16);

impl ClosureMarkerTrait for OneByte {}
impl ClosureMarkerTrait for FourBytes {}
impl ClosureMarkerTrait for Word {}
impl ClosureMarkerTrait for Half {}

#[test]
fn rebind_sizes() {
    let from = std::mem::size_of::<Closure<fn(i32) -> i32>>();
    let err = check_rebind::<Closure<fn(i32) -> i32>, OneByte>().unwrap_err();
    assert_eq!(err.from_size, from);
    assert_eq!(err.to_size, 1);
    assert!(check_rebind::<FourBytes, Word>().is_ok());
    let err = check_rebind::<Half, Word>().unwrap_err();
    assert_eq!((err.from_size, err.to_size), (2, 4));
}

#[test]
fn shared_calls_through_shared_references() {
    let y = 4;
    let closure = Closure::fn_not_mut(move |x: i32| x * y);
    let first = &closure;
    let second = &closure;
    assert_eq!(first.call_shared(2), Some(8));
    assert_eq!(second.call_shared(3), Some(12));
    assert_eq!(first.call_shared(2), Some(8));
    let noop: Closure<fn(i32) -> i32> = Closure::new_noop();
    assert_eq!(noop.call_shared(1), None);
}

#[test]
fn null_argument_handling() {
    assert!(!argument_usable::<i32>(true));
    assert!(argument_usable::<i32>(false));
    assert!(argument_usable::<()>(true));
    assert!(argument_usable::<()>(false));
}

#[test]
fn call_once_consumes_closure() {
    let values = vec![String::from("1"), String::from("2"), String::from("3")];
    let mut closure = Closure::fn_once(move |sep: &str| {
        let joined = values.join(sep);
        drop(values);
        joined
    });
    assert_eq!(closure.call_once("-"), Some(String::from("1-2-3")));
    assert_eq!(closure.call_once("-"), None);
}
