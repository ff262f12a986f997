use functional_rs::{curry, curry3, ComposableFn};

#[test]
fn wrapped_call_equals_direct_call() {
    let square = |x: i64| x * x;
    let wrapped = ComposableFn::new(square);
    for x in [-3i64, 0, 7] {
        assert_eq!(wrapped.call(x), square(x));
    }
}

#[test]
fn wrapper_can_be_called_many_times() {
    let wrapped = ComposableFn::new(|x: u32| x + 1);
    assert_eq!(wrapped.call(1), 2);
    assert_eq!(wrapped.call(1), 2);
    assert_eq!(wrapped.call(41), 42);
}

#[test]
fn call_mut_and_call_once_agree_with_call() {
    let mut wrapped = ComposableFn::new(|x: i32| x - 5);
    assert_eq!(wrapped.call_mut(20), 15);
    assert_eq!(wrapped.call(20), 15);
    assert_eq!(wrapped.call_once(20), 15);
}

#[test]
fn composition_runs_left_operand_first() {
    let add_one = ComposableFn::new(|x: i32| x + 1);
    let double = ComposableFn::new(|x: i32| x * 2);
    let composed = add_one.shr(double);
    assert_eq!(composed.call(5), 12);

    let double = ComposableFn::new(|x: i32| x * 2);
    let add_one = ComposableFn::new(|x: i32| x + 1);
    let composed = double.shr(add_one);
    assert_eq!(composed.call(5), 11);
}

#[test]
fn composition_changes_types() {
    let length = ComposableFn::new(|s: &'static str| s.len());
    let is_even = ComposableFn::new(|n: usize| n % 2 == 0);
    let even_length = length.shr(is_even);
    assert!(even_length.call("abcd"));
    assert!(!even_length.call("abc"));
    assert!(even_length.call(""));
}

#[test]
fn composition_is_associative() {
    let f = |x: i32| x + 3;
    let g = |x: i32| x * 10;
    let h = |x: i32| x - 1;
    let left = ComposableFn::new(f).shr(ComposableFn::new(g)).shr(ComposableFn::new(h));
    let right = ComposableFn::new(f).shr(ComposableFn::new(g).shr(ComposableFn::new(h)));
    for x in [-7i32, 0, 1, 12] {
        assert_eq!(left.call(x), right.call(x));
        assert_eq!(left.call(x), h(g(f(x))));
    }
}

#[test]
fn curried_equals_direct_call() {
    let sub = |a: i32, b: i32| a - b;
    let curried = curry(sub);
    assert_eq!(curried.apply(10).apply(3), sub(10, 3));
    assert_eq!(curried.apply(3).apply(10), -7);
}

#[test]
fn partial_application_is_reusable() {
    let sub = |a: i32, b: i32| a - b;
    let curried = curry(sub);
    let from_ten = curried.apply(10);
    assert_eq!(from_ten.apply(1), 9);
    assert_eq!(from_ten.apply(4), 6);
    assert_eq!(from_ten.apply(1), 9);
    let from_two = curried.apply(2);
    assert_eq!(from_two.apply(1), 1);
    assert_eq!(from_ten.apply(2), 8);
}

#[test]
fn three_argument_currying() {
    let combine = |a: i64, b: i64, c: i64| a * 100 + b * 10 + c;
    let curried = curry3(combine);
    assert_eq!(curried.apply(1).apply(2).apply(3), 123);
    let one = curried.apply(1);
    let one_two = one.apply(2);
    let one_five = one.apply(5);
    assert_eq!(one_two.apply(9), 129);
    assert_eq!(one_five.apply(0), 150);
    assert_eq!(one_two.apply(0), combine(1, 2, 0));
}

#[test]
fn partial_application_composes() {
    let mul = curry(|a: i32, b: i32| a * b);
    let triple = mul.apply(3).into_composable();
    let negate = ComposableFn::new(|x: i32| -x);
    let pipeline = triple.shr(negate);
    assert_eq!(pipeline.call(7), -21);
    assert_eq!(pipeline.call(0), 0);
}
