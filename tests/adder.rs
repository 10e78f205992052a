use hello::adder::{add_two, greeting, internal_adder, Guess};

#[test]
fn internal() {
    assert_eq!(4, internal_adder(2, 2));
}

#[test]
fn it_adds_two() {
    assert_eq!(4, add_two(2));
}

#[test]
fn adding_near_the_limits() {
    assert_eq!(add_two(i32::MAX - 2), i32::MAX);
    assert_eq!(add_two(-5), -3);
    assert_eq!(internal_adder(i32::MIN, 0), i32::MIN);
}

#[test]
fn greeting_is_fixed() {
    assert_eq!(greeting("Carol"), "Hello!");
}

#[test]
fn guess_keeps_its_value() {
    assert_eq!(Guess::new(1).value(), 1);
    assert_eq!(Guess::new(100).value(), 100);
}
