use workbook::adder::add_two;
use workbook::adder::greeting;
use workbook::adder::Rectangle;

#[test]
fn exploration() {
    assert_eq!(2 + 2, 4);
}

#[test]
fn larger_can_hold_smaller() {
    let larger = Rectangle { width: 8, height: 7 };

    let smaller = Rectangle { width: 5, height: 1 };

    assert!(larger.can_hold(&smaller));
}

#[test]
fn smaller_can_hold_larger() {
    let smaller = Rectangle { width: 8, height: 7 };

    let larger = Rectangle { width: 5, height: 1 };

    assert!(!larger.can_hold(&smaller));
}

#[test]
fn it_adds_two() {
    assert_eq!(4, add_two(2));
}

#[test]
fn greeting_contains_name() {
    let result = greeting("Carol");
    assert!(
        result.contains("Carol"),
        "Greeting dis not contain name, value was '{}'",
        result
    );
}

#[test]
fn it_works() -> Result<(), String> {
    if 2 + 2 == 4 {
        Ok(())
    } else {
        Err(String::from("two plus two does not equeal four"))
    }
}

#[test]
fn integration_test_it_adds_two() {
    assert_eq!(4, add_two(2));
}

#[test]
fn greeting_is_exact() {
    assert_eq!("Hello Carol!", greeting("Carol"));
    assert_eq!("Hello !", greeting(""));
}
