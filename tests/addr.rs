use music_bot::addr::{add, add_two, failed, Guess, Rectangle, GUESS_MAX, GUESS_MIN};

#[test]
fn exploration() {
    let result = add(2, 2);
    assert_eq!(result, 4);
}

#[test]
fn larger_can_hold_smaller() {
    let larger = Rectangle {
        width: 8,
        height: 7,
    };
    let smaller = Rectangle {
        width: 5,
        height: 1,
    };

    assert!(larger.can_hold(&smaller));
}

#[test]
fn smaller_cannot_hold_larger() {
    let larger = Rectangle {
        width: 8,
        height: 7,
    };
    let smaller = Rectangle {
        width: 5,
        height: 1,
    };

    assert!(!smaller.can_hold(&larger));
}

#[test]
fn it_adds_two() {
    assert_eq!(4, add_two(2));
}

#[test]
fn equal_to_100() {
    Guess::new(100);
}

#[test]
fn it_works() -> Result<(), String> {
    if 2 + 2 == 4 {
        Ok(())
    } else {
        Err(String::from("two plus two does not equal four"))
    }
}

#[test]
fn it_works_err() -> Result<(), String> {
    let result = failed();

    match result {
        Ok(_) => panic!("this should have failed"),
        Err(_e) => Ok(()),
    }
}

#[test]
fn failed_reports_its_message() {
    assert_eq!(failed(), Err(String::from("error!")));
}

#[test]
fn add_reaches_the_largest_value() {
    assert_eq!(add(u64::MAX - 1, 1), u64::MAX);
    assert_eq!(add(0, 0), 0);
}

#[test]
fn add_two_on_negative_values() {
    assert_eq!(add_two(-5), -3);
    assert_eq!(add_two(i32::MAX - 2), i32::MAX);
}

#[test]
fn guess_keeps_its_value_at_both_ends() {
    assert_eq!(Guess::new(GUESS_MIN).value(), 1);
    assert_eq!(Guess::new(GUESS_MAX).value(), 100);
    assert_eq!(Guess::new(42).value(), 42);
}

#[test]
fn can_hold_needs_both_sides_strictly_shorter() {
    let outer = Rectangle { width: 8, height: 7 };
    let same_width = Rectangle { width: 8, height: 1 };
    let same_height = Rectangle { width: 1, height: 7 };
    assert!(!outer.can_hold(&same_width));
    assert!(!outer.can_hold(&same_height));
    assert!(!outer.can_hold(&Rectangle { width: 8, height: 7 }));
}
