use music_bot::rust_lang::generics::{largest, largest_ref};
use music_bot::rust_lang::lifetime::{longest, longest3};
use music_bot::rust_lang::no_generics::{largest_char, largest_i32};

#[test]
fn largest_i32_of_a_list() {
    assert_eq!(largest_i32(&[1, 2, 3, 4, 5]), 5);
    assert_eq!(largest_i32(&[34, 50, 25, 100, 65]), 100);
    assert_eq!(largest_i32(&[-7]), -7);
    assert_eq!(largest_i32(&[-3, -9, -1, -4]), -1);
}

#[test]
fn largest_char_of_a_list() {
    assert_eq!(largest_char(&['1', 'a']), 'a');
    assert_eq!(largest_char(&['y', 'm', 'a', 'q']), 'y');
}

#[test]
fn generic_largest_agrees_on_integers_and_chars() {
    let numbers = [1, 2, 3, 4, 5];
    assert_eq!(largest(&numbers), largest_i32(&numbers));
    let chars = ['1', 'a'];
    assert_eq!(largest(&chars), 'a');
    assert_eq!(largest(&[9u64, 2, 9, 1]), 9);
}

#[test]
fn largest_ref_points_at_the_first_largest() {
    let pairs = [(1, 'a'), (3, 'b'), (3, 'a'), (2, 'z')];
    let r = largest_ref(&pairs);
    assert_eq!(*r, (3, 'b'));
    let chars = ['1', 'a'];
    assert!(std::ptr::eq(largest_ref(&chars), &chars[1]));
    let equal = [5, 5, 5];
    assert!(std::ptr::eq(largest_ref(&equal), &equal[0]));
}

#[test]
fn longest_prefers_the_longer_string() {
    assert_eq!(longest("long string is long", "xyz"), "long string is long");
    assert_eq!(longest("ab", "cde"), "cde");
    assert_eq!(longest3("abcd", "efgh"), "efgh");
    assert_eq!(longest3("", ""), "");
}

#[test]
fn longest_counts_bytes() {
    // two characters, four bytes, against three single-byte characters
    assert_eq!(longest("éé", "abc"), "éé");
}
