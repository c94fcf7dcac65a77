use objc_bridge::selector::classify;
use objc_bridge::selector::count_arguments;
use objc_bridge::selector::has_prefix;
use objc_bridge::selector::same_text;
use objc_bridge::selector::Family;

#[test]
fn a_selector_takes_one_argument_for_each_colon() {
    assert_eq!(count_arguments("count"), 0);
    assert_eq!(count_arguments("objectAtIndex:"), 1);
    assert_eq!(count_arguments("insertObject:atIndex:"), 2);
    assert_eq!(count_arguments("initWithBytes:length:encoding:"), 3);
    assert_eq!(count_arguments(""), 0);
    assert_eq!(count_arguments(":::"), 3);
}

#[test]
fn names_that_create_are_told_from_names_that_borrow() {
    assert_eq!(classify("alloc"), Family::Creates);
    assert_eq!(classify("newCommandQueue"), Family::Creates);
    assert_eq!(classify("copy"), Family::Creates);
    assert_eq!(classify("copyWithZone:"), Family::Creates);
    assert_eq!(classify("init"), Family::Initializes);
    assert_eq!(classify("initWithString:"), Family::Initializes);
    assert_eq!(classify("description"), Family::Borrows);
    assert_eq!(classify("name"), Family::Borrows);
    assert_eq!(classify("count"), Family::Borrows);
    assert_eq!(classify("insertObject:atIndex:"), Family::Borrows);
    assert_eq!(classify("allocate"), Family::Borrows);
    assert_eq!(classify(""), Family::Borrows);
}

#[test]
fn prefixes_and_equal_texts_are_recognised() {
    assert!(has_prefix("newBuffer", "new"));
    assert!(has_prefix("new", "new"));
    assert!(!has_prefix("ne", "new"));
    assert!(!has_prefix("name", "new"));
    assert!(has_prefix("anything", ""));
    assert!(same_text("alloc", "alloc"));
    assert!(!same_text("alloc", "allocate"));
    assert!(!same_text("alloc", "allot"));
}
