use book_catalog::book::BaseBook;
use book_catalog::formats::{add_new, collect_available_types, get_available_types, holds, reads};

fn texts(items: &[&str]) -> Vec<String> {
    items.iter().map(|c| c.to_string()).collect()
}

fn base(id: i32, types: &[&str]) -> BaseBook {
    BaseBook { id, available_types: texts(types) }
}

#[test]
fn fb2_from_flibusta_is_offered_in_four_formats() {
    assert_eq!(
        get_available_types("fb2".to_string(), "flibusta".to_string()),
        texts(&["fb2", "fb2zip", "epub", "mobi"])
    );
}

#[test]
fn fb2_from_another_source_is_offered_as_stored() {
    assert_eq!(get_available_types("fb2".to_string(), "other".to_string()), texts(&["fb2"]));
}

#[test]
fn epub_is_offered_as_stored_whatever_the_source() {
    assert_eq!(get_available_types("epub".to_string(), "flibusta".to_string()), texts(&["epub"]));
    assert_eq!(get_available_types("epub".to_string(), "other".to_string()), texts(&["epub"]));
}

#[test]
fn format_rule_asks_for_exact_texts() {
    assert_eq!(get_available_types("FB2".to_string(), "flibusta".to_string()), texts(&["FB2"]));
    assert_eq!(get_available_types("fb2".to_string(), "Flibusta".to_string()), texts(&["fb2"]));
    assert_eq!(get_available_types("fb2 ".to_string(), "flibusta".to_string()), texts(&["fb2 "]));
    assert_eq!(get_available_types("".to_string(), "".to_string()), texts(&[""]));
}

#[test]
fn own_type_is_always_first() {
    for file_type in ["fb2", "epub", "pdf", "djvu", ""] {
        for source in ["flibusta", "other"] {
            let types = get_available_types(file_type.to_string(), source.to_string());
            assert_eq!(types[0], file_type);
        }
    }
}

#[test]
fn reads_compares_whole_texts() {
    assert!(reads(&"fb2".to_string(), "fb2"));
    assert!(!reads(&"fb2".to_string(), "fb"));
    assert!(!reads(&"fb".to_string(), "fb2"));
    assert!(reads(&"".to_string(), ""));
}

#[test]
fn holds_and_add_new() {
    let mut list = texts(&["a", "b"]);
    assert!(holds(&list, &"a".to_string()));
    assert!(!holds(&list, &"c".to_string()));
    add_new(&mut list, "a".to_string());
    assert_eq!(list, texts(&["a", "b"]));
    add_new(&mut list, "c".to_string());
    assert_eq!(list, texts(&["a", "b", "c"]));
}

#[test]
fn union_lists_every_format_once_in_order_of_first_mention() {
    let books = vec![base(1, &["pdf"]), base(2, &["epub", "pdf"]), base(3, &["djvu", "epub"])];
    assert_eq!(collect_available_types(&books), texts(&["pdf", "epub", "djvu"]));
}

#[test]
fn union_forces_derived_formats_in_where_fb2_is_offered() {
    let books = vec![base(1, &["pdf"]), base(2, &["fb2"])];
    assert_eq!(collect_available_types(&books), texts(&["pdf", "fb2", "epub", "mobi", "fb2zip"]));
}

#[test]
fn union_does_not_repeat_derived_formats() {
    let books = vec![base(1, &["fb2", "fb2zip", "epub", "mobi"]), base(2, &["mobi"])];
    assert_eq!(collect_available_types(&books), texts(&["fb2", "fb2zip", "epub", "mobi"]));
    let books = vec![base(1, &["mobi"]), base(2, &["fb2"])];
    assert_eq!(collect_available_types(&books), texts(&["mobi", "fb2", "epub", "fb2zip"]));
}

#[test]
fn union_of_nothing_is_empty() {
    assert_eq!(collect_available_types(&Vec::new()), Vec::<String>::new());
    assert_eq!(collect_available_types(&vec![base(1, &[])]), Vec::<String>::new());
}

#[test]
fn union_without_fb2_adds_nothing() {
    let books = vec![base(1, &["epub"]), base(2, &["epub"])];
    assert_eq!(collect_available_types(&books), texts(&["epub"]));
}

#[test]
fn union_agrees_with_the_rule_for_one_book() {
    let one = vec![BaseBook {
        id: 7,
        available_types: get_available_types("fb2".to_string(), "flibusta".to_string()),
    }];
    let mut union = collect_available_types(&one);
    let mut rule = get_available_types("fb2".to_string(), "flibusta".to_string());
    union.sort();
    rule.sort();
    assert_eq!(union, rule);
}
