use ruler::rules::product::Product;

#[test]
fn new_product_has_no_attributes() {
    let product = Product::new("W600", "H");
    assert_eq!(product.typeclass(), "W600");
    assert_eq!(product.part(), "H");
    assert_eq!(product.get("TYP"), None);
    assert_eq!(product.get(""), None);
}

#[test]
fn set_then_get_reads_the_value_back() {
    let mut product = Product::new("W600", "H");
    product.set("TYP", "W600");
    assert_eq!(product.get("TYP").map(String::as_str), Some("W600"));
    assert_eq!(product.get("GEHAEUSEFORM"), None);
}

#[test]
fn set_overwrites_an_existing_value() {
    let mut product = Product::new("W600", "H");
    product.set("TYP", "W600");
    product.set("TYP", "514");
    assert_eq!(product.get("TYP").map(String::as_str), Some("514"));
}

#[test]
fn set_leaves_other_keys_typeclass_and_part_alone() {
    let mut product = Product::new("W600", "H");
    product.set("TYP", "W600");
    product.set("DN", "15");
    assert_eq!(product.get("TYP").map(String::as_str), Some("W600"));
    assert_eq!(product.get("DN").map(String::as_str), Some("15"));
    assert_eq!(product.typeclass(), "W600");
    assert_eq!(product.part(), "H");
}

#[test]
fn empty_string_value_is_not_the_same_as_unset() {
    let mut product = Product::new("W600", "H");
    product.set("TYP", "");
    assert_eq!(product.get("TYP").map(String::as_str), Some(""));
    assert_eq!(product.get("DN"), None);
}

#[test]
fn keys_are_case_sensitive() {
    let mut product = Product::new("W600", "H");
    product.set("TYP", "W600");
    assert_eq!(product.get("typ"), None);
    assert_eq!(product.get("TYP "), None);
}

#[test]
fn delete_removes_the_key() {
    let mut product = Product::new("W600", "H");
    product.set("TYP", "W600");
    product.set("DN", "15");
    product.delete("TYP");
    assert_eq!(product.get("TYP"), None);
    assert_eq!(product.get("DN").map(String::as_str), Some("15"));
}

#[test]
fn delete_of_an_absent_key_changes_nothing() {
    let mut product = Product::new("W600", "H");
    product.set("DN", "15");
    product.delete("TYP");
    product.delete("TYP");
    assert_eq!(product.get("TYP"), None);
    assert_eq!(product.get("DN").map(String::as_str), Some("15"));
    assert_eq!(product.typeclass(), "W600");
    assert_eq!(product.part(), "H");
}

#[test]
fn has_part_compares_exactly() {
    let product = Product::new("W600", "H");
    assert!(product.has_part(&String::from("H")));
    assert!(!product.has_part(&String::from("h")));
    assert!(!product.has_part(&String::from("H ")));
    assert!(!product.has_part(&String::from("")));
}
