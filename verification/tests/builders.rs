use ruler::rules::actions::ActionExpr;
use ruler::rules::dsl::{has, is, typeclass};
use ruler::rules::engine::RuleRegistry;
use ruler::rules::product::Product;
use ruler::rules::{Rule, TypeclassRuleBuilder};

#[test]
fn builder_new_is_what_typeclass_gives() {
    let mut registry = RuleRegistry::new();
    TypeclassRuleBuilder::new("W600")
        .when(has("TYP", "W600"))
        .then(ruler::rules::dsl::set("TYP", "514"))
        .create(&mut registry);

    let mut product = Product::new("W600", "H");
    product.set("TYP", "W600");
    let result = registry.apply_rules(product);
    assert_eq!(result.get("TYP").map(String::as_str), Some("514"));
}

#[test]
fn all_conditions_must_hold() {
    let mut registry = RuleRegistry::new();
    typeclass("W600")
        .when(has("TYP", "W600"))
        .and(has("GEHAEUSEFORM", "S"))
        .and(is("H"))
        .then(ruler::rules::dsl::set("STATUS", "OK"))
        .create(&mut registry);

    let mut all = Product::new("W600", "H");
    all.set("TYP", "W600");
    all.set("GEHAEUSEFORM", "S");
    assert_eq!(registry.apply_rules(all).get("STATUS").map(String::as_str), Some("OK"));

    let mut first_fails = Product::new("W600", "H");
    first_fails.set("TYP", "514");
    first_fails.set("GEHAEUSEFORM", "S");
    assert_eq!(registry.apply_rules(first_fails).get("STATUS"), None);

    let mut second_fails = Product::new("W600", "H");
    second_fails.set("TYP", "W600");
    assert_eq!(registry.apply_rules(second_fails).get("STATUS"), None);

    let mut third_fails = Product::new("W600", "K");
    third_fails.set("TYP", "W600");
    third_fails.set("GEHAEUSEFORM", "S");
    assert_eq!(registry.apply_rules(third_fails).get("STATUS"), None);
}

#[test]
fn and_then_keeps_the_order_of_actions() {
    let mut registry = RuleRegistry::new();
    typeclass("W600")
        .then(ruler::rules::dsl::set("A", "1"))
        .and_then(ruler::rules::dsl::set("B", "2"))
        .and_then(ActionExpr::delete("A"))
        .and_then(ruler::rules::dsl::set("C", "3"))
        .create(&mut registry);

    let result = registry.apply_rules(Product::new("W600", "H"));
    assert_eq!(result.get("A"), None);
    assert_eq!(result.get("B").map(String::as_str), Some("2"));
    assert_eq!(result.get("C").map(String::as_str), Some("3"));
}

#[test]
fn unfinished_builders_register_nothing() {
    let mut registry = RuleRegistry::new();
    typeclass("P600").then(ruler::rules::dsl::set("DN", "15"));
    typeclass("D40").when(is("K")).then(ruler::rules::dsl::set("DN", "15"));
    typeclass("W600").then(ruler::rules::dsl::set("FLAG", "ALWAYS")).create(&mut registry);

    assert_eq!(registry.apply_rules(Product::new("P600", "H")).get("DN"), None);
    assert_eq!(registry.apply_rules(Product::new("D40", "K")).get("DN"), None);
}

#[test]
fn a_rule_written_by_hand_can_be_registered() {
    let mut registry = RuleRegistry::new();
    registry.register(Rule {
        typeclass: String::from("W600"),
        conditions: vec![has("TYP", "W600")],
        actions: vec![ruler::rules::dsl::set("TYP", "514")],
    });

    let mut product = Product::new("W600", "H");
    product.set("TYP", "W600");
    let result = registry.apply_rules(product);
    assert_eq!(result.get("TYP").map(String::as_str), Some("514"));
}

#[test]
fn a_rule_without_actions_is_accepted_and_does_nothing() {
    let mut registry = RuleRegistry::new();
    registry.register(Rule {
        typeclass: String::from("W600"),
        conditions: vec![],
        actions: vec![],
    });

    let mut product = Product::new("W600", "H");
    product.set("TYP", "W600");
    let result = registry.apply_rules(product);
    assert_eq!(result.get("TYP").map(String::as_str), Some("W600"));
}
