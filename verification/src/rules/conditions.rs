//! Conditions: predicates over a product that never change it.

use vstd::prelude::*;

use crate::rules::model::{ConditionView, ProductView};
use crate::rules::product::Product;

verus! {

/// A predicate that can be evaluated against a product.
pub trait Condition {
    /// What the predicate says of a product.
    spec fn holds(&self, product: ProductView) -> bool;

    /// Evaluates the predicate; the product is left as it is.
    fn is_match(&self, product: &Product) -> (matched: bool)
        ensures
            matched == self.holds(product@),
    ;
}

/// The condition that an attribute is set to one exact value.
pub struct Has {
    attribute: String,
    value: String,
}

impl View for Has {
    type V = ConditionView;

    closed spec fn view(&self) -> ConditionView {
        ConditionView::Has { attribute: self.attribute@, value: self.value@ }
    }
}

impl Has {
    /// The condition that `attribute` is set to `value`.
    pub fn new(attribute: &str, value: &str) -> (condition: Has)
        ensures
            condition@ == (ConditionView::Has { attribute: attribute@, value: value@ }),
    {
        Has { attribute: attribute.to_string(), value: value.to_string() }
    }
}

impl Condition for Has {
    open spec fn holds(&self, product: ProductView) -> bool {
        self@.holds(product)
    }

    /// True exactly when the product has the attribute and its value equals
    /// the expected one, character for character.
    fn is_match(&self, product: &Product) -> (matched: bool) {
        attribute_is(product, &self.attribute, &self.value)
    }
}

/// Whether `product` has `attribute` set to exactly `value`.
fn attribute_is(product: &Product, attribute: &String, value: &String) -> (matched: bool)
    ensures
        matched == (product@.get(attribute@) == Some(value@)),
{
    match product.get(attribute.as_str()) {
        Some(found) => *found == *value,
        None => false,
    }
}

/// The conditions a rule can carry.
#[derive(Debug, PartialEq, Eq)]
pub enum ConditionExpr {
    /// The attribute is set to exactly this value.
    Has { attribute: String, value: String },
    /// The product's part is exactly this one.
    Is { part: String },
}

impl View for ConditionExpr {
    type V = ConditionView;

    open spec fn view(&self) -> ConditionView {
        match self {
            ConditionExpr::Has { attribute, value } => ConditionView::Has {
                attribute: attribute@,
                value: value@,
            },
            ConditionExpr::Is { part } => ConditionView::Is { part: part@ },
        }
    }
}

impl Clone for ConditionExpr {
    /// A copy that is the same condition.
    fn clone(&self) -> (copy: ConditionExpr)
        ensures
            copy == *self,
    {
        match self {
            ConditionExpr::Has { attribute, value } => ConditionExpr::Has {
                attribute: attribute.clone(),
                value: value.clone(),
            },
            ConditionExpr::Is { part } => ConditionExpr::Is { part: part.clone() },
        }
    }
}

impl ConditionExpr {
    /// The condition that `attribute` is set to `value`.
    pub fn has(attribute: &str, value: &str) -> (condition: ConditionExpr)
        ensures
            condition@ == (ConditionView::Has { attribute: attribute@, value: value@ }),
    {
        ConditionExpr::Has { attribute: attribute.to_string(), value: value.to_string() }
    }

    /// The condition that the product's part is `part`.
    pub fn is(part: &str) -> (condition: ConditionExpr)
        ensures
            condition@ == (ConditionView::Is { part: part@ }),
    {
        ConditionExpr::Is { part: part.to_string() }
    }

    /// Evaluates the condition. `Has` holds exactly when the attribute is set
    /// and its value equals the expected one; `Is` holds exactly when the
    /// product's part equals the expected one. The comparison is exact: no
    /// trimming, no folding of case.
    pub fn matches(&self, product: &Product) -> (matched: bool)
        ensures
            matched == self@.holds(product@),
    {
        match self {
            ConditionExpr::Has { attribute, value } => attribute_is(product, attribute, value),
            ConditionExpr::Is { part } => product.has_part(part),
        }
    }
}

impl Condition for ConditionExpr {
    open spec fn holds(&self, product: ProductView) -> bool {
        self@.holds(product)
    }

    fn is_match(&self, product: &Product) -> (matched: bool) {
        self.matches(product)
    }
}

} // verus!
