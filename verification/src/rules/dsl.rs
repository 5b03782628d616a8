//! Short names for writing rules down: `typeclass(..).when(has(..)).then(set(..))`.

use vstd::prelude::*;

use crate::rules::actions::ActionExpr;
use crate::rules::conditions::ConditionExpr;
use crate::rules::model::{ActionView, ConditionView, RuleView};
use crate::rules::TypeclassRuleBuilder;

verus! {

/// Starts a rule for products of the typeclass `name`.
pub fn typeclass(name: &str) -> (builder: TypeclassRuleBuilder)
    ensures
        builder@ == RuleView::blank(name@),
{
    TypeclassRuleBuilder::new(name)
}

/// The condition that `attribute` is set to exactly `value`.
pub fn has(attribute: &str, value: &str) -> (condition: ConditionExpr)
    ensures
        condition@ == (ConditionView::Has { attribute: attribute@, value: value@ }),
{
    ConditionExpr::has(attribute, value)
}

/// The condition that the product's part is exactly `part`.
pub fn is(part: &str) -> (condition: ConditionExpr)
    ensures
        condition@ == (ConditionView::Is { part: part@ }),
{
    ConditionExpr::is(part)
}

/// The action that binds `attribute` to `value`.
pub fn set(attribute: &str, value: &str) -> (action: ActionExpr)
    ensures
        action@ == (ActionView::Assign { attribute: attribute@, value: value@ }),
{
    ActionExpr::set(attribute, value)
}

} // verus!
