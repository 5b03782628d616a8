//! Actions: the changes a rule makes to a product's attributes.

use vstd::prelude::*;

use crate::rules::model::ActionView;
use crate::rules::product::Product;

verus! {

/// The actions a rule can carry.
#[derive(Debug, PartialEq, Eq)]
pub enum ActionExpr {
    /// Bind the attribute to the value.
    Assign { attribute: String, value: String },
    /// Drop the attribute.
    Delete { attribute: String },
}

impl View for ActionExpr {
    type V = ActionView;

    open spec fn view(&self) -> ActionView {
        match self {
            ActionExpr::Assign { attribute, value } => ActionView::Assign {
                attribute: attribute@,
                value: value@,
            },
            ActionExpr::Delete { attribute } => ActionView::Delete { attribute: attribute@ },
        }
    }
}

impl Clone for ActionExpr {
    /// A copy that is the same action.
    fn clone(&self) -> (copy: ActionExpr)
        ensures
            copy == *self,
    {
        match self {
            ActionExpr::Assign { attribute, value } => ActionExpr::Assign {
                attribute: attribute.clone(),
                value: value.clone(),
            },
            ActionExpr::Delete { attribute } => ActionExpr::Delete { attribute: attribute.clone() },
        }
    }
}

impl ActionExpr {
    /// The action that binds `attribute` to `value`.
    pub fn set(attribute: &str, value: &str) -> (action: ActionExpr)
        ensures
            action@ == (ActionView::Assign { attribute: attribute@, value: value@ }),
    {
        ActionExpr::Assign { attribute: attribute.to_string(), value: value.to_string() }
    }

    /// The action that drops `attribute`.
    pub fn delete(attribute: &str) -> (action: ActionExpr)
        ensures
            action@ == (ActionView::Delete { attribute: attribute@ }),
    {
        ActionExpr::Delete { attribute: attribute.to_string() }
    }

    /// Carries the action out on `product`. Assigning overwrites an old value
    /// or adds the key; deleting a key that is not set changes nothing.
    /// Neither can fail.
    pub fn apply(&self, product: &mut Product)
        ensures
            final(product)@ == self@.apply(old(product)@),
    {
        match self {
            ActionExpr::Assign { attribute, value } => product.set(
                attribute.as_str(),
                value.as_str(),
            ),
            ActionExpr::Delete { attribute } => product.delete(attribute.as_str()),
        }
    }
}

} // verus!
