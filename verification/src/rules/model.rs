//! The mathematical model the contracts of this crate are stated over.
//!
//! Text is a `Seq<char>`, an attribute table is a `Map` from text to text, and
//! every executable type has a view into one of the types defined here.

use vstd::prelude::*;

verus! {

/// What a product is: its typeclass, its part, and its attribute table.
#[verifier::ext_equal]
pub struct ProductView {
    pub typeclass: Seq<char>,
    pub part: Seq<char>,
    pub attributes: Map<Seq<char>, Seq<char>>,
}

impl ProductView {
    /// A product of the given typeclass and part without any attribute.
    pub open spec fn empty(typeclass: Seq<char>, part: Seq<char>) -> ProductView {
        ProductView { typeclass, part, attributes: Map::empty() }
    }

    /// The value stored under `key`, or `None` when the key is not set.
    pub open spec fn get(self, key: Seq<char>) -> Option<Seq<char>> {
        if self.attributes.contains_key(key) {
            Some(self.attributes[key])
        } else {
            None
        }
    }

    /// The product with `key` bound to `value`, whatever it held before.
    pub open spec fn set(self, key: Seq<char>, value: Seq<char>) -> ProductView {
        ProductView { attributes: self.attributes.insert(key, value), ..self }
    }

    /// The product without `key`; unchanged when the key is not set.
    pub open spec fn delete(self, key: Seq<char>) -> ProductView {
        ProductView { attributes: self.attributes.remove(key), ..self }
    }
}

/// A predicate over products.
pub enum ConditionView {
    /// The attribute is set, and set to exactly this value.
    Has { attribute: Seq<char>, value: Seq<char> },
    /// The product's part is exactly this one.
    Is { part: Seq<char> },
}

impl ConditionView {
    /// Whether the condition holds of `product`.
    pub open spec fn holds(self, product: ProductView) -> bool {
        match self {
            ConditionView::Has { attribute, value } => product.get(attribute) == Some(value),
            ConditionView::Is { part } => product.part == part,
        }
    }
}

/// A change to a product's attribute table.
pub enum ActionView {
    /// Bind the attribute to the value.
    Assign { attribute: Seq<char>, value: Seq<char> },
    /// Drop the attribute.
    Delete { attribute: Seq<char> },
}

impl ActionView {
    /// The product after the action.
    pub open spec fn apply(self, product: ProductView) -> ProductView {
        match self {
            ActionView::Assign { attribute, value } => product.set(attribute, value),
            ActionView::Delete { attribute } => product.delete(attribute),
        }
    }
}

/// Whether every condition of `conditions` holds of `product`; an empty list
/// holds of every product.
pub open spec fn all_hold(conditions: Seq<ConditionView>, product: ProductView) -> bool {
    forall|i: int| 0 <= i < conditions.len() ==> (#[trigger] conditions[i]).holds(product)
}

/// The product after the actions of `actions`, the first one first: each
/// action works on what the ones before it left.
pub open spec fn apply_actions(actions: Seq<ActionView>, product: ProductView) -> ProductView
    decreases actions.len(),
{
    if actions.len() == 0 {
        product
    } else {
        actions.last().apply(apply_actions(actions.drop_last(), product))
    }
}

/// A rule: the typeclass it is scoped to, the conditions that must all hold,
/// and the actions it then applies in order.
#[verifier::ext_equal]
pub struct RuleView {
    pub typeclass: Seq<char>,
    pub conditions: Seq<ConditionView>,
    pub actions: Seq<ActionView>,
}

impl RuleView {
    /// A rule for `typeclass` that has neither conditions nor actions yet.
    pub open spec fn blank(typeclass: Seq<char>) -> RuleView {
        RuleView { typeclass, conditions: Seq::empty(), actions: Seq::empty() }
    }

    /// The rule with one more condition at the end of its list.
    pub open spec fn with_condition(self, condition: ConditionView) -> RuleView {
        RuleView { conditions: self.conditions.push(condition), ..self }
    }

    /// The rule with one more action at the end of its list.
    pub open spec fn with_action(self, action: ActionView) -> RuleView {
        RuleView { actions: self.actions.push(action), ..self }
    }

    /// Whether the rule fires on `product`: the typeclasses agree and all
    /// conditions hold.
    pub open spec fn fires_on(self, product: ProductView) -> bool {
        self.typeclass == product.typeclass && all_hold(self.conditions, product)
    }

    /// The product after the rule had its turn: rewritten by the actions when
    /// the rule fires, untouched otherwise.
    pub open spec fn step(self, product: ProductView) -> ProductView {
        if self.fires_on(product) {
            apply_actions(self.actions, product)
        } else {
            product
        }
    }
}

/// The product after one pass over `rules` in order; each rule sees what the
/// rules before it left.
pub open spec fn run_rules(rules: Seq<RuleView>, product: ProductView) -> ProductView
    decreases rules.len(),
{
    if rules.len() == 0 {
        product
    } else {
        rules.last().step(run_rules(rules.drop_last(), product))
    }
}

/// A registry: for each typeclass that has rules, its rules in the order of
/// their registration.
#[verifier::ext_equal]
pub struct RegistryView {
    pub rules: Map<Seq<char>, Seq<RuleView>>,
}

impl RegistryView {
    /// The registry without any rule.
    pub open spec fn empty() -> RegistryView {
        RegistryView { rules: Map::empty() }
    }

    /// The rules registered for `typeclass`, oldest first; empty when there
    /// are none.
    pub open spec fn rules_for(self, typeclass: Seq<char>) -> Seq<RuleView> {
        if self.rules.contains_key(typeclass) {
            self.rules[typeclass]
        } else {
            Seq::empty()
        }
    }

    /// The registry with `rule` added behind the rules of its typeclass.
    pub open spec fn register(self, rule: RuleView) -> RegistryView {
        RegistryView {
            rules: self.rules.insert(rule.typeclass, self.rules_for(rule.typeclass).push(rule)),
        }
    }

    /// The product after one pass over the rules of its typeclass.
    pub open spec fn apply_rules(self, product: ProductView) -> ProductView {
        run_rules(self.rules_for(product.typeclass), product)
    }
}

} // verus!
