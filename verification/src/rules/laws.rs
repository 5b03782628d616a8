//! What holds of every registry, rule and product, proved over the model.

use vstd::prelude::*;

use crate::rules::model::{
    all_hold, apply_actions, run_rules, ActionView, ConditionView, ProductView, RegistryView,
    RuleView,
};

verus! {

/// Actions rewrite attributes only: typeclass and part stay as they are.
pub proof fn lemma_actions_keep_identity(actions: Seq<ActionView>, product: ProductView)
    ensures
        apply_actions(actions, product).typeclass == product.typeclass,
        apply_actions(actions, product).part == product.part,
    decreases actions.len(),
{
    if actions.len() > 0 {
        lemma_actions_keep_identity(actions.drop_last(), product);
    }
}

/// A pass over rules rewrites attributes only: typeclass and part stay as
/// they are.
pub proof fn lemma_rules_keep_identity(rules: Seq<RuleView>, product: ProductView)
    ensures
        run_rules(rules, product).typeclass == product.typeclass,
        run_rules(rules, product).part == product.part,
    decreases rules.len(),
{
    if rules.len() > 0 {
        let before = run_rules(rules.drop_last(), product);
        lemma_rules_keep_identity(rules.drop_last(), product);
        lemma_actions_keep_identity(rules.last().actions, before);
    }
}

/// A product whose typeclass has no rules in the registry comes back from
/// `apply_rules` as it went in.
pub proof fn lemma_unknown_typeclass_is_identity(registry: RegistryView, product: ProductView)
    requires
        !registry.rules.contains_key(product.typeclass),
    ensures
        registry.apply_rules(product) == product,
{
}

/// A rule without conditions fires on every product of its typeclass: its
/// actions are always applied. Once registered, it rewrites whatever the
/// rules before it have made of such a product.
pub proof fn lemma_rule_without_conditions_fires(
    registry: RegistryView,
    rule: RuleView,
    product: ProductView,
)
    requires
        rule.conditions.len() == 0,
        rule.typeclass == product.typeclass,
    ensures
        rule.fires_on(product),
        rule.step(product) == apply_actions(rule.actions, product),
        registry.register(rule).apply_rules(product) == apply_actions(
            rule.actions,
            registry.apply_rules(product),
        ),
{
    lemma_registered_rule_runs_last(registry, rule, product);
    lemma_rules_keep_identity(registry.rules_for(product.typeclass), product);
}

/// `Has` holds exactly of the products that have the attribute set to the
/// expected value. A product without the attribute does not match, and a
/// product with another value under it does not match either.
pub proof fn lemma_has_matches_exactly(
    attribute: Seq<char>,
    value: Seq<char>,
    product: ProductView,
)
    ensures
        (ConditionView::Has { attribute, value }).holds(product) <==> product.get(attribute)
            == Some(value),
        !product.attributes.contains_key(attribute) ==> !(ConditionView::Has {
            attribute,
            value,
        }).holds(product),
        product.attributes.contains_key(attribute) && product.attributes[attribute] != value
            ==> !(ConditionView::Has { attribute, value }).holds(product),
{
}

/// `Is` holds exactly of the products of the expected part.
pub proof fn lemma_is_matches_exactly(part: Seq<char>, product: ProductView)
    ensures
        (ConditionView::Is { part }).holds(product) <==> product.part == part,
{
}

/// A pass over `first` followed by `second` is a pass over `first` and then
/// a pass over `second` on what the first pass left.
pub proof fn lemma_rules_run_in_sequence(
    first: Seq<RuleView>,
    second: Seq<RuleView>,
    product: ProductView,
)
    ensures
        run_rules(first + second, product) == run_rules(second, run_rules(first, product)),
    decreases second.len(),
{
    if second.len() == 0 {
        assert(first + second =~= first);
    } else {
        lemma_rules_run_in_sequence(first, second.drop_last(), product);
        assert((first + second).drop_last() =~= first + second.drop_last());
    }
}

/// Rules fire in registration order, and a later rule sees what the earlier
/// ones did: registering a rule puts its turn behind the turns of all rules
/// the registry already had for that typeclass. For a product of any other
/// typeclass the new rule changes nothing.
pub proof fn lemma_registered_rule_runs_last(
    registry: RegistryView,
    rule: RuleView,
    product: ProductView,
)
    ensures
        registry.register(rule).apply_rules(product) == if rule.typeclass == product.typeclass {
            rule.step(registry.apply_rules(product))
        } else {
            registry.apply_rules(product)
        },
{
    if rule.typeclass == product.typeclass {
        let earlier = registry.rules_for(rule.typeclass);
        assert(earlier.push(rule).drop_last() =~= earlier);
    }
}

/// A rule never fires on a product of another typeclass, whatever its
/// conditions say: the product passes it unchanged, and registering the rule
/// does not change what `apply_rules` makes of the product.
pub proof fn lemma_other_typeclass_never_fires(
    registry: RegistryView,
    rule: RuleView,
    product: ProductView,
)
    requires
        rule.typeclass != product.typeclass,
    ensures
        !rule.fires_on(product),
        rule.step(product) == product,
        registry.register(rule).apply_rules(product) == registry.apply_rules(product),
{
}

/// The actions of a rule are applied in the order in which the rule lists
/// them: the last one works on what all the others left.
pub proof fn lemma_actions_apply_in_order(
    actions: Seq<ActionView>,
    last: ActionView,
    product: ProductView,
)
    ensures
        apply_actions(actions.push(last), product) == last.apply(apply_actions(actions, product)),
{
    assert(actions.push(last).drop_last() =~= actions);
}

/// A list of actions followed by another is the first list and then the
/// second on what the first left.
pub proof fn lemma_actions_run_in_sequence(
    first: Seq<ActionView>,
    second: Seq<ActionView>,
    product: ProductView,
)
    ensures
        apply_actions(first + second, product) == apply_actions(
            second,
            apply_actions(first, product),
        ),
    decreases second.len(),
{
    if second.len() == 0 {
        assert(first + second =~= first);
    } else {
        lemma_actions_run_in_sequence(first, second.drop_last(), product);
        assert((first + second).drop_last() =~= first + second.drop_last());
    }
}

/// Of two assignments to one attribute in one rule, the later one wins.
pub proof fn lemma_later_assignment_wins(
    attribute: Seq<char>,
    earlier: Seq<char>,
    later: Seq<char>,
    product: ProductView,
)
    ensures
        apply_actions(
            seq![
                ActionView::Assign { attribute, value: earlier },
                ActionView::Assign { attribute, value: later },
            ],
            product,
        ).get(attribute) == Some(later),
{
    let first = ActionView::Assign { attribute, value: earlier };
    let second = ActionView::Assign { attribute, value: later };
    let none = Seq::<ActionView>::empty();
    assert(seq![first, second] =~= none.push(first).push(second));
    lemma_actions_apply_in_order(none, first, product);
    lemma_actions_apply_in_order(none.push(first), second, product);
}

/// After a list of actions that ends in an assignment, the assigned attribute
/// holds the assigned value, whatever the actions before it did.
pub proof fn lemma_last_assignment_is_read_back(
    actions: Seq<ActionView>,
    attribute: Seq<char>,
    value: Seq<char>,
    product: ProductView,
)
    ensures
        apply_actions(actions.push(ActionView::Assign { attribute, value }), product).get(
            attribute,
        ) == Some(value),
{
    lemma_actions_apply_in_order(actions, ActionView::Assign { attribute, value }, product);
}

/// One pass is not a fixpoint in general: there are a registry and a product
/// for which a second pass changes what the first pass left. Here the first
/// rule waits for a value that only the second rule writes.
pub proof fn lemma_second_pass_can_change_more()
    ensures
        exists|registry: RegistryView, product: ProductView|
            registry.apply_rules(#[trigger] registry.apply_rules(product)) != registry.apply_rules(
                product,
            ),
{
    let name = Seq::<char>::empty();
    let off = Seq::<char>::empty();
    let on = seq!['1'];
    let mark = seq!['m'];
    assert(on.len() == 1 && mark.len() == 1);
    assert(on != off && mark != name);
    let waits = RuleView {
        typeclass: name,
        conditions: seq![ConditionView::Has { attribute: name, value: on }],
        actions: seq![ActionView::Assign { attribute: mark, value: on }],
    };
    let writes = RuleView {
        typeclass: name,
        conditions: seq![ConditionView::Has { attribute: name, value: off }],
        actions: seq![ActionView::Assign { attribute: name, value: on }],
    };
    let none = Seq::<ActionView>::empty();
    assert(waits.actions =~= none.push(waits.actions[0]));
    assert(writes.actions =~= none.push(writes.actions[0]));
    let nothing = RegistryView::empty();
    let registry = nothing.register(waits).register(writes);
    let product = ProductView::empty(name, name).set(name, off);

    lemma_registered_rule_runs_last(nothing, waits, product);
    lemma_registered_rule_runs_last(nothing.register(waits), writes, product);
    assert(!waits.fires_on(product)) by {
        assert(!waits.conditions[0].holds(product));
    }
    assert(writes.fires_on(product));
    lemma_actions_apply_in_order(none, writes.actions[0], product);
    let once = registry.apply_rules(product);
    assert(once == product.set(name, on));

    lemma_registered_rule_runs_last(nothing, waits, once);
    lemma_registered_rule_runs_last(nothing.register(waits), writes, once);
    assert(waits.fires_on(once));
    lemma_actions_apply_in_order(none, waits.actions[0], once);
    let marked = once.set(mark, on);
    assert(!writes.fires_on(marked)) by {
        assert(!writes.conditions[0].holds(marked));
    }
    let twice = registry.apply_rules(once);
    assert(twice == marked);
    assert(twice.attributes.contains_key(mark) && !once.attributes.contains_key(mark));
}

} // verus!
