//! The registry of rules and the pass that applies them to a product.

use vstd::hash_map::StringHashMap;
use vstd::prelude::*;

use crate::rules::laws::{lemma_actions_keep_identity, lemma_rules_keep_identity};
use crate::rules::model::{all_hold, apply_actions, run_rules, RegistryView, RuleView};
use crate::rules::product::Product;
use crate::rules::Rule;

verus! {

/// The rules of `rules` as the model sees them, in the same order.
pub open spec fn rules_view(rules: Seq<Rule>) -> Seq<RuleView> {
    rules.map_values(|rule: Rule| rule@)
}

/// Owns every registered rule. The rules of one typeclass are kept together,
/// in the order in which they were registered.
pub struct RuleRegistry {
    /// For each typeclass that has rules, where its rules are in `buckets`.
    index: StringHashMap<usize>,
    /// The rules, one list per typeclass, each in registration order.
    buckets: Vec<Vec<Rule>>,
}

impl View for RuleRegistry {
    type V = RegistryView;

    closed spec fn view(&self) -> RegistryView {
        RegistryView {
            rules: Map::new(
                |typeclass: Seq<char>| self.index@.contains_key(typeclass),
                |typeclass: Seq<char>| rules_view(self.buckets@[self.index@[typeclass] as int]@),
            ),
        }
    }
}

impl RuleRegistry {
    /// Every typeclass of the index points at a list of its own, and that
    /// list holds rules of this typeclass only.
    #[verifier::type_invariant]
    spec fn well_formed(&self) -> bool {
        &&& forall|typeclass: Seq<char>| #[trigger]
            self.index@.contains_key(typeclass) ==> self.index@[typeclass] < self.buckets@.len()
        &&& forall|first: Seq<char>, second: Seq<char>|
            #![trigger self.index@[first], self.index@[second]]
            self.index@.contains_key(first) && self.index@.contains_key(second)
                && self.index@[first] == self.index@[second] ==> first == second
        &&& forall|typeclass: Seq<char>, position: int|
            #![trigger self.buckets@[self.index@[typeclass] as int]@[position]]
            self.index@.contains_key(typeclass) && 0 <= position
                < self.buckets@[self.index@[typeclass] as int]@.len()
                ==> self.buckets@[self.index@[typeclass] as int]@[position].typeclass@
                == typeclass
    }

    /// A registry without any rule.
    pub fn new() -> (registry: RuleRegistry)
        ensures
            registry@ == RegistryView::empty(),
    {
        let registry = RuleRegistry { index: StringHashMap::new(), buckets: Vec::new() };
        assert(registry@.rules =~= Map::<Seq<char>, Seq<RuleView>>::empty());
        registry
    }

    /// Adds `rule` behind the rules already registered for its typeclass.
    /// Every rule is accepted; the rules of other typeclasses are untouched.
    pub fn register(&mut self, rule: Rule)
        ensures
            final(self)@ == old(self)@.register(rule@),
    {
        proof {
            use_type_invariant(&*self);
        }
        // Both fields are taken out while they change and put back together,
        // the index last: the registry is well formed whenever it is whole.
        let mut index: StringHashMap<usize> = StringHashMap::new();
        std::mem::swap(&mut index, &mut self.index);
        let mut buckets: Vec<Vec<Rule>> = Vec::new();
        std::mem::swap(&mut buckets, &mut self.buckets);
        let ghost before = buckets@;
        match index.get(rule.typeclass.as_str()) {
            Some(slot) => {
                let at: usize = *slot;
                buckets[at].push(rule);
                assert(rules_view(buckets@[at as int]@) =~= rules_view(before[at as int]@).push(
                    rule@,
                ));
            },
            None => {
                let at: usize = buckets.len();
                let typeclass = rule.typeclass.clone();
                let mut bucket: Vec<Rule> = Vec::new();
                bucket.push(rule);
                buckets.push(bucket);
                index.insert(typeclass, at);
                assert(rules_view(buckets@[at as int]@) =~= Seq::<RuleView>::empty().push(rule@));
            },
        }
        self.buckets = buckets;
        self.index = index;
        assert(self@.rules =~= old(self)@.register(rule@).rules);
    }

    /// Runs one pass over the rules registered for the product's typeclass,
    /// in registration order. A rule whose conditions all hold of the product
    /// as the rules before it left it has its actions applied in order; any
    /// other rule is skipped. No rule is looked at twice, and rules of other
    /// typeclasses are not looked at. A product whose typeclass has no rules
    /// comes back as it went in.
    pub fn apply_rules(&self, product: Product) -> (transformed: Product)
        ensures
            transformed@ == self@.apply_rules(product@),
            transformed@.typeclass == product@.typeclass,
            transformed@.part == product@.part,
            !self@.rules.contains_key(product@.typeclass) ==> transformed == product,
    {
        proof {
            use_type_invariant(self);
            lemma_rules_keep_identity(self@.rules_for(product@.typeclass), product@);
        }
        let mut result = product;
        match self.index.get(result.typeclass()) {
            Some(slot) => {
                let rules = &self.buckets[*slot];
                let mut next: usize = 0;
                while next < rules.len()
                    invariant
                        next <= rules.len(),
                        forall|position: int|
                            0 <= position < rules@.len() ==> (#[trigger] rules@[position]).typeclass@
                                == product@.typeclass,
                        result@.typeclass == product@.typeclass,
                        result@ == run_rules(rules_view(rules@).take(next as int), product@),
                    decreases rules.len() - next,
                {
                    let rule = &rules[next];
                    let ghost seen = result@;
                    if Self::is_rule_applicable(rule, &result) {
                        result = Self::apply_rule(rule, result);
                        proof {
                            lemma_actions_keep_identity(rule@.actions, seen);
                        }
                    }
                    assert(rules_view(rules@).take(next + 1).drop_last() =~= rules_view(
                        rules@,
                    ).take(next as int));
                    next += 1;
                }
                assert(rules_view(rules@).take(next as int) =~= rules_view(rules@));
            },
            None => {},
        }
        result
    }

    /// Whether all conditions of `rule` hold of `product`; the first one that
    /// fails settles it. A rule without conditions is always applicable.
    fn is_rule_applicable(rule: &Rule, product: &Product) -> (applicable: bool)
        ensures
            applicable == all_hold(rule@.conditions, product@),
    {
        let mut next: usize = 0;
        while next < rule.conditions.len()
            invariant
                next <= rule.conditions.len(),
                forall|position: int|
                    0 <= position < next ==> (#[trigger] rule@.conditions[position]).holds(
                        product@,
                    ),
            decreases rule.conditions.len() - next,
        {
            if !rule.conditions[next].matches(product) {
                assert(!rule@.conditions[next as int].holds(product@));
                return false;
            }
            next += 1;
        }
        true
    }

    /// Applies the actions of `rule` to `product`, in the order in which the
    /// rule lists them.
    fn apply_rule(rule: &Rule, product: Product) -> (changed: Product)
        ensures
            changed@ == apply_actions(rule@.actions, product@),
    {
        let mut result = product;
        let mut next: usize = 0;
        while next < rule.actions.len()
            invariant
                next <= rule.actions.len(),
                result@ == apply_actions(rule@.actions.take(next as int), product@),
            decreases rule.actions.len() - next,
        {
            rule.actions[next].apply(&mut result);
            assert(rule@.actions.take(next + 1).drop_last() =~= rule@.actions.take(next as int));
            next += 1;
        }
        assert(rule@.actions.take(next as int) =~= rule@.actions);
        result
    }
}

impl Default for RuleRegistry {
    /// A registry without any rule.
    fn default() -> (registry: RuleRegistry)
        ensures
            registry@ == RegistryView::empty(),
    {
        RuleRegistry::new()
    }
}

} // verus!
