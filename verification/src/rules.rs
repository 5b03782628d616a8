//! Rules, the staged builders that assemble them, and the modules around them.

use vstd::prelude::*;

use crate::rules::actions::ActionExpr;
use crate::rules::conditions::ConditionExpr;
use crate::rules::engine::RuleRegistry;
use crate::rules::model::{ActionView, ConditionView, RuleView};

pub mod actions;
pub mod conditions;
pub mod dsl;
pub mod engine;
pub mod laws;
pub mod model;
pub mod product;

verus! {

/// The conditions of `conditions` as the model sees them, in the same order.
pub open spec fn conditions_view(conditions: Seq<ConditionExpr>) -> Seq<ConditionView> {
    conditions.map_values(|condition: ConditionExpr| condition@)
}

/// The actions of `actions` as the model sees them, in the same order.
pub open spec fn actions_view(actions: Seq<ActionExpr>) -> Seq<ActionView> {
    actions.map_values(|action: ActionExpr| action@)
}

/// A rule: for products of one typeclass, conditions that must all hold and
/// the actions that are then applied in order.
pub struct Rule {
    pub typeclass: String,
    pub conditions: Vec<ConditionExpr>,
    pub actions: Vec<ActionExpr>,
}

impl View for Rule {
    type V = RuleView;

    open spec fn view(&self) -> RuleView {
        RuleView {
            typeclass: self.typeclass@,
            conditions: conditions_view(self.conditions@),
            actions: actions_view(self.actions@),
        }
    }
}

/// First stage of building a rule: the typeclass is fixed, and either a first
/// condition or a first action may follow.
pub struct TypeclassRuleBuilder {
    typeclass: String,
}

impl View for TypeclassRuleBuilder {
    type V = RuleView;

    closed spec fn view(&self) -> RuleView {
        RuleView::blank(self.typeclass@)
    }
}

impl TypeclassRuleBuilder {
    /// Starts a rule for the typeclass `name`.
    pub fn new(name: &str) -> (builder: TypeclassRuleBuilder)
        ensures
            builder@ == RuleView::blank(name@),
    {
        TypeclassRuleBuilder { typeclass: name.to_string() }
    }

    /// Gives the rule its first condition.
    pub fn when(self, condition: ConditionExpr) -> (next: ConditionalRuleBuilder)
        ensures
            next@ == self@.with_condition(condition@),
    {
        let mut conditions: Vec<ConditionExpr> = Vec::new();
        conditions.push(condition);
        let next = ConditionalRuleBuilder { typeclass: self.typeclass, conditions };
        assert(next@.conditions =~= self@.with_condition(condition@).conditions);
        next
    }

    /// Gives the rule its first action and no condition: the rule will fire
    /// on every product of its typeclass.
    pub fn then(self, action: ActionExpr) -> (next: ActionRuleBuilder)
        ensures
            next@ == self@.with_action(action@),
    {
        let mut actions: Vec<ActionExpr> = Vec::new();
        actions.push(action);
        let next = ActionRuleBuilder { typeclass: self.typeclass, conditions: Vec::new(), actions };
        assert(next@.conditions =~= self@.with_action(action@).conditions);
        assert(next@.actions =~= self@.with_action(action@).actions);
        next
    }
}

/// Second stage: the rule has at least one condition and no action yet.
pub struct ConditionalRuleBuilder {
    typeclass: String,
    conditions: Vec<ConditionExpr>,
}

impl View for ConditionalRuleBuilder {
    type V = RuleView;

    closed spec fn view(&self) -> RuleView {
        RuleView {
            typeclass: self.typeclass@,
            conditions: conditions_view(self.conditions@),
            actions: Seq::empty(),
        }
    }
}

impl ConditionalRuleBuilder {
    /// Adds one more condition; the rule fires only when all of them hold.
    pub fn and(self, condition: ConditionExpr) -> (next: ConditionalRuleBuilder)
        ensures
            next@ == self@.with_condition(condition@),
    {
        let ConditionalRuleBuilder { typeclass, mut conditions } = self;
        conditions.push(condition);
        let next = ConditionalRuleBuilder { typeclass, conditions };
        assert(next@.conditions =~= self@.with_condition(condition@).conditions);
        next
    }

    /// Gives the rule its first action; no condition can follow.
    pub fn then(self, action: ActionExpr) -> (next: ActionRuleBuilder)
        ensures
            next@ == self@.with_action(action@),
    {
        let mut actions: Vec<ActionExpr> = Vec::new();
        actions.push(action);
        let next = ActionRuleBuilder {
            typeclass: self.typeclass,
            conditions: self.conditions,
            actions,
        };
        assert(next@.actions =~= self@.with_action(action@).actions);
        next
    }
}

/// Last stage: the rule has at least one action and can be registered.
pub struct ActionRuleBuilder {
    typeclass: String,
    conditions: Vec<ConditionExpr>,
    actions: Vec<ActionExpr>,
}

impl View for ActionRuleBuilder {
    type V = RuleView;

    closed spec fn view(&self) -> RuleView {
        RuleView {
            typeclass: self.typeclass@,
            conditions: conditions_view(self.conditions@),
            actions: actions_view(self.actions@),
        }
    }
}

impl ActionRuleBuilder {
    /// A rule that reaches this stage has something to do.
    #[verifier::type_invariant]
    spec fn has_action(&self) -> bool {
        self.actions@.len() > 0
    }

    /// Adds one more action behind those the rule already has.
    pub fn and_then(self, action: ActionExpr) -> (next: ActionRuleBuilder)
        ensures
            next@ == self@.with_action(action@),
    {
        let ActionRuleBuilder { typeclass, conditions, mut actions } = self;
        actions.push(action);
        let next = ActionRuleBuilder { typeclass, conditions, actions };
        assert(next@.actions =~= self@.with_action(action@).actions);
        next
    }

    /// Finishes the rule and registers it behind the rules that `registry`
    /// already has for its typeclass. The rule has at least one action.
    pub fn create(self, registry: &mut RuleRegistry)
        ensures
            self@.actions.len() > 0,
            final(registry)@ == old(registry)@.register(self@),
    {
        registry.register(self.compile())
    }

    /// The finished rule: what the stages have collected, in order.
    fn compile(self) -> (rule: Rule)
        ensures
            rule@ == self@,
            rule@.actions.len() > 0,
    {
        proof {
            use_type_invariant(&self);
        }
        Rule { typeclass: self.typeclass, conditions: self.conditions, actions: self.actions }
    }
}

} // verus!
