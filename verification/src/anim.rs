use vstd::prelude::*;

verus! {

/// The states of the animation machines of actors.
#[derive(Copy, Clone, PartialEq, Eq, Structural, Debug)]
pub enum AnimState {
    Idle,
    Walk,
    Scream,
    Attack,
    Aim,
    Dying,
    Jump,
    Fall,
    Land,
    TossGrenade,
    PutBack,
    Grab,
    HitReaction,
}

/// A transition of an animation machine: its name, the states it links, how long the
/// blend lasts in milliseconds, and the rule parameter that fires it.
#[derive(Copy, Clone, Debug)]
pub struct TransitionDef {
    pub name: &'static str,
    pub from: AnimState,
    pub to: AnimState,
    pub duration_ms: u32,
    pub rule: &'static str,
}

/// A transition as plain values.
pub type TransitionView = (Seq<char>, AnimState, AnimState, u32, Seq<char>);

impl View for TransitionDef {
    type V = TransitionView;

    open spec fn view(&self) -> TransitionView {
        (self.name@, self.from, self.to, self.duration_ms, self.rule@)
    }
}

/// The value of a rule parameter of an animation machine.
#[derive(Copy, Clone, Debug)]
pub struct Rule {
    pub name: &'static str,
    pub value: bool,
}

impl View for Rule {
    type V = (Seq<char>, bool);

    open spec fn view(&self) -> (Seq<char>, bool) {
        (self.name@, self.value)
    }
}

/// The plain values of a list of transitions.
pub open spec fn transitions_view(v: Seq<TransitionDef>) -> Seq<TransitionView> {
    v.map_values(|t: TransitionDef| t@)
}

/// The plain values of a list of rules.
pub open spec fn rules_view(v: Seq<Rule>) -> Seq<(Seq<char>, bool)> {
    v.map_values(|r: Rule| r@)
}

/// Some rule of `rules` is named `name`.
pub open spec fn rule_is_set(rules: Seq<(Seq<char>, bool)>, name: Seq<char>) -> bool {
    exists|j: int| 0 <= j < rules.len() && #[trigger] rules[j].0 == name
}

/// Every transition of `ts` is driven by a rule that `rules` sets.
pub open spec fn rules_cover(ts: Seq<TransitionView>, rules: Seq<(Seq<char>, bool)>) -> bool {
    forall|i: int| 0 <= i < ts.len() ==> #[trigger] rule_is_set(rules, ts[i].4)
}

/// Appends a transition.
pub fn push_transition(
    v: &mut Vec<TransitionDef>,
    name: &'static str,
    from: AnimState,
    to: AnimState,
    duration_ms: u32,
    rule: &'static str,
)
    ensures
        transitions_view(final(v)@) == transitions_view(old(v)@).push(
            (name@, from, to, duration_ms, rule@),
        ),
{
    v.push(TransitionDef { name, from, to, duration_ms, rule });
    proof {
        assert(transitions_view(v@) =~= transitions_view(old(v)@).push(
            (name@, from, to, duration_ms, rule@),
        ));
    }
}

/// Appends a rule value.
pub fn push_rule(v: &mut Vec<Rule>, name: &'static str, value: bool)
    ensures
        rules_view(final(v)@) == rules_view(old(v)@).push((name@, value)),
{
    v.push(Rule { name, value });
    proof {
        assert(rules_view(v@) =~= rules_view(old(v)@).push((name@, value)));
    }
}

} // verus!
