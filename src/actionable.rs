use vstd::prelude::*;

verus! {

/// The transitions that show a fighter is free to act again.
#[derive(Clone, Copy, Debug, PartialEq, Eq, Structural)]
pub enum ActionableTransition {
    ContEscapeAir,
    ContAttackAir,
    ContGuardOn,
    ContEscape,
}

/// The fixed list of actionable transitions, in the order in which
/// `can_act` reads its flags.
pub open spec fn spec_actionable_transitions() -> Seq<ActionableTransition> {
    seq![
        ActionableTransition::ContEscapeAir,
        ActionableTransition::ContAttackAir,
        ActionableTransition::ContGuardOn,
        ActionableTransition::ContEscape,
    ]
}

pub fn actionable_transitions() -> (r: [ActionableTransition; 4])
    ensures
        r@ == spec_actionable_transitions(),
{
    let r = [
        ActionableTransition::ContEscapeAir,
        ActionableTransition::ContAttackAir,
        ActionableTransition::ContGuardOn,
        ActionableTransition::ContEscape,
    ];
    assert(r@ =~= spec_actionable_transitions());
    r
}

/// Whether a fighter can act: cancelling is enabled, or at least one of the
/// actionable transitions is. `transition_enabled[i]` is the host's answer for
/// `actionable_transitions()[i]`.
pub fn can_act(cancel_enabled: bool, transition_enabled: [bool; 4]) -> (r: bool)
    ensures
        r == (cancel_enabled || exists|i: int| 0 <= i < 4 && transition_enabled[i]),
        !r <==> (!cancel_enabled && forall|i: int| 0 <= i < 4 ==> !transition_enabled[i]),
{
    if cancel_enabled {
        return true;
    }
    let mut i: usize = 0;
    while i < 4
        invariant
            0 <= i <= 4,
            forall|j: int| 0 <= j < i ==> !transition_enabled[j],
        decreases 4 - i,
    {
        if transition_enabled[i] {
            return true;
        }
        i = i + 1;
    }
    false
}

} // verus!
