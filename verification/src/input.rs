//! Which camera steps the held keys call for, in the order they are applied.
use vstd::prelude::*;

use crate::names::lemma_filter_keeps_distinct;

verus! {

/// The keys that steer the camera, each held or not.
pub struct HeldKeys {
    pub w: bool,
    pub s: bool,
    pub a: bool,
    pub d: bool,
    pub arrow_right: bool,
    pub arrow_left: bool,
    pub arrow_up: bool,
    pub arrow_down: bool,
}

/// One change of the camera for the current frame.
#[derive(PartialEq, Eq, Structural, Clone, Copy, Debug)]
pub enum InputStep {
    /// Move along the look direction (W).
    Forward,
    /// Move against the look direction (S).
    Backward,
    /// Move sideways, the way A goes.
    StrafeA,
    /// Move sideways, the way D goes.
    StrafeD,
    /// Turn right (right arrow): the yaw decreases.
    YawRight,
    /// Turn left (left arrow): the yaw increases.
    YawLeft,
    /// Look up (up arrow): the pitch increases.
    PitchUp,
    /// Look down (down arrow): the pitch decreases.
    PitchDown,
}

/// Every step, in the order of their keys: W, S, A, D, right, left, up, down.
pub open spec fn all_steps() -> Seq<InputStep> {
    seq![
        InputStep::Forward,
        InputStep::Backward,
        InputStep::StrafeA,
        InputStep::StrafeD,
        InputStep::YawRight,
        InputStep::YawLeft,
        InputStep::PitchUp,
        InputStep::PitchDown,
    ]
}

/// Whether the key of `step` is held.
pub open spec fn key_held(keys: HeldKeys, step: InputStep) -> bool {
    match step {
        InputStep::Forward => keys.w,
        InputStep::Backward => keys.s,
        InputStep::StrafeA => keys.a,
        InputStep::StrafeD => keys.d,
        InputStep::YawRight => keys.arrow_right,
        InputStep::YawLeft => keys.arrow_left,
        InputStep::PitchUp => keys.arrow_up,
        InputStep::PitchDown => keys.arrow_down,
    }
}

/// The steps whose keys are held, in the order of `all_steps`.
pub open spec fn spec_process_inputs(keys: HeldKeys) -> Seq<InputStep> {
    all_steps().filter(|step: InputStep| key_held(keys, step))
}

/// The camera steps that the held keys call for this frame.
pub fn process_inputs(keys: &HeldKeys) -> (r: Vec<InputStep>)
    ensures
        r@ == spec_process_inputs(*keys),
        r@.contains(InputStep::Forward) <==> keys.w,
        r@.contains(InputStep::Backward) <==> keys.s,
        r@.contains(InputStep::StrafeA) <==> keys.a,
        r@.contains(InputStep::StrafeD) <==> keys.d,
        r@.contains(InputStep::YawRight) <==> keys.arrow_right,
        r@.contains(InputStep::YawLeft) <==> keys.arrow_left,
        r@.contains(InputStep::PitchUp) <==> keys.arrow_up,
        r@.contains(InputStep::PitchDown) <==> keys.arrow_down,
        r@.no_duplicates(),
{
    let ghost pred = |step: InputStep| key_held(*keys, step);
    let mut steps: Vec<InputStep> = Vec::new();
    let order: [InputStep; 8] = [
        InputStep::Forward,
        InputStep::Backward,
        InputStep::StrafeA,
        InputStep::StrafeD,
        InputStep::YawRight,
        InputStep::YawLeft,
        InputStep::PitchUp,
        InputStep::PitchDown,
    ];
    let mut i: usize = 0;
    while i < 8
        invariant
            i <= 8,
            order@ == all_steps(),
            pred == (|step: InputStep| key_held(*keys, step)),
            steps@ == all_steps().take(i as int).filter(pred),
        decreases 8 - i,
    {
        proof {
            reveal(Seq::filter);
            assert(all_steps().take(i + 1).drop_last() =~= all_steps().take(i as int));
        }
        let step = order[i];
        let held = match step {
            InputStep::Forward => keys.w,
            InputStep::Backward => keys.s,
            InputStep::StrafeA => keys.a,
            InputStep::StrafeD => keys.d,
            InputStep::YawRight => keys.arrow_right,
            InputStep::YawLeft => keys.arrow_left,
            InputStep::PitchUp => keys.arrow_up,
            InputStep::PitchDown => keys.arrow_down,
        };
        if held {
            steps.push(step);
        }
        i = i + 1;
    }
    assert(all_steps().take(8) =~= all_steps());
    proof {
        lemma_each_step_exactly_when_its_key_is_held(*keys);
    }
    steps
}

/// Each step comes up exactly when its key is held, and at most once.
pub proof fn lemma_steps_follow_held_keys(keys: HeldKeys)
    ensures
        forall|step: InputStep| #[trigger]
            spec_process_inputs(keys).contains(step) <==> key_held(keys, step),
        spec_process_inputs(keys).no_duplicates(),
{
    broadcast use vstd::seq_lib::group_filter_ensures;

    let pred = |step: InputStep| key_held(keys, step);
    let all = all_steps();
    assert forall|step: InputStep| #[trigger]
        spec_process_inputs(keys).contains(step) <==> key_held(keys, step) by {
        let k: int = match step {
            InputStep::Forward => 0,
            InputStep::Backward => 1,
            InputStep::StrafeA => 2,
            InputStep::StrafeD => 3,
            InputStep::YawRight => 4,
            InputStep::YawLeft => 5,
            InputStep::PitchUp => 6,
            InputStep::PitchDown => 7,
        };
        assert(all[k] == step);
        if key_held(keys, step) {
            all.lemma_filter_contains(pred, k);
        }
        if spec_process_inputs(keys).contains(step) {
            let t = choose|t: int|
                0 <= t < all.filter(pred).len() && all.filter(pred)[t] == step;
            assert(pred(all.filter(pred)[t]));
        }
    }
    assert(all.no_duplicates());
    lemma_filter_keeps_distinct(all, pred);
}

/// Each step is called for exactly when its own key is held: Forward with W,
/// Backward with S, StrafeA with A, StrafeD with D, YawRight with the right
/// arrow, YawLeft with the left arrow, PitchUp with the up arrow and PitchDown
/// with the down arrow, whatever the other keys; and no step comes twice.
pub proof fn lemma_each_step_exactly_when_its_key_is_held(keys: HeldKeys)
    ensures
        spec_process_inputs(keys).contains(InputStep::Forward) <==> keys.w,
        spec_process_inputs(keys).contains(InputStep::Backward) <==> keys.s,
        spec_process_inputs(keys).contains(InputStep::StrafeA) <==> keys.a,
        spec_process_inputs(keys).contains(InputStep::StrafeD) <==> keys.d,
        spec_process_inputs(keys).contains(InputStep::YawRight) <==> keys.arrow_right,
        spec_process_inputs(keys).contains(InputStep::YawLeft) <==> keys.arrow_left,
        spec_process_inputs(keys).contains(InputStep::PitchUp) <==> keys.arrow_up,
        spec_process_inputs(keys).contains(InputStep::PitchDown) <==> keys.arrow_down,
        spec_process_inputs(keys).no_duplicates(),
{
    lemma_steps_follow_held_keys(keys);
    assert(key_held(keys, InputStep::Forward) == keys.w);
    assert(key_held(keys, InputStep::Backward) == keys.s);
    assert(key_held(keys, InputStep::StrafeA) == keys.a);
    assert(key_held(keys, InputStep::StrafeD) == keys.d);
    assert(key_held(keys, InputStep::YawRight) == keys.arrow_right);
    assert(key_held(keys, InputStep::YawLeft) == keys.arrow_left);
    assert(key_held(keys, InputStep::PitchUp) == keys.arrow_up);
    assert(key_held(keys, InputStep::PitchDown) == keys.arrow_down);
}

} // verus!
