use vstd::prelude::*;

use crate::scale::{interval_sum, is_accumulation, Scale};
use crate::sequencer::{SeqMsg, StepRate};

verus! {

/// Angle units in one full turn. Angles are signed integers in these units, so
/// that a reading in radians `a` stands as `a / (2 * pi) * TURN`.
pub const TURN: i64 = 16777216;

/// Angle units in half a turn.
pub const HALF_TURN: i64 = 8388608;

/// Knob values in one full turn of the hand.
pub const VALUES_PER_TURN: i64 = 256;

/// The largest knob value.
pub const MAX_VALUE: i32 = 255;

/// The number of preset scales a knob can select.
pub const PRESET_COUNT: usize = 5;

/// An angular difference brought into one turn around zero, in `(-HALF_TURN,
/// HALF_TURN]` for differences within one turn: a full turn is added or taken
/// away once where it lies outside.
pub open spec fn wrap_angle(d: int) -> int {
    if d <= -HALF_TURN {
        d + TURN
    } else if d > HALF_TURN {
        d - TURN
    } else {
        d
    }
}

/// Division of `a` by a positive `b`, rounded toward zero.
pub open spec fn div_toward_zero(a: int, b: int) -> int {
    if a >= 0 {
        a / b
    } else {
        -((-a) / b)
    }
}

pub open spec fn clamp(x: int, lo: int, hi: int) -> int {
    if x < lo {
        lo
    } else if x > hi {
        hi
    } else {
        x
    }
}

/// The knob change for a turn from `origin` to `angle`: 256 values a turn,
/// rounded toward zero.
pub open spec fn raw_delta(origin: int, angle: int) -> int {
    div_toward_zero(wrap_angle(angle - origin) * VALUES_PER_TURN, TURN as int)
}

/// The value of a knob at `value`, grabbed at `origin` (if at all), turned to
/// `angle`: the change, clamped so that the value stays within `[0, 255]`.
pub open spec fn rotated_value(value: int, origin: Option<i32>, angle: int) -> int {
    match origin {
        Some(o) => value + clamp(raw_delta(o as int, angle), -value, MAX_VALUE - value),
        None => value,
    }
}

/// The step intervals of the preset scales: diminished, hirajoshi, iwato,
/// persian and egyptian.
pub open spec fn preset_steps(i: int) -> Seq<u8> {
    if i == 0 {
        seq![2u8, 1, 2, 1, 2, 1, 2, 1]
    } else if i == 1 {
        seq![2u8, 1, 4, 1, 4]
    } else if i == 2 {
        seq![1u8, 4, 1, 4, 2]
    } else if i == 3 {
        seq![1u8, 3, 1, 1, 2, 3, 1]
    } else {
        seq![2u8, 3, 2, 3, 2]
    }
}

/// The preset scale at `index`.
pub fn preset_scale(index: usize) -> (r: Scale)
    requires
        index < PRESET_COUNT,
    ensures
        r.wf(),
        is_accumulation(r@, preset_steps(index as int)),
{
    proof {
        reveal_with_fuel(interval_sum, 9);
    }
    if index == 0 {
        let a: [u8; 8] = [2, 1, 2, 1, 2, 1, 2, 1];
        assert(a@ =~= preset_steps(0));
        Scale::new(&a)
    } else if index == 1 {
        let a: [u8; 5] = [2, 1, 4, 1, 4];
        assert(a@ =~= preset_steps(1));
        Scale::new(&a)
    } else if index == 2 {
        let a: [u8; 5] = [1, 4, 1, 4, 2];
        assert(a@ =~= preset_steps(2));
        Scale::new(&a)
    } else if index == 3 {
        let a: [u8; 7] = [1, 3, 1, 1, 2, 3, 1];
        assert(a@ =~= preset_steps(3));
        Scale::new(&a)
    } else {
        let a: [u8; 5] = [2, 3, 2, 3, 2];
        assert(a@ =~= preset_steps(4));
        Scale::new(&a)
    }
}

/// The sequencer parameter a knob sets.
#[derive(Clone, Copy, Debug, PartialEq, Eq, Structural)]
pub enum KnobBinding {
    /// The scale degree of one step, at half the knob value.
    StepDegree(usize),
    /// The step rate, `((value + 16) / 48)^2` steps a second.
    StepRate,
    /// The filter cutoff, at half the knob value.
    FilterCutoff,
    /// The base note, at an eighth of the knob value.
    BaseNote,
    /// One of the preset scales, by `value * 5 / 256`.
    ScaleSelect,
}

/// Whether `msg` is the sequencer message that `binding` sends for the knob value `v`.
pub open spec fn is_binding_message(binding: KnobBinding, v: u8, msg: SeqMsg) -> bool {
    match binding {
        KnobBinding::StepDegree(step) => msg == SeqMsg::SetNoteInScale { step, value: v / 2 },
        KnobBinding::StepRate => msg == SeqMsg::SetFreq(
            StepRate { steps: ((v + 16) * (v + 16)) as u32, seconds: 2304 },
        ),
        KnobBinding::FilterCutoff => msg == SeqMsg::SetCutoff(v / 2),
        KnobBinding::BaseNote => msg == SeqMsg::SetBaseNote(v / 8),
        KnobBinding::ScaleSelect => msg matches SeqMsg::SetScale(scale) && scale.wf()
            && is_accumulation(scale@, preset_steps(v * 5 / 256)),
    }
}

impl KnobBinding {
    /// The sequencer message for the knob value `value`.
    pub fn message(&self, value: u8) -> (r: SeqMsg)
        ensures
            is_binding_message(*self, value, r),
    {
        match *self {
            KnobBinding::StepDegree(step) => SeqMsg::SetNoteInScale { step, value: value / 2 },
            KnobBinding::StepRate => {
                let v: u32 = value as u32 + 16;
                assert(v * v <= 271 * 271) by (nonlinear_arith)
                    requires
                        v <= 271,
                ;
                SeqMsg::SetFreq(StepRate { steps: v * v, seconds: 2304 })
            },
            KnobBinding::FilterCutoff => SeqMsg::SetCutoff(value / 2),
            KnobBinding::BaseNote => SeqMsg::SetBaseNote(value / 8),
            KnobBinding::ScaleSelect => {
                let index: usize = (value as usize) * PRESET_COUNT / 256;
                SeqMsg::SetScale(preset_scale(index))
            },
        }
    }
}

/// A knob as mathematical values.
pub ghost struct KnobState {
    pub value: int,
    pub binding: KnobBinding,
    pub start_angle: Option<i32>,
}

/// A value in `[0, 255]`, changed by turning the hand between a grab and a release.
#[derive(Clone, Copy)]
pub struct Knob {
    value: i32,
    binding: KnobBinding,
    start_angle: Option<i32>,
}

impl View for Knob {
    type V = KnobState;

    closed spec fn view(&self) -> KnobState {
        KnobState { value: self.value as int, binding: self.binding, start_angle: self.start_angle }
    }
}

impl Knob {
    pub open spec fn wf(&self) -> bool {
        0 <= self@.value <= MAX_VALUE
    }

    /// A knob at `value`, not grabbed.
    pub fn new(value: i32, binding: KnobBinding) -> (r: Knob)
        requires
            0 <= value <= MAX_VALUE,
        ensures
            r.wf(),
            r@ == (KnobState { value: value as int, binding, start_angle: None }),
    {
        Knob { value, binding, start_angle: None }
    }

    pub fn value(&self) -> (r: i32)
        ensures
            r as int == self@.value,
    {
        self.value
    }

    pub fn is_grabbed(&self) -> (r: bool)
        ensures
            r == self@.start_angle is Some,
    {
        self.start_angle.is_some()
    }

    pub fn binding(&self) -> (r: KnobBinding)
        ensures
            r == self@.binding,
    {
        self.binding
    }

    /// Starts a turn at `angle`; a second grab starts it anew.
    pub fn grab(&mut self, angle: i32)
        requires
            old(self).wf(),
        ensures
            final(self).wf(),
            final(self)@ == (KnobState { start_angle: Some(angle), ..old(self)@ }),
    {
        self.start_angle = Some(angle);
    }

    /// Ends a turn at `angle`: the knob takes the value the turn gives it.
    pub fn release(&mut self, angle: i32)
        requires
            old(self).wf(),
        ensures
            final(self).wf(),
            final(self)@ == (KnobState {
                value: rotated_value(old(self)@.value, old(self)@.start_angle, angle as int),
                start_angle: None,
                ..old(self)@
            }),
    {
        self.value = self.compute_value(angle);
        self.start_angle = None;
    }

    /// The message for the value the knob would take if released at `angle`;
    /// the knob itself keeps its value until released.
    pub fn update_rotation(&self, new_angle: i32) -> (r: SeqMsg)
        requires
            self.wf(),
        ensures
            is_binding_message(
                self@.binding,
                rotated_value(self@.value, self@.start_angle, new_angle as int) as u8,
                r,
            ),
    {
        let v = self.compute_value(new_angle);
        self.binding.message(v as u8)
    }

    /// The value the knob would take if released at `new_angle`.
    pub fn compute_value(&self, new_angle: i32) -> (r: i32)
        requires
            self.wf(),
        ensures
            r as int == rotated_value(self@.value, self@.start_angle, new_angle as int),
            0 <= r <= MAX_VALUE,
    {
        match self.start_angle {
            Some(angle) => {
                let mut diff: i64 = new_angle as i64 - angle as i64;
                if diff <= -HALF_TURN {
                    diff = diff + TURN;
                } else if diff > HALF_TURN {
                    diff = diff - TURN;
                }
                let scaled: i64 = diff * VALUES_PER_TURN;
                let delta: i64 = if scaled >= 0 {
                    ((scaled as u64) / (TURN as u64)) as i64
                } else {
                    -((((-scaled) as u64) / (TURN as u64)) as i64)
                };
                let lo: i64 = -(self.value as i64);
                let hi: i64 = (MAX_VALUE - self.value) as i64;
                let clamped: i64 = if delta < lo {
                    lo
                } else if delta > hi {
                    hi
                } else {
                    delta
                };
                (self.value as i64 + clamped) as i32
            },
            None => self.value,
        }
    }
}

/// Whatever the turn, a knob's value stays within `[0, 255]`.
pub proof fn lemma_value_clamped(value: int, origin: Option<i32>, angle: int)
    requires
        0 <= value <= MAX_VALUE,
    ensures
        0 <= rotated_value(value, origin, angle) <= MAX_VALUE,
{
}

/// For two readings within half a turn of zero, the wrapped difference lies in
/// `(-HALF_TURN, HALF_TURN]` and differs from the plain one by a whole turn at most:
/// a turn across the point where readings jump from `+HALF_TURN` to `-HALF_TURN`
/// counts as the short way round.
pub proof fn lemma_wraparound(origin: int, angle: int)
    requires
        -HALF_TURN <= origin <= HALF_TURN,
        -HALF_TURN <= angle <= HALF_TURN,
    ensures
        -HALF_TURN < wrap_angle(angle - origin) <= HALF_TURN,
        wrap_angle(angle - origin) == angle - origin || wrap_angle(angle - origin) == angle
            - origin + TURN || wrap_angle(angle - origin) == angle - origin - TURN,
{
}

} // verus!
