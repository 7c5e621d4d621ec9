use vstd::prelude::*;

use crate::knob::{is_binding_message, rotated_value, Knob, KnobBinding, KnobState};
use crate::sequencer::SeqMsg;

verus! {

/// Knobs in one row; a finger picks a knob within the active row.
pub const KNOBS_PER_ROW: usize = 4;

/// The number of knobs: two rows.
pub const KNOB_COUNT: usize = 8;

/// Yaw, in angle units, beyond which (either way) a grab selects row 0: 1.5 rad.
pub const ROW_SWITCH_YAW: i32 = 4005265;

/// A part of the hand.
#[derive(Clone, Copy, Debug, PartialEq, Eq, Structural)]
pub enum HandPart {
    Palm,
    Thumb,
    Index,
    Middle,
    Ring,
    Little,
}

/// One reading of the hand: the finger (if any) that touches the thumb, and the
/// palm's yaw in angle units.
#[derive(Clone, Copy, Debug, PartialEq, Eq, Structural)]
pub struct HandPose {
    pub touching: Option<HandPart>,
    pub yaw: i32,
}

/// What a reading did to the knobs; each names a knob by its index.
#[derive(Clone, Copy, Debug, PartialEq, Eq, Structural)]
pub enum GestureEvent {
    Released(usize),
    Grabbed(usize),
    /// A turn of a held knob, with the value it would take if released now.
    Updated(usize, u8),
}

/// The knob within a row that a finger selects, if any.
pub open spec fn knob_selector(touching: Option<HandPart>) -> Option<usize> {
    match touching {
        Some(HandPart::Index) => Some(0usize),
        Some(HandPart::Middle) => Some(1usize),
        Some(HandPart::Ring) => Some(2usize),
        Some(HandPart::Little) => Some(3usize),
        _ => None,
    }
}

/// The row a grab selects at a palm yaw.
pub open spec fn row_for_yaw(yaw: int) -> int {
    if yaw > ROW_SWITCH_YAW || yaw < -ROW_SWITCH_YAW {
        0
    } else {
        1
    }
}

/// The knob table the controller starts with: four step degrees, then step
/// rate, filter cutoff, base note and scale.
pub open spec fn initial_knob(i: int) -> KnobState {
    if i < 4 {
        KnobState { value: 0, binding: KnobBinding::StepDegree(i as usize), start_angle: None }
    } else if i == 4 {
        KnobState { value: 32, binding: KnobBinding::StepRate, start_angle: None }
    } else if i == 5 {
        KnobState { value: 128, binding: KnobBinding::FilterCutoff, start_angle: None }
    } else if i == 6 {
        KnobState { value: 48, binding: KnobBinding::BaseNote, start_angle: None }
    } else {
        KnobState { value: 0, binding: KnobBinding::ScaleSelect, start_angle: None }
    }
}

/// The controller as mathematical values.
pub ghost struct ControllerState {
    pub knobs: Seq<KnobState>,
    pub current_knob: Option<usize>,
    pub current_row: int,
    pub rot_axis: Seq<i32>,
}

/// The index of the knob `i` of the active row.
pub open spec fn knob_index(g: ControllerState, i: usize) -> int {
    g.current_row * KNOBS_PER_ROW + i
}

/// Releases the held knob (if any) at `angle`.
pub open spec fn release_phase(g: ControllerState, angle: i32) -> (ControllerState, Seq<GestureEvent>) {
    match g.current_knob {
        Some(i) => {
            let k = knob_index(g, i);
            let old_knob = g.knobs[k];
            let knob = KnobState {
                value: rotated_value(old_knob.value, old_knob.start_angle, angle as int),
                start_angle: None,
                ..old_knob
            };
            (ControllerState { knobs: g.knobs.update(k, knob), ..g }, seq![GestureEvent::Released(k as usize)])
        },
        None => (g, Seq::empty()),
    }
}

/// Grabs the knob `new_knob` selects (if any): the row and the axis are
/// chosen anew from the reading first.
pub open spec fn grab_phase(g: ControllerState, new_knob: Option<usize>, hand: HandPose) -> (
    ControllerState,
    Seq<GestureEvent>,
) {
    match new_knob {
        Some(i) => {
            let row = row_for_yaw(hand.yaw as int);
            let k = row * KNOBS_PER_ROW + i;
            let knob = KnobState { start_angle: Some(hand.yaw), ..g.knobs[k] };
            (
                ControllerState {
                    knobs: g.knobs.update(k, knob),
                    current_row: row,
                    rot_axis: seq![0i32, 0, 1],
                    ..g
                },
                seq![GestureEvent::Grabbed(k as usize)],
            )
        },
        None => (g, Seq::empty()),
    }
}

/// What one reading does: where the selected knob changes, the held one is
/// released and the new one grabbed; where the same knob stays held, it reports
/// the value its turn gives.
pub open spec fn gesture_step(g: ControllerState, hand: HandPose) -> (ControllerState, Seq<GestureEvent>) {
    let new_knob = knob_selector(hand.touching);
    if new_knob != g.current_knob {
        let r1 = release_phase(g, hand.yaw);
        let r2 = grab_phase(r1.0, new_knob, hand);
        (ControllerState { current_knob: new_knob, ..r2.0 }, r1.1 + r2.1)
    } else {
        match g.current_knob {
            Some(i) => {
                let k = knob_index(g, i);
                let v = rotated_value(g.knobs[k].value, g.knobs[k].start_angle, hand.yaw as int);
                (g, seq![GestureEvent::Updated(k as usize, v as u8)])
            },
            None => (g, Seq::empty()),
        }
    }
}

/// Holding the index finger, a reading of the middle finger releases knob 0 of
/// the active row and grabs knob 1 of the row chosen from that reading, with the
/// axis set anew; a following reading with no finger releases that knob 1 and
/// leaves row and axis as they were.
pub proof fn lemma_index_middle_none(g: ControllerState, middle: HandPose, none: HandPose)
    requires
        controller_wf(g),
        g.current_knob == Some(0usize),
        middle.touching == Some(HandPart::Middle),
        none.touching is None,
    ensures
        ({
            let (g1, e1) = gesture_step(g, middle);
            let (g2, e2) = gesture_step(g1, none);
            let row = row_for_yaw(middle.yaw as int);
            &&& e1 == seq![
                GestureEvent::Released((g.current_row * 4) as usize),
                GestureEvent::Grabbed((row * 4 + 1) as usize),
            ]
            &&& g1.current_row == row
            &&& g1.rot_axis == seq![0i32, 0, 1]
            &&& g1.current_knob == Some(1usize)
            &&& e2 == seq![GestureEvent::Released((row * 4 + 1) as usize)]
            &&& g2.current_row == row
            &&& g2.rot_axis == g1.rot_axis
            &&& g2.current_knob is None
        }),
{
    let (g1, e1) = gesture_step(g, middle);
    let r1 = release_phase(g, middle.yaw);
    assert(e1 =~= r1.1 + grab_phase(r1.0, Some(1usize), middle).1);
    let (g2, e2) = gesture_step(g1, none);
    assert(e2 =~= release_phase(g1, none.yaw).1);
}

/// Maps readings of the hand to knob grabs, turns and releases.
pub struct GestureController {
    knobs: Vec<Knob>,
    current_knob: Option<usize>,
    current_row: usize,
    rot_axis: [i32; 3],
}

impl View for GestureController {
    type V = ControllerState;

    closed spec fn view(&self) -> ControllerState {
        ControllerState {
            knobs: self.knobs@.map_values(|k: Knob| k@),
            current_knob: self.current_knob,
            current_row: self.current_row as int,
            rot_axis: self.rot_axis@,
        }
    }
}

/// Eight knobs, each within `[0, 255]`, a row of two, and a held knob within a row.
pub open spec fn controller_wf(g: ControllerState) -> bool {
    &&& g.knobs.len() == KNOB_COUNT
    &&& forall|i: int| 0 <= i < KNOB_COUNT ==> 0 <= (#[trigger] g.knobs[i]).value <= 255
    &&& 0 <= g.current_row < 2
    &&& g.current_knob matches Some(i) ==> i < KNOBS_PER_ROW
}

impl GestureController {
    pub closed spec fn wf(&self) -> bool {
        &&& controller_wf(self@)
        &&& self.knobs@.len() == KNOB_COUNT
    }

    /// A controller with the standard knob table, no knob held, on row 0.
    pub fn new() -> (r: GestureController)
        ensures
            r.wf(),
            r@.knobs == Seq::new(KNOB_COUNT as nat, |i: int| initial_knob(i)),
            r@.current_knob is None,
            r@.current_row == 0,
            r@.rot_axis == seq![0i32, 0, 0],
    {
        let mut knobs: Vec<Knob> = Vec::new();
        knobs.push(Knob::new(0, KnobBinding::StepDegree(0)));
        knobs.push(Knob::new(0, KnobBinding::StepDegree(1)));
        knobs.push(Knob::new(0, KnobBinding::StepDegree(2)));
        knobs.push(Knob::new(0, KnobBinding::StepDegree(3)));
        knobs.push(Knob::new(32, KnobBinding::StepRate));
        knobs.push(Knob::new(128, KnobBinding::FilterCutoff));
        knobs.push(Knob::new(48, KnobBinding::BaseNote));
        knobs.push(Knob::new(0, KnobBinding::ScaleSelect));
        let r = GestureController { knobs, current_knob: None, current_row: 0, rot_axis: [0, 0, 0] };
        assert(r@.knobs =~= Seq::new(KNOB_COUNT as nat, |i: int| initial_knob(i)));
        assert(r.rot_axis@ =~= seq![0i32, 0, 0]);
        r
    }

    /// The knob at `index`.
    pub fn knob(&self, index: usize) -> (r: Knob)
        requires
            self.wf(),
            index < KNOB_COUNT,
        ensures
            r@ == self@.knobs[index as int],
    {
        self.knobs[index]
    }

    pub fn current_knob(&self) -> (r: Option<usize>)
        ensures
            r == self@.current_knob,
    {
        self.current_knob
    }

    pub fn current_row(&self) -> (r: usize)
        ensures
            r as int == self@.current_row,
    {
        self.current_row
    }

    pub fn rot_axis(&self) -> (r: [i32; 3])
        ensures
            r@ == self@.rot_axis,
    {
        self.rot_axis
    }

    fn finger_knob(touching: Option<HandPart>) -> (r: Option<usize>)
        ensures
            r == knob_selector(touching),
    {
        match touching {
            Some(HandPart::Index) => Some(0),
            Some(HandPart::Middle) => Some(1),
            Some(HandPart::Ring) => Some(2),
            Some(HandPart::Little) => Some(3),
            _ => None,
        }
    }

    /// Takes one reading of the hand. Returns what it did to the knobs, and the
    /// sequencer message of a held knob that was turned.
    pub fn update(&mut self, hand: &HandPose) -> (r: (Vec<GestureEvent>, Option<SeqMsg>))
        requires
            old(self).wf(),
        ensures
            final(self).wf(),
            final(self)@ == gesture_step(old(self)@, *hand).0,
            r.0@ == gesture_step(old(self)@, *hand).1,
            r.1 is Some <==> (knob_selector(hand.touching) == old(self)@.current_knob
                && old(self)@.current_knob is Some),
            r.1 matches Some(msg) ==> ({
                let k = knob_index(old(self)@, old(self)@.current_knob.unwrap());
                let knob = old(self)@.knobs[k];
                is_binding_message(
                    knob.binding,
                    rotated_value(knob.value, knob.start_angle, hand.yaw as int) as u8,
                    msg,
                )
            }),
    {
        let ghost g0 = self@;
        let new_knob = GestureController::finger_knob(hand.touching);
        let changed = match new_knob {
            Some(a) => match self.current_knob {
                Some(b) => a != b,
                None => true,
            },
            None => self.current_knob.is_some(),
        };
        let mut events: Vec<GestureEvent> = Vec::new();
        let mut msg: Option<SeqMsg> = None;
        if changed {
            if let Some(index) = self.current_knob {
                // release old knob
                let angle = self.compute_current_angle(hand);
                let k = self.current_row * KNOBS_PER_ROW + index;
                let mut knob = self.knobs[k];
                knob.release(angle);
                self.knobs.set(k, knob);
                events.push(GestureEvent::Released(k));
            }
            let ghost g1 = self@;
            assert(g1 == release_phase(g0, hand.yaw).0) by {
                assert(g1.knobs =~= release_phase(g0, hand.yaw).0.knobs);
            }
            if let Some(index) = new_knob {
                // grab new knob
                self.compute_new_axis();
                self.compute_new_row(hand);
                let angle = self.compute_current_angle(hand);
                let k = self.current_row * KNOBS_PER_ROW + index;
                let mut knob = self.knobs[k];
                knob.grab(angle);
                self.knobs.set(k, knob);
                events.push(GestureEvent::Grabbed(k));
            }
            assert(self@.knobs =~= grab_phase(g1, new_knob, *hand).0.knobs);
            assert(events@ =~= release_phase(g0, hand.yaw).1 + grab_phase(g1, new_knob, *hand).1);
        } else {
            if let Some(index) = self.current_knob {
                // update current knob
                let angle = self.compute_current_angle(hand);
                let k = self.current_row * KNOBS_PER_ROW + index;
                let knob = self.knobs[k];
                let value = knob.compute_value(angle);
                events.push(GestureEvent::Updated(k, value as u8));
                msg = Some(knob.update_rotation(angle));
            }
            assert(events@ =~= gesture_step(g0, *hand).1);
        }
        self.current_knob = new_knob;
        (events, msg)
    }

    fn compute_current_angle(&self, hand: &HandPose) -> (r: i32)
        ensures
            r == hand.yaw,
    {
        hand.yaw
    }

    fn compute_new_axis(&mut self)
        ensures
            final(self)@ == (ControllerState { rot_axis: seq![0i32, 0, 1], ..old(self)@ }),
            final(self).knobs@ == old(self).knobs@,
    {
        self.rot_axis = [0, 0, 1];
        assert(self.rot_axis@ =~= seq![0i32, 0, 1]);
    }

    fn compute_new_row(&mut self, hand: &HandPose)
        ensures
            final(self)@ == (ControllerState {
                current_row: row_for_yaw(hand.yaw as int),
                ..old(self)@
            }),
            final(self).knobs@ == old(self).knobs@,
    {
        self.current_row = if hand.yaw > ROW_SWITCH_YAW || hand.yaw < -ROW_SWITCH_YAW {
            0
        } else {
            1
        };
    }
}

} // verus!
