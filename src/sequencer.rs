use vstd::prelude::*;

use crate::scale::{pitch_of, Scale};

verus! {

/// Status byte of a note-on message.
pub const NOTE_ON_MSG: u8 = 0x90;

/// Status byte of a note-off message.
pub const NOTE_OFF_MSG: u8 = 0x80;

/// Velocity sent with every note message.
pub const VELOCITY: u8 = 0x64;

/// Status byte of a control-change message.
pub const CONTROL_CHANGE_MSG: u8 = 0xB0;

/// Controller number of the filter cutoff.
pub const CUTOFF: u8 = 0x4A;

/// Microseconds in one second: the unit of every timestamp handed to the sequencer.
pub const MICROS_PER_SECOND: u64 = 1_000_000;

/// One message for the MIDI output.
#[derive(Clone, Copy, Debug, PartialEq, Eq, Structural)]
pub enum MidiEvent {
    NoteOn(u8),
    NoteOff(u8),
    ControlChange(u8, u8),
}

impl MidiEvent {
    /// The three bytes of the message on the wire.
    pub open spec fn spec_bytes(self) -> Seq<u8> {
        match self {
            MidiEvent::NoteOn(p) => seq![NOTE_ON_MSG, p, VELOCITY],
            MidiEvent::NoteOff(p) => seq![NOTE_OFF_MSG, p, VELOCITY],
            MidiEvent::ControlChange(c, v) => seq![CONTROL_CHANGE_MSG, c, v],
        }
    }

    pub fn to_bytes(&self) -> (r: [u8; 3])
        ensures
            r@ == self.spec_bytes(),
    {
        let r = match *self {
            MidiEvent::NoteOn(p) => [NOTE_ON_MSG, p, VELOCITY],
            MidiEvent::NoteOff(p) => [NOTE_OFF_MSG, p, VELOCITY],
            MidiEvent::ControlChange(c, v) => [CONTROL_CHANGE_MSG, c, v],
        };
        assert(r@ =~= self.spec_bytes());
        r
    }
}

/// A step rate of `steps` steps every `seconds` seconds. A rate of zero steps
/// never advances; a rate over zero seconds advances at every poll.
#[derive(Clone, Copy, Debug, PartialEq, Eq, Structural)]
pub struct StepRate {
    pub steps: u32,
    pub seconds: u32,
}

/// A control message for the sequencer.
pub enum SeqMsg {
    Start,
    Stop,
    Kill,
    SetNoteInScale { step: usize, value: u8 },
    SetFreq(StepRate),
    SetScale(Scale),
    SetBaseNote(u8),
    SetCutoff(u8),
}

/// What the sequencer holds, as mathematical values. Times are in microseconds.
pub ghost struct SeqState {
    pub steps: Seq<u8>,
    pub current_step: int,
    pub current_note: Option<u8>,
    pub rate: StepRate,
    pub scale: Seq<u8>,
    pub base_note: u8,
    pub last_step_time: int,
    pub running: bool,
}

/// The note-off for the note that sounds, if one does.
pub open spec fn note_off_events(note: Option<u8>) -> Seq<MidiEvent> {
    match note {
        Some(p) => seq![MidiEvent::NoteOff(p)],
        None => Seq::empty(),
    }
}

/// The pitch of the current step, as a byte.
pub open spec fn current_pitch(s: SeqState) -> u8 {
    (pitch_of(s.scale, s.steps[s.current_step] as int, s.base_note as int) % 256) as u8
}

/// Sounds the current step's pitch where it differs from the note that sounds:
/// note-off for the old note (if any), then note-on for the new one.
pub open spec fn resound(s: SeqState) -> (SeqState, Seq<MidiEvent>) {
    let p = current_pitch(s);
    if s.current_note == Some(p) {
        (s, Seq::empty())
    } else {
        (
            SeqState { current_note: Some(p), ..s },
            note_off_events(s.current_note).push(MidiEvent::NoteOn(p)),
        )
    }
}

/// Moves to the next step (wrapping to the first), stamps the time and re-sounds.
pub open spec fn advance(s: SeqState, now: int) -> (SeqState, Seq<MidiEvent>) {
    resound(
        SeqState {
            current_step: (s.current_step + 1) % (s.steps.len() as int),
            last_step_time: now,
            ..s
        },
    )
}

/// Time since the last step, or zero where `now` is earlier.
pub open spec fn elapsed(s: SeqState, now: int) -> int {
    if now >= s.last_step_time {
        now - s.last_step_time
    } else {
        0
    }
}

/// Whether one period of the step rate has gone by since the last step:
/// `elapsed >= seconds / steps`, without division.
pub open spec fn period_elapsed(rate: StepRate, elapsed: int) -> bool {
    elapsed * rate.steps >= MICROS_PER_SECOND * rate.seconds
}

/// One poll of the timing loop at time `now`.
pub open spec fn tick(s: SeqState, now: int) -> (SeqState, Seq<MidiEvent>) {
    if s.running && period_elapsed(s.rate, elapsed(s, now)) {
        advance(s, now)
    } else {
        (s, Seq::empty())
    }
}

/// What a control message does at time `now`: whether the loop goes on, the
/// new state, and what is sent.
pub open spec fn handle(s: SeqState, msg: SeqMsg, now: int) -> (bool, SeqState, Seq<MidiEvent>) {
    match msg {
        SeqMsg::Start => {
            let r = advance(SeqState { running: true, ..s }, now);
            (true, r.0, r.1)
        },
        SeqMsg::Stop => (true, SeqState { running: false, ..s }, note_off_events(s.current_note)),
        SeqMsg::Kill => (false, s, Seq::empty()),
        SeqMsg::SetNoteInScale { step, value } => {
            let t = SeqState { steps: s.steps.update(step as int, value), ..s };
            if step as int == s.current_step {
                let r = resound(t);
                (true, r.0, r.1)
            } else {
                (true, t, Seq::empty())
            }
        },
        SeqMsg::SetFreq(rate) => (true, SeqState { rate, ..s }, Seq::empty()),
        SeqMsg::SetScale(scale) => {
            let r = resound(SeqState { scale: scale@, ..s });
            (true, r.0, r.1)
        },
        SeqMsg::SetBaseNote(note) => {
            let r = resound(SeqState { base_note: note, ..s });
            (true, r.0, r.1)
        },
        SeqMsg::SetCutoff(value) => (true, s, seq![MidiEvent::ControlChange(CUTOFF, value)]),
    }
}

/// Whether `msg` is one the sequencer can take: a step index within the sequence
/// and a well-formed scale.
pub open spec fn message_fits(s: SeqState, msg: SeqMsg) -> bool {
    match msg {
        SeqMsg::SetNoteInScale { step, value } => step < s.steps.len(),
        SeqMsg::SetScale(scale) => scale.wf(),
        _ => true,
    }
}

/// What one response of the sequencer does to the sounding note, `before` and
/// `after` it: either no note message at all, or a note-off for the held note,
/// or that note-off followed by a single note-on for a different pitch, which is
/// then the one held. So at most one note sounds at any time.
pub open spec fn monophonic_step(before: Option<u8>, ev: Seq<MidiEvent>, after: Option<u8>) -> bool {
    ||| after == before && forall|i: int| 0 <= i < ev.len() ==> (#[trigger] ev[i]) is ControlChange
    ||| after == before && ev == note_off_events(before)
    ||| after matches Some(p) && after != before && ev == note_off_events(before).push(
        MidiEvent::NoteOn(p),
    )
}

proof fn lemma_resound_monophonic(s: SeqState)
    ensures
        monophonic_step(s.current_note, resound(s).1, resound(s).0.current_note),
{
    let r = resound(s);
    if s.current_note == Some(current_pitch(s)) {
        assert(r.1.len() == 0);
    }
}

/// Every control message and every poll of the timing loop keeps at most one
/// note sounding: a note-on goes out only for a pitch other than the one held,
/// after the note-off of the held one, and the new pitch is then the one held.
pub proof fn lemma_monophonic(s: SeqState, msg: SeqMsg, now: int)
    ensures
        monophonic_step(s.current_note, handle(s, msg, now).2, handle(s, msg, now).1.current_note),
        monophonic_step(s.current_note, tick(s, now).1, tick(s, now).0.current_note),
{
    match msg {
        SeqMsg::Start => lemma_resound_monophonic(
            SeqState {
                running: true,
                current_step: (s.current_step + 1) % (s.steps.len() as int),
                last_step_time: now,
                ..s
            },
        ),
        SeqMsg::SetNoteInScale { step, value } => lemma_resound_monophonic(
            SeqState { steps: s.steps.update(step as int, value), ..s },
        ),
        SeqMsg::SetScale(scale) => lemma_resound_monophonic(SeqState { scale: scale@, ..s }),
        SeqMsg::SetBaseNote(note) => lemma_resound_monophonic(SeqState { base_note: note, ..s }),
        SeqMsg::SetCutoff(value) => {
            let ev = handle(s, msg, now).2;
            assert(ev[0] is ControlChange);
        },
        _ => {},
    }
    lemma_resound_monophonic(
        SeqState {
            current_step: (s.current_step + 1) % (s.steps.len() as int),
            last_step_time: now,
            ..s
        },
    );
}

proof fn lemma_advance_fields(s: SeqState, now: int)
    requires
        s.steps.len() > 0,
    ensures
        advance(s, now).0.current_step == (s.current_step + 1) % (s.steps.len() as int),
        advance(s, now).0.last_step_time == now,
        advance(s, now).0.steps == s.steps,
        advance(s, now).0.rate == s.rate,
        advance(s, now).0.running == s.running,
{
}

proof fn lemma_tick_due(s: SeqState, now: int)
    requires
        s.running,
        s.last_step_time <= now,
        period_elapsed(s.rate, now - s.last_step_time),
    ensures
        tick(s, now) == advance(s, now),
{
}

/// Started on the first of four steps, the sequencer moves at once to step 1,
/// then to steps 2, 3 and 0 in turn at polls that each come a full period
/// (`1 / rate`) after the step before.
pub proof fn lemma_four_step_rotation(s: SeqState, t0: int, t1: int, t2: int, t3: int)
    requires
        s.steps.len() == 4,
        s.current_step == 0,
        t0 <= t1 <= t2 <= t3,
        period_elapsed(s.rate, t1 - t0),
        period_elapsed(s.rate, t2 - t1),
        period_elapsed(s.rate, t3 - t2),
    ensures
        ({
            let s0 = handle(s, SeqMsg::Start, t0).1;
            let s1 = tick(s0, t1).0;
            let s2 = tick(s1, t2).0;
            let s3 = tick(s2, t3).0;
            &&& s0.current_step == 1 && s0.running
            &&& s1.current_step == 2 && s1.last_step_time == t1
            &&& s2.current_step == 3 && s2.last_step_time == t2
            &&& s3.current_step == 0 && s3.last_step_time == t3
        }),
{
    let s0 = handle(s, SeqMsg::Start, t0).1;
    let st = SeqState { running: true, ..s };
    assert(s0 == advance(st, t0).0);
    lemma_advance_fields(st, t0);
    lemma_tick_due(s0, t1);
    lemma_advance_fields(s0, t1);
    let s1 = tick(s0, t1).0;
    lemma_tick_due(s1, t2);
    lemma_advance_fields(s1, t2);
    let s2 = tick(s1, t2).0;
    lemma_tick_due(s2, t3);
    lemma_advance_fields(s2, t3);
}

/// A monophonic step sequencer: a fixed number of steps, each a scale degree,
/// played in turn at a step rate.
pub struct Sequencer {
    notes_in_scale: Vec<u8>,
    current_step: usize,
    current_note: Option<u8>,
    freq: StepRate,
    scale: Scale,
    base_note: u8,
    last_step_time: u64,
    is_running: bool,
}

impl View for Sequencer {
    type V = SeqState;

    closed spec fn view(&self) -> SeqState {
        SeqState {
            steps: self.notes_in_scale@,
            current_step: self.current_step as int,
            current_note: self.current_note,
            rate: self.freq,
            scale: self.scale@,
            base_note: self.base_note,
            last_step_time: self.last_step_time as int,
            running: self.is_running,
        }
    }
}

impl Sequencer {
    /// At least one step, the current step among them, and a well-formed scale.
    pub closed spec fn wf(&self) -> bool {
        &&& self.notes_in_scale@.len() > 0
        &&& self.current_step < self.notes_in_scale@.len()
        &&& self.scale.wf()
    }

    /// A stopped sequencer of `steps` steps, all on degree zero, with no note
    /// sounding; `now` is the time of creation.
    pub fn new(steps: usize, base_freq: StepRate, scale: Scale, base_note: u8, now: u64) -> (r:
        Sequencer)
        requires
            steps > 0,
            scale.wf(),
        ensures
            r.wf(),
            r@ == (SeqState {
                steps: Seq::new(steps as nat, |i: int| 0u8),
                current_step: 0,
                current_note: None,
                rate: base_freq,
                scale: scale@,
                base_note,
                last_step_time: now as int,
                running: false,
            }),
    {
        let mut notes_in_scale: Vec<u8> = Vec::new();
        let mut i: usize = 0;
        while i < steps
            invariant
                0 <= i <= steps,
                notes_in_scale@ =~= Seq::new(i as nat, |k: int| 0u8),
            decreases steps - i,
        {
            notes_in_scale.push(0);
            i = i + 1;
        }
        Sequencer {
            notes_in_scale,
            current_step: 0,
            current_note: None,
            freq: base_freq,
            scale,
            base_note,
            last_step_time: now,
            is_running: false,
        }
    }

    pub fn current_step(&self) -> (r: usize)
        ensures
            r as int == self@.current_step,
    {
        self.current_step
    }

    pub fn current_note(&self) -> (r: Option<u8>)
        ensures
            r == self@.current_note,
    {
        self.current_note
    }

    pub fn is_running(&self) -> (r: bool)
        ensures
            r == self@.running,
    {
        self.is_running
    }

    /// The step count of the sequence.
    pub fn step_count(&self) -> (r: usize)
        ensures
            r as int == self@.steps.len(),
    {
        self.notes_in_scale.len()
    }

    /// One poll of the timing loop at time `now` (microseconds): where the
    /// sequencer runs and a period has gone by, it advances one step.
    pub fn poll(&mut self, now: u64) -> (events: Vec<MidiEvent>)
        requires
            old(self).wf(),
        ensures
            final(self).wf(),
            final(self)@ == tick(old(self)@, now as int).0,
            events@ == tick(old(self)@, now as int).1,
    {
        let mut events: Vec<MidiEvent> = Vec::new();
        if self.is_running {
            let elapsed: u64 = if now >= self.last_step_time {
                now - self.last_step_time
            } else {
                0
            };
            assert(elapsed as u128 * self.freq.steps as u128 <= u64::MAX as u128 * u32::MAX as u128)
                by (nonlinear_arith);
            let lhs: u128 = elapsed as u128 * self.freq.steps as u128;
            assert(MICROS_PER_SECOND as u128 * self.freq.seconds as u128 <= 1_000_000 * u32::MAX as u128)
                by (nonlinear_arith);
            let rhs: u128 = MICROS_PER_SECOND as u128 * self.freq.seconds as u128;
            if lhs >= rhs {
                self.step(now, &mut events);
            }
        }
        events
    }

    fn step(&mut self, now: u64, events: &mut Vec<MidiEvent>)
        requires
            old(self).wf(),
        ensures
            final(self).wf(),
            final(self)@ == advance(old(self)@, now as int).0,
            final(events)@ == old(events)@ + advance(old(self)@, now as int).1,
    {
        let len = self.notes_in_scale.len();
        self.current_step = (self.current_step + 1) % len;
        self.last_step_time = now;
        self.update_and_play_current_step_note(events);
    }

    /// Takes one control message at time `now` (microseconds); returns whether
    /// the loop goes on, and what to send.
    pub fn handle_message(&mut self, msg: SeqMsg, now: u64) -> (r: (bool, Vec<MidiEvent>))
        requires
            old(self).wf(),
            message_fits(old(self)@, msg),
        ensures
            final(self).wf(),
            r.0 == handle(old(self)@, msg, now as int).0,
            final(self)@ == handle(old(self)@, msg, now as int).1,
            r.1@ == handle(old(self)@, msg, now as int).2,
    {
        let ghost s0 = self@;
        let ghost m = msg;
        let mut events: Vec<MidiEvent> = Vec::new();
        match msg {
            SeqMsg::Start => {
                self.is_running = true;
                self.step(now, &mut events);
            },
            SeqMsg::Stop => {
                self.is_running = false;
                if let Some(note) = self.current_note {
                    self.play_single_note(note, false, &mut events);
                }
                assert(events@ =~= note_off_events(s0.current_note));
            },
            SeqMsg::Kill => {
                return (false, events);
            },
            SeqMsg::SetNoteInScale { step, value } => {
                self.notes_in_scale.set(step, value);
                if step == self.current_step {
                    self.update_and_play_current_step_note(&mut events);
                }
            },
            SeqMsg::SetFreq(freq) => {
                self.freq = freq;
            },
            SeqMsg::SetScale(scale) => {
                self.scale = scale;
                self.update_and_play_current_step_note(&mut events);
            },
            SeqMsg::SetBaseNote(note) => {
                self.base_note = note;
                self.update_and_play_current_step_note(&mut events);
            },
            SeqMsg::SetCutoff(value) => {
                self.set_cutoff(value, &mut events);
                assert(events@ =~= seq![MidiEvent::ControlChange(CUTOFF, value)]);
            },
        }
        (true, events)
    }

    fn get_current_note_from_scale(&self) -> (r: u8)
        requires
            self.wf(),
        ensures
            r == current_pitch(self@),
    {
        self.scale.note_from_scale(self.notes_in_scale[self.current_step], self.base_note)
    }

    fn play_single_note(&self, note: u8, on: bool, events: &mut Vec<MidiEvent>)
        ensures
            final(events)@ == old(events)@.push(
                if on {
                    MidiEvent::NoteOn(note)
                } else {
                    MidiEvent::NoteOff(note)
                },
            ),
    {
        if on {
            events.push(MidiEvent::NoteOn(note));
        } else {
            events.push(MidiEvent::NoteOff(note));
        }
    }

    fn update_and_play_current_step_note(&mut self, events: &mut Vec<MidiEvent>)
        requires
            old(self).wf(),
        ensures
            final(self).wf(),
            final(self)@ == resound(old(self)@).0,
            final(events)@ == old(events)@ + resound(old(self)@).1,
    {
        let ghost e0 = events@;
        let new_note = self.get_current_note_from_scale();
        let unchanged = match self.current_note {
            Some(note) => note == new_note,
            None => false,
        };
        if !unchanged {
            if let Some(note) = self.current_note {
                self.play_single_note(note, false, events);
            }
            self.play_single_note(new_note, true, events);
            self.current_note = Some(new_note);
            assert(events@ =~= e0 + resound(old(self)@).1);
        } else {
            assert(events@ =~= e0 + resound(old(self)@).1);
        }
    }

    fn set_cutoff(&self, value: u8, events: &mut Vec<MidiEvent>)
        ensures
            final(events)@ == old(events)@.push(MidiEvent::ControlChange(CUTOFF, value)),
    {
        events.push(MidiEvent::ControlChange(CUTOFF, value));
    }
}

} // verus!
