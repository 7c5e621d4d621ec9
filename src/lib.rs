pub mod gesture;
pub mod knob;
pub mod scale;
pub mod sequencer;
