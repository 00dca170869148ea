//! Building blocks of a small real-time synthesizer: a sequencer tree that
//! expands into timed notes and silences, a cell that splits a voice into a
//! part shared between threads and a part owned by the audio thread, and the
//! atomic control values a voice is driven through, and the steps an event
//! player takes to play a sequence on a voice.

pub mod sequencer;
pub mod sync;
pub mod synth;
pub mod player;
