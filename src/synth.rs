//! The control side of a synthesizer voice: the values that control threads
//! write and the audio thread reads once per buffer.

use crate::sync::AtomicF32;
use std::sync::atomic::{AtomicBool, Ordering};
use vstd::prelude::*;

verus! {

/// The part of a voice that control threads share with the audio thread.
///
/// `playing` is the level that the control side asks for: true while a note
/// should sound. `note_on` records that a note was started since the audio
/// thread last looked; the audio thread takes it with
/// [MySynthShared::take_note_on], which clears it, so each start of a note
/// restarts the envelope once even when the pitch and the level are the
/// same as before. Two starts between two buffers are seen as one.
#[derive(Debug)]
pub struct MySynthShared {
    frequency: AtomicF32,
    playing: AtomicBool,
    note_on: AtomicBool,
}

impl MySynthShared {
    /// Controls for a voice at the frequency whose `f32` bit pattern is
    /// `frequency_bits`, sounding or not as `playing` says. No start of a
    /// note is pending.
    pub fn from_bits(frequency_bits: u32, playing: bool) -> (r: Self) {
        MySynthShared {
            frequency: AtomicF32::from_bits(frequency_bits),
            playing: AtomicBool::new(playing),
            note_on: AtomicBool::new(false),
        }
    }

    /// Sets the base frequency, given as the bit pattern of an `f32` in hertz.
    pub fn set_frequency_bits(&self, frequency_bits: u32) {
        self.frequency.store_bits(frequency_bits, Ordering::Relaxed)
    }

    /// The bit pattern of the base frequency last set.
    pub fn frequency_bits(&self) -> (r: u32) {
        self.frequency.load_bits(Ordering::Relaxed)
    }

    /// Turns the voice on or off. Turning it on also records the start of a
    /// note for the audio thread to take.
    pub fn trigger(&self, on: bool) {
        if on {
            self.note_on.store(true, Ordering::Relaxed);
        }
        self.playing.store(on, Ordering::Relaxed);
    }

    /// Whether a note is asked to sound.
    pub fn is_playing(&self) -> (r: bool) {
        self.playing.load(Ordering::Relaxed)
    }

    /// Whether a note was started since the last call, clearing the record.
    pub fn take_note_on(&self) -> (r: bool) {
        self.note_on.swap(false, Ordering::Relaxed)
    }
}

} // verus!
