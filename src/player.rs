//! The decisions of the event player: what it does to a voice for each
//! particle of a sequence. The thread that carries them out sleeps and
//! writes the voice's controls; it lives outside the library.

use crate::sequencer::{flat, Atom, Particle};
use vstd::prelude::*;

verus! {

/// One step of the event player.
#[derive(Debug, PartialEq, Eq, Copy, Clone, Structural)]
pub enum PlayerAction {
    /// Set the voice's frequency to that of this midi pitch
    SetPitch(u8),
    /// Turn the voice on (`true`) or off (`false`)
    Trigger(bool),
    /// Block the player's thread for this many nanoseconds
    Sleep(u64),
}

/// The steps for one particle: a note sets its pitch, turns the voice on,
/// holds for its duration and turns the voice off; a silence only holds.
pub open spec fn actions_of(p: Particle) -> Seq<PlayerAction> {
    match p {
        Particle::Note { dur, pitch } => seq![
            PlayerAction::SetPitch(pitch),
            PlayerAction::Trigger(true),
            PlayerAction::Sleep(dur),
            PlayerAction::Trigger(false),
        ],
        Particle::Silence { dur } => seq![PlayerAction::Sleep(dur)],
    }
}

/// The steps for a sequence of particles, one particle after the other.
pub open spec fn schedule_of(ps: Seq<Particle>) -> Seq<PlayerAction>
    decreases ps.len(),
{
    if ps.len() == 0 {
        Seq::empty()
    } else {
        schedule_of(ps.drop_last()) + actions_of(ps.last())
    }
}

proof fn lemma_schedule_len(ps: Seq<Particle>)
    ensures
        schedule_of(ps).len() <= 4 * ps.len(),
    decreases ps.len(),
{
    if ps.len() > 0 {
        lemma_schedule_len(ps.drop_last());
    }
}

/// The steps the player takes for one particle.
pub fn actions(p: &Particle) -> (r: Vec<PlayerAction>)
    ensures
        r@ == actions_of(*p),
{
    match p {
        Particle::Note { dur, pitch } => {
            let r = vec![
                PlayerAction::SetPitch(*pitch),
                PlayerAction::Trigger(true),
                PlayerAction::Sleep(*dur),
                PlayerAction::Trigger(false),
            ];
            assert(r@ =~= actions_of(*p));
            r
        },
        Particle::Silence { dur } => {
            let r = vec![PlayerAction::Sleep(*dur)];
            assert(r@ =~= actions_of(*p));
            r
        },
    }
}

/// The steps the player takes to play `atom` from start to end.
pub fn schedule(atom: &Atom) -> (r: Vec<PlayerAction>)
    requires
        flat(*atom).len() <= usize::MAX / 4,
    ensures
        r@ == schedule_of(flat(*atom)),
{
    let particles = atom.iter();
    let mut out: Vec<PlayerAction> = Vec::new();
    let mut i: usize = 0;
    while i < particles.len()
        invariant
            i <= particles.len(),
            particles.len() <= usize::MAX / 4,
            out@ == schedule_of(particles@.subrange(0, i as int)),
        decreases particles.len() - i,
    {
        proof {
            lemma_schedule_len(particles@.subrange(0, i as int));
            assert(particles@.subrange(0, i + 1).drop_last() =~= particles@.subrange(0, i as int));
        }
        let mut step = actions(&particles[i]);
        out.append(&mut step);
        i += 1;
    }
    assert(particles@.subrange(0, particles.len() as int) =~= particles@);
    out
}

} // verus!
