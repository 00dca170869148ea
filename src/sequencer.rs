//! Sequence a tree-like structure ([Atom]) into a sequence of simple
//! instructions ([Particle]).

use vstd::prelude::*;

verus! {

/// The base unit of sound: either a duration of silence, or a duration and a note.
#[derive(Debug, PartialEq, Eq, Copy, Clone, Structural)]
pub enum Particle {
    /// A musical note to be played
    Note {
        /// The duration of the note in nanoseconds
        dur: u64,
        /// The pitch of the note, midi note in (0..127)
        pitch: u8,
    },
    /// A silence to be held
    Silence {
        /// The duration in nanoseconds
        dur: u64,
    },
}

/// A sequencer instruction: a single [Particle], or a group of atoms played
/// a number of times in a row.
#[derive(Debug, PartialEq)]
pub enum Atom {
    /// A single particle
    Singleton(Particle),
    /// A loop of atoms
    Cycle {
        /// The atoms to loop over, in order
        atoms: Vec<Atom>,
        /// The number of atoms in the loop; it mirrors `atoms.len()` and is
        /// not read when the atom is sequenced
        len: usize,
        /// The number of times to loop for
        times: u32,
    },
}

impl Atom {
    /// Every cycle in the tree records the number of its atoms in `len`.
    pub open spec fn wf(self) -> bool
        decreases self,
    {
        match self {
            Atom::Singleton(_) => true,
            Atom::Cycle { atoms, len, .. } => len == atoms.len() && forall|i: int|
                0 <= i < atoms.len() ==> (#[trigger] atoms@[i]).wf(),
        }
    }

    /// A cycle that plays `atoms` `times` times, with `len` set to match.
    pub fn cycle(atoms: Vec<Atom>, times: u32) -> (r: Atom)
        ensures
            r == (Atom::Cycle { len: atoms.len(), atoms, times }),
            (forall|i: int| 0 <= i < atoms.len() ==> (#[trigger] atoms@[i]).wf()) ==> r.wf(),
    {
        let len = atoms.len();
        Atom::Cycle { atoms, len, times }
    }

    /// If the atom is a singleton, returns the contained particle.
    /// Returns `None` otherwise.
    pub fn particle_ref(&self) -> (r: Option<&Particle>)
        ensures
            match *self {
                Atom::Singleton(p) => r == Some(&p),
                Atom::Cycle { .. } => r is None,
            },
    {
        match self {
            Atom::Singleton(particle) => Some(particle),
            _ => None,
        }
    }

    /// If the atom is a cycle, returns a slice into its atoms.
    /// Returns `None` otherwise.
    pub fn cycle_slice(&self) -> (r: Option<&[Atom]>)
        ensures
            match *self {
                Atom::Singleton(_) => r is None,
                Atom::Cycle { atoms, .. } => r is Some && r->0@ == atoms@,
            },
    {
        match self {
            Atom::Cycle { atoms, .. } => Some(atoms.as_slice()),
            _ => None,
        }
    }

    /// The particles this atom expands into, in playing order: a singleton
    /// gives its particle; a cycle gives the particles of its atoms, one atom
    /// after the other, and all of that `times` times over.
    ///
    /// The expansion recurses once per level of nesting, so the depth of the
    /// tree is bounded by the thread's stack.
    pub fn iter(&self) -> (r: Vec<Particle>)
        requires
            flat(*self).len() <= usize::MAX,
        ensures
            r@ == flat(*self),
        decreases self,
    {
        match self {
            Atom::Singleton(particle) => vec![*particle],
            Atom::Cycle { atoms, times, .. } => {
                let mut out: Vec<Particle> = Vec::new();
                if *times == 0 {
                    return out;
                }
                proof {
                    lemma_repeat_len(flat_list(atoms@), *times as nat);
                    assert(flat_list(atoms@).len() <= flat(*self).len()) by (nonlinear_arith)
                        requires
                            flat(*self).len() == *times as nat * flat_list(atoms@).len(),
                            *times >= 1,
                    ;
                }
                assert(decreases_to!(*self => *atoms));
                let mut once: Vec<Particle> = Vec::new();
                let mut i: usize = 0;
                while i < atoms.len()
                    invariant
                        i <= atoms.len(),
                        once@ == flat_list(atoms@.subrange(0, i as int)),
                        flat_list(atoms@).len() <= usize::MAX,
                        decreases_to!(*self => *atoms),
                    decreases atoms.len() - i,
                {
                    proof {
                        lemma_flat_list_prefix(atoms@, i as int + 1);
                        assert(atoms@.subrange(0, i + 1).drop_last() =~= atoms@.subrange(0, i as int));
                        vstd::std_specs::vec::axiom_vec_index_decreases(*atoms, i as int);
                        assert(decreases_to!(*self => atoms@[i as int]));
                    }
                    let mut part = atoms[i].iter();
                    once.append(&mut part);
                    i += 1;
                }
                assert(atoms@.subrange(0, atoms.len() as int) =~= atoms@);
                let mut k: u32 = 0;
                while k < *times
                    invariant
                        k <= *times,
                        out@ == repeat(once@, k as nat),
                        once@ == flat_list(atoms@),
                        repeat(once@, *times as nat).len() <= usize::MAX,
                    decreases *times - k,
                {
                    proof {
                        lemma_repeat_len(once@, k as nat + 1);
                        lemma_repeat_monotone(once@, k as nat + 1, *times as nat);
                    }
                    let mut j: usize = 0;
                    let ghost start = out@;
                    while j < once.len()
                        invariant
                            j <= once.len(),
                            out@ == start + once@.subrange(0, j as int),
                            start.len() + once.len() <= usize::MAX,
                        decreases once.len() - j,
                    {
                        out.push(once[j]);
                        j += 1;
                        assert(out@ =~= start + once@.subrange(0, j as int));
                    }
                    assert(once@.subrange(0, once.len() as int) =~= once@);
                    k += 1;
                }
                out
            },
        }
    }
}

/// `s` played `n` times in a row.
pub open spec fn repeat(s: Seq<Particle>, n: nat) -> Seq<Particle>
    decreases n,
{
    if n == 0 {
        Seq::empty()
    } else {
        repeat(s, (n - 1) as nat) + s
    }
}

/// The particles an atom expands into, in playing order.
pub open spec fn flat(a: Atom) -> Seq<Particle>
    decreases a,
{
    match a {
        Atom::Singleton(p) => seq![p],
        Atom::Cycle { atoms, times, .. } => repeat(flat_list(atoms@), times as nat),
    }
}

/// The particles of a list of atoms, one atom after the other.
pub open spec fn flat_list(s: Seq<Atom>) -> Seq<Particle>
    decreases s,
{
    if s.len() == 0 {
        Seq::empty()
    } else {
        flat_list(s.drop_last()) + flat(s.last())
    }
}

/// How many particles an atom expands into: one for each singleton, times
/// the `times` of every cycle around it.
pub open spec fn particle_count(a: Atom) -> nat
    decreases a,
{
    match a {
        Atom::Singleton(_) => 1,
        Atom::Cycle { atoms, times, .. } => times as nat * particle_count_list(atoms@),
    }
}

/// How many particles a list of atoms expands into.
pub open spec fn particle_count_list(s: Seq<Atom>) -> nat
    decreases s,
{
    if s.len() == 0 {
        0
    } else {
        particle_count_list(s.drop_last()) + particle_count(s.last())
    }
}

proof fn lemma_repeat_len(s: Seq<Particle>, n: nat)
    ensures
        repeat(s, n).len() == n * s.len(),
    decreases n,
{
    if n > 0 {
        lemma_repeat_len(s, (n - 1) as nat);
        assert(n * s.len() == (n - 1) * s.len() + s.len()) by (nonlinear_arith)
            requires
                n >= 1,
        ;
    } else {
        assert(n * s.len() == 0) by (nonlinear_arith)
            requires
                n == 0,
        ;
    }
}

proof fn lemma_repeat_monotone(s: Seq<Particle>, m: nat, n: nat)
    requires
        m <= n,
    ensures
        repeat(s, m).len() <= repeat(s, n).len(),
{
    lemma_repeat_len(s, m);
    lemma_repeat_len(s, n);
    assert(m * s.len() <= n * s.len()) by (nonlinear_arith)
        requires
            m <= n,
    ;
}

/// What a prefix of a list of atoms expands into is never longer than what
/// the whole list expands into, and each atom of the list is no longer either.
proof fn lemma_flat_list_prefix(s: Seq<Atom>, i: int)
    requires
        0 < i <= s.len(),
    ensures
        flat_list(s.subrange(0, i)).len() <= flat_list(s).len(),
        flat(s[i - 1]).len() <= flat_list(s).len(),
    decreases s.len(),
{
    if i < s.len() {
        lemma_flat_list_prefix(s.drop_last(), i);
        assert(s.drop_last().subrange(0, i) =~= s.subrange(0, i));
    } else {
        assert(s.subrange(0, i) =~= s);
    }
}

/// A cycle that is played zero times expands into nothing, whatever it holds.
pub proof fn lemma_zero_times_is_empty(a: Atom)
    requires
        a is Cycle,
        a->times == 0,
    ensures
        flat(a) == Seq::<Particle>::empty(),
{
}

/// An atom expands into as many particles as it holds singletons, each
/// counted once for every pass of every cycle around it.
pub proof fn lemma_flat_len(a: Atom)
    ensures
        flat(a).len() == particle_count(a),
    decreases a,
{
    match a {
        Atom::Singleton(_) => {},
        Atom::Cycle { atoms, times, .. } => {
            lemma_flat_list_len(atoms@);
            lemma_repeat_len(flat_list(atoms@), times as nat);
        },
    }
}

/// A list of atoms expands into the sum of what each atom expands into.
pub proof fn lemma_flat_list_len(s: Seq<Atom>)
    ensures
        flat_list(s).len() == particle_count_list(s),
    decreases s,
{
    if s.len() > 0 {
        lemma_flat_list_len(s.drop_last());
        lemma_flat_len(s.last());
    }
}

} // verus!
