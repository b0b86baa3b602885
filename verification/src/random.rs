//! The caller's randomness callback, and the record of its runs.
//!
//! The callback and the record are private to this file, so that the only way
//! to run the callback from anywhere else is [`RandomSource::next_byte`], which
//! writes each run down.  What a contract elsewhere says of the record it
//! therefore says of the runs.

use vstd::prelude::*;

verus! {

/// The caller's source of random bytes: a callback without arguments that
/// returns one byte each time it runs.  The source keeps a record of the bytes
/// that the callback has returned to this crate, in the order of the calls.
pub struct RandomSource<G: Fn() -> u8> {
    gen: G,
    drawn: Ghost<Seq<u8>>,
}

impl<G: Fn() -> u8> RandomSource<G> {
    #[verifier::type_invariant]
    spec fn callable(self) -> bool {
        call_requires(self.gen, ())
    }

    /// The callback.
    pub closed spec fn callback(&self) -> G {
        self.gen
    }

    /// The bytes that the callback has returned so far, oldest first: one for
    /// each time it ran.
    pub closed spec fn drawn(&self) -> Seq<u8> {
        self.drawn@
    }

    /// A source around `gen`, which has not run yet.
    pub fn new(gen: G) -> (source: Self)
        requires
            call_requires(gen, ()),
        ensures
            source.callback() == gen,
            source.drawn() == Seq::<u8>::empty(),
    {
        RandomSource { gen, drawn: Ghost(Seq::empty()) }
    }

    /// Runs the callback once.
    pub fn next_byte(&mut self) -> (byte: u8)
        ensures
            call_ensures(old(self).callback(), (), byte),
            final(self).callback() == old(self).callback(),
            final(self).drawn() == old(self).drawn().push(byte),
    {
        proof {
            use_type_invariant(&*self);
        }
        let byte: u8 = (self.gen)();
        proof {
            self.drawn@ = self.drawn@.push(byte);
        }
        byte
    }
}

} // verus!
