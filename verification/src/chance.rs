//! The one place where chance enters: which piece comes next.

use vstd::prelude::*;
use crate::shapes::PIECES;

verus! {

/// `rand::rngs::ThreadRng`, the handle to the generator of random numbers
/// that `rand` keeps for each thread. Nothing inside it is looked at.
#[verifier::external_type_specification]
#[verifier::external_body]
pub struct ExThreadRng(rand::rngs::ThreadRng);

/// `rand::thread_rng()`: the handle to the running thread's generator.
/// Nothing is stated of it.
#[verifier::external_body]
fn thread_generator() -> (rng: rand::rngs::ThreadRng) {
    rand::thread_rng()
}

/// `rand::Rng::gen::<usize>()` on the thread's generator: the number it
/// draws next. That can be any `usize`, so nothing is stated of it.
#[verifier::external_body]
fn next_usize(rng: &mut rand::rngs::ThreadRng) -> (raw: usize) {
    rand::Rng::gen::<usize>(rng)
}

/// A number drawn by chance.
pub(crate) fn random_usize() -> (raw: usize) {
    let mut rng = thread_generator();
    next_usize(&mut rng)
}

/// The index of the piece that a drawn number selects: its remainder by
/// the size of the catalog.
pub fn piece_index(raw: usize) -> (index: usize)
    ensures
        index == raw % PIECES,
        index < PIECES,
{
    raw % PIECES
}

/// The index of a piece chosen by chance.
pub fn random_index() -> (index: usize)
    ensures
        index < PIECES,
{
    piece_index(random_usize())
}

} // verus!
