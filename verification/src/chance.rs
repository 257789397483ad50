//! Random draws. Everything the library decides by chance goes through here,
//! so that the decisions themselves can be stated for every possible draw.

use crate::models::Method;
use rand::seq::SliceRandom;
use rand::Rng;
use vstd::prelude::*;

verus! {

/// Upper bound, exclusive, of a percentage roll.
pub const ROLL_LIMIT: u64 = 100;

/// Draws a number from `low..=high` with `rand::Rng::gen_range` on the
/// thread-local generator.
///
/// Trusted: the draw lies within the bounds asked for. `gen_range` panics on an
/// empty range, which `low <= high` rules out. Nothing is claimed about which
/// number comes out.
#[verifier::external_body]
pub(crate) fn uniform_between(low: u64, high: u64) -> (drawn: u64)
    requires
        low <= high,
    ensures
        low <= drawn <= high,
{
    rand::thread_rng().gen_range(low..=high)
}

/// Picks one of `methods` with `rand::seq::SliceRandom::choose` on the
/// thread-local generator and hands out a copy of its id.
///
/// Trusted: nothing is picked from an empty list, and what is picked from any
/// other list is the id of one of its methods. Which one is left open.
#[verifier::external_body]
pub(crate) fn choose_method_id(methods: &Vec<Method>) -> (chosen: Option<String>)
    ensures
        methods@.len() == 0 <==> chosen is None,
        chosen matches Some(id) ==> exists|i: int|
            0 <= i < methods@.len() && (#[trigger] methods@[i]).id@ == id@,
{
    methods.choose(&mut rand::thread_rng()).map(|method| method.id.clone())
}

/// Draws a position in a list of `len` entries.
pub fn pick_index(len: usize) -> (at: usize)
    requires
        0 < len,
    ensures
        at < len,
{
    uniform_between(0, (len - 1) as u64) as usize
}

/// Rolls a whole percentage in `[0, 100)`.
pub fn roll_percent() -> (roll: u64)
    ensures
        roll < ROLL_LIMIT,
{
    uniform_between(0, ROLL_LIMIT - 1)
}

} // verus!
