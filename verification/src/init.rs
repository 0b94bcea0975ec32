//! Levels at which init hooks run.
//!
//! The levels that the kernel defines lie far apart, so that a hook can ask
//! to run shortly before or after the hooks of a level by moving its own
//! level a little.
use vstd::prelude::*;

verus! {

/// A level in the order of init hooks; hooks of a lower level run first.
#[allow(non_camel_case_types)]
#[derive(Clone, Copy, Debug, PartialEq, Eq, Structural)]
pub struct lk_init_level(pub u32);

impl lk_init_level {
    /// The level `rhs` steps later.
    pub fn add(self, rhs: u32) -> (level: Self)
        requires
            self.0 + rhs <= u32::MAX,
        ensures
            level.0 == self.0 + rhs,
    {
        lk_init_level(self.0 + rhs)
    }

    /// The level `rhs` steps earlier.
    pub fn sub(self, rhs: u32) -> (level: Self)
        requires
            rhs <= self.0,
        ensures
            level.0 == self.0 - rhs,
    {
        lk_init_level(self.0 - rhs)
    }
}

/// Moving a level later and then as far earlier, or the other way round,
/// gives the level back.
pub proof fn lemma_add_sub_inverse(level: lk_init_level, rhs: u32)
    ensures
        level.0 + rhs <= u32::MAX ==> (level.0 + rhs) - rhs == level.0,
        rhs <= level.0 ==> (level.0 - rhs) + rhs == level.0,
{
}

} // verus!
