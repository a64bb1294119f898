//! The gameplay scene's cross-scene progress: the ingredient counter and
//! the bonus score. The gameplay rules themselves live outside this
//! library; they report their progress here and request transitions
//! through the driver.

use vstd::prelude::*;

verus! {

/// Progress accumulated during play, owned by the driver and shared
/// across scenes.
#[derive(Debug, Clone, Copy)]
pub struct Game {
    /// Ingredients collected in the current playthrough.
    pub ingredients: u32,
    /// Bonus score, read by the ending scene.
    pub bonus: u32,
}

impl Game {
    pub fn init() -> (g: Game)
        ensures
            g.ingredients == 0,
            g.bonus == 0,
    {
        Game { ingredients: 0, bonus: 0 }
    }

    /// Starts a fresh playthrough: all progress cleared.
    pub fn reset(&mut self)
        ensures
            final(self).ingredients == 0,
            final(self).bonus == 0,
    {
        self.ingredients = 0;
        self.bonus = 0;
    }

    /// Records one collected ingredient.
    pub fn add_ingredient(&mut self)
        requires
            old(self).ingredients < u32::MAX,
        ensures
            final(self).ingredients == old(self).ingredients + 1,
            final(self).bonus == old(self).bonus,
    {
        self.ingredients = self.ingredients + 1;
    }

    /// Adds to the bonus score.
    pub fn add_bonus(&mut self, points: u32)
        requires
            old(self).bonus + points <= u32::MAX,
        ensures
            final(self).bonus == old(self).bonus + points,
            final(self).ingredients == old(self).ingredients,
    {
        self.bonus = self.bonus + points;
    }
}

} // verus!
