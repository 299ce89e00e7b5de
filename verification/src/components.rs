use vstd::prelude::*;

verus! {

/// Points awarded for each asteroid shot down.
pub const POINTS_PER_HIT: u32 = 10;

/// Points needed to climb one speed level.
pub const SCORE_PER_LEVEL: u32 = 100;

/// State of the current run.
pub struct GameState {
    pub score: u32,
    pub speed_level: u32,
    pub game_over: bool,
}

impl GameState {
    /// The speed level that a score earns: one level per `SCORE_PER_LEVEL`
    /// points, starting at level 1.
    pub open spec fn level_for(score: int) -> int {
        score / (SCORE_PER_LEVEL as int) + 1
    }

    /// A state that play can reach: the level is the one that the score
    /// earns, and the score is a whole number of hits.
    pub open spec fn well_formed(self) -> bool {
        &&& self.speed_level == Self::level_for(self.score as int)
        &&& self.score % POINTS_PER_HIT == 0
    }
}

impl GameState {
    /// Scores one asteroid shot down: `POINTS_PER_HIT` more points, and the
    /// speed level rises to the one that the new score earns if that is higher.
    pub fn register_hit(&mut self)
        requires
            old(self).score + POINTS_PER_HIT <= u32::MAX,
        ensures
            final(self).score == old(self).score + POINTS_PER_HIT,
            final(self).speed_level == max_level(
                old(self).speed_level as int,
                Self::level_for(final(self).score as int),
            ),
            final(self).game_over == old(self).game_over,
            old(self).well_formed() ==> final(self).well_formed(),
    {
        self.score = self.score + POINTS_PER_HIT;
        let new_level = self.score / SCORE_PER_LEVEL + 1;
        if new_level > self.speed_level {
            self.speed_level = new_level;
        }
    }

    /// Whether asteroids spawn and fall: only while the run is not over.
    pub fn asteroids_active(&self) -> (active: bool)
        ensures
            active == !self.game_over,
    {
        !self.game_over
    }

    /// How many speed increments the falling asteroids get above the base
    /// speed: one per level above the first.
    pub fn speed_steps(&self) -> (steps: u32)
        requires
            self.speed_level >= 1,
        ensures
            steps == self.speed_level - 1,
            self.well_formed() ==> steps == self.score / SCORE_PER_LEVEL,
    {
        self.speed_level - 1
    }
}

/// A higher score never earns a lower level, and a well-formed state is at
/// level 1 or above.
pub proof fn law_level_monotone(s1: int, s2: int)
    requires
        0 <= s1 <= s2,
    ensures
        GameState::level_for(s1) <= GameState::level_for(s2),
        GameState::level_for(s1) >= 1,
{
}

/// The larger of two levels.
pub open spec fn max_level(a: int, b: int) -> int {
    if a >= b { a } else { b }
}

impl Default for GameState {
    fn default() -> (s: Self)
        ensures
            s.score == 0,
            s.speed_level == 1,
            !s.game_over,
            s.well_formed(),
    {
        GameState { score: 0, speed_level: 1, game_over: false }
    }
}

/// Best score so far, and whether the run that just ended set it.
pub struct HighScore {
    pub score: u32,
    pub is_new_record: bool,
}

impl Default for HighScore {
    fn default() -> (h: Self)
        ensures
            h.score == 0,
            !h.is_new_record,
    {
        HighScore { score: 0, is_new_record: false }
    }
}

/// Marks the player's ship.
pub struct Player;

/// Marks a wing of the player's ship.
pub struct PlayerWing;

/// Marks the engine flame of the player's ship.
pub struct EngineFlame;

/// Marks a bullet.
pub struct Bullet;

/// Marks an asteroid.
pub struct Asteroid;

/// Marks a background star.
pub struct Star;

/// Marks the running score text.
pub struct ScoreText;

/// Marks the game-over screen.
pub struct GameOverUI;

/// Marks the restart button of the game-over screen.
pub struct RestartButton;

/// Marks the play-again button of the game-over screen.
pub struct PlayAgainButton;

} // verus!
