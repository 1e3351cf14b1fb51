//! The player: a position and a vertical velocity, moved by gravity and by
//! flapping.

use crate::bracket::cp437;
use crate::difficulty::Difficulty;
use crate::screen::Cell;
use bracket_lib::prelude::to_cp437;
use vstd::prelude::*;

verus! {

/// Units of velocity that make one row per step. Every speed in the game is a
/// whole number of tenths of a row per step, so velocities are held exactly.
pub const TENTHS_PER_ROW: i32 = 10;

/// Velocity gained per step while the player is below terminal speed, in
/// tenths of a row per step.
pub const GRAVITY: i32 = 2;

/// Velocity right after a flap, in tenths of a row per step. Negative is up.
pub const FLAP_VELOCITY: i32 = -20;

/// The player. `x` counts the columns travelled, `y` is the row (0 is the top
/// of the screen) and `velocity` is the vertical speed in tenths of a row per
/// step, positive when falling.
#[derive(Clone, Copy, Debug, PartialEq, Eq, Structural)]
pub struct Player {
    pub x: i32,
    pub y: i32,
    pub velocity: i32,
}

/// The player as three unbounded integers, in the same units as [`Player`].
pub struct PlayerModel {
    pub x: int,
    pub y: int,
    pub velocity: int,
}

/// Whole rows covered in one step at the given velocity: the velocity in rows,
/// with the fraction dropped (rounding towards zero).
pub open spec fn rows_per_step(velocity: int) -> int {
    if velocity >= 0 {
        velocity / (TENTHS_PER_ROW as int)
    } else {
        -((-velocity) / (TENTHS_PER_ROW as int))
    }
}

impl PlayerModel {
    /// Where every session starts: at rest in the top left corner.
    pub open spec fn start() -> PlayerModel {
        PlayerModel { x: 0, y: 0, velocity: 0 }
    }

    /// The velocity after gravity has acted for one step: it grows by
    /// [`GRAVITY`] unless the terminal speed has been reached.
    pub open spec fn pulled(self, difficulty: Difficulty) -> int {
        if self.velocity < difficulty.max_fall_speed() {
            self.velocity + GRAVITY
        } else {
            self.velocity
        }
    }

    /// The player one step later: gravity acts, the player falls by the whole
    /// rows of the new velocity but never rises above row 0, and moves right
    /// by the difficulty's horizontal speed.
    pub open spec fn moved(self, difficulty: Difficulty) -> PlayerModel {
        let velocity = self.pulled(difficulty);
        let y = self.y + rows_per_step(velocity);
        PlayerModel {
            x: self.x + difficulty.horizontal_speed(),
            y: if y < 0 { 0 } else { y },
            velocity,
        }
    }

    /// The player after a flap: only the velocity changes.
    pub open spec fn flapped(self) -> PlayerModel {
        PlayerModel { velocity: FLAP_VELOCITY as int, ..self }
    }

    /// The player after `n` steps without a flap.
    pub open spec fn moved_times(self, difficulty: Difficulty, n: nat) -> PlayerModel
        decreases n,
    {
        if n == 0 {
            self
        } else {
            self.moved_times(difficulty, (n - 1) as nat).moved(difficulty)
        }
    }

    /// The model can be stored in a [`Player`].
    pub open spec fn fits(self) -> bool {
        &&& i32::MIN <= self.x <= i32::MAX
        &&& i32::MIN <= self.y <= i32::MAX
        &&& i32::MIN <= self.velocity <= i32::MAX
    }
}

impl View for Player {
    type V = PlayerModel;

    open spec fn view(&self) -> PlayerModel {
        PlayerModel { x: self.x as int, y: self.y as int, velocity: self.velocity as int }
    }
}

impl Player {
    /// A player at rest in the top left corner. Every session starts there,
    /// whatever position is asked for.
    pub fn new(_x: i32, _y: i32) -> (p: Player)
        ensures
            p@ == PlayerModel::start(),
    {
        Player { x: 0, y: 0, velocity: 0 }
    }

    /// The glyph that shows the player: an `@` in the leftmost column, on the
    /// player's row.
    pub fn render(&self) -> (cell: Cell)
        ensures
            cell == (Cell { x: 0, y: self.y, glyph: cp437('@') }),
    {
        Cell { x: 0, y: self.y, glyph: to_cp437('@') }
    }

    /// Advances the player by one step; see [`PlayerModel::moved`].
    ///
    /// The new position has to be representable, which is all that the
    /// precondition asks.
    pub fn move_down(&mut self, difficulty: &Difficulty)
        requires
            old(self)@.moved(*difficulty).fits(),
        ensures
            final(self)@ == old(self)@.moved(*difficulty),
            final(self).y >= 0,
            final(self).x > old(self).x,
            final(self).velocity >= old(self).velocity,
    {
        if self.velocity < difficulty.max_fall_speed() {
            self.velocity += GRAVITY;
        }
        let rows: i32 = if self.velocity >= 0 {
            self.velocity / TENTHS_PER_ROW
        } else {
            -((-self.velocity) / TENTHS_PER_ROW)
        };
        let y: i64 = self.y as i64 + rows as i64;
        self.y = if y < 0 { 0 } else { y as i32 };
        self.x += difficulty.horizontal_speed();
    }

    /// Gives the player an upward impulse: the velocity becomes
    /// [`FLAP_VELOCITY`], the position stays.
    pub fn flap(&mut self)
        ensures
            final(self)@ == old(self)@.flapped(),
    {
        self.velocity = FLAP_VELOCITY;
    }
}

/// Steps of gravity that it takes to bring a velocity to terminal speed or
/// just beyond it.
pub open spec fn steps_to_terminal(velocity: int, difficulty: Difficulty) -> int {
    if velocity >= difficulty.max_fall_speed() {
        0
    } else {
        (difficulty.max_fall_speed() - velocity + GRAVITY - 1) / (GRAVITY as int)
    }
}

/// Without a flap the velocity climbs by [`GRAVITY`] per step for
/// [`steps_to_terminal`] steps and then stays where it is.
pub proof fn lemma_velocity_after_steps(p: PlayerModel, difficulty: Difficulty, n: nat)
    ensures
        p.moved_times(difficulty, n).velocity == p.velocity + GRAVITY * if n
            <= steps_to_terminal(p.velocity, difficulty) {
            n as int
        } else {
            steps_to_terminal(p.velocity, difficulty)
        },
    decreases n,
{
    if n > 0 {
        lemma_velocity_after_steps(p, difficulty, (n - 1) as nat);
    }
}

/// Without a flap the velocity never decreases from one step to a later one.
pub proof fn lemma_fall_never_slows(p: PlayerModel, difficulty: Difficulty, n: nat, m: nat)
    requires
        n <= m,
    ensures
        p.moved_times(difficulty, n).velocity <= p.moved_times(difficulty, m).velocity,
{
    lemma_velocity_after_steps(p, difficulty, n);
    lemma_velocity_after_steps(p, difficulty, m);
}

/// Without a flap the velocity stays at or below terminal speed, provided
/// that it starts there and that its distance to terminal speed is a whole
/// number of gravity steps. Where that distance is not whole, the last step
/// of gravity carries the velocity past terminal speed, by less than
/// [`GRAVITY`]; see [`lemma_fall_overshoots_by_less_than_gravity`].
pub proof fn lemma_fall_stays_within_terminal(p: PlayerModel, difficulty: Difficulty, n: nat)
    requires
        p.velocity <= difficulty.max_fall_speed(),
        (difficulty.max_fall_speed() - p.velocity) % (GRAVITY as int) == 0,
    ensures
        p.moved_times(difficulty, n).velocity <= difficulty.max_fall_speed(),
        n >= steps_to_terminal(p.velocity, difficulty) ==> p.moved_times(
            difficulty,
            n,
        ).velocity == difficulty.max_fall_speed(),
{
    lemma_velocity_after_steps(p, difficulty, n);
}

/// Without a flap a velocity that starts at or below terminal speed never
/// gets a full gravity step beyond it.
pub proof fn lemma_fall_overshoots_by_less_than_gravity(
    p: PlayerModel,
    difficulty: Difficulty,
    n: nat,
)
    requires
        p.velocity <= difficulty.max_fall_speed(),
    ensures
        p.moved_times(difficulty, n).velocity < difficulty.max_fall_speed() + GRAVITY,
{
    lemma_velocity_after_steps(p, difficulty, n);
}

/// After at least one step the player is on the screen's top row or below it,
/// wherever it started and however fast it was rising.
pub proof fn lemma_never_above_top(p: PlayerModel, difficulty: Difficulty, n: nat)
    requires
        n >= 1,
    ensures
        p.moved_times(difficulty, n).y >= 0,
{
}

/// A flap makes the player rise on the next step: the velocity is negative
/// afterwards and the player goes up one row, unless it is on the top row
/// already. That is strictly higher than where the step would have taken the
/// player without the flap, except when the player would have risen anyway or
/// would have ended on the top row, above which nothing can be.
pub proof fn lemma_flap_lifts(p: PlayerModel, difficulty: Difficulty)
    ensures
        p.flapped().moved(difficulty).velocity == FLAP_VELOCITY + GRAVITY,
        p.flapped().moved(difficulty).velocity < 0,
        p.flapped().moved(difficulty).y == if p.y >= 1 {
            p.y - 1
        } else {
            0
        },
        p.flapped().moved(difficulty).y < p.moved(difficulty).y <==> p.moved(difficulty).y > 0
            && p.pulled(difficulty) > -TENTHS_PER_ROW,
{
}

} // verus!
