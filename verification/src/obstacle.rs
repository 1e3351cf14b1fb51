//! Obstacles: a column that blocks every row except for a gap, placed and
//! sized at random within bounds that tighten as the score grows.

use crate::bracket::cp437;
use crate::bracket::draw;
use crate::difficulty::Difficulty;
use crate::player::Player;
use crate::player::PlayerModel;
use crate::screen::Cell;
use crate::screen::SCREEN_HEIGHT;
use bracket_lib::prelude::to_cp437;
use bracket_lib::prelude::RandomNumberGenerator;
use vstd::prelude::*;

verus! {

/// Rows at the top and at the bottom of the screen in which no gap is
/// centred.
pub const GAP_MARGIN: i32 = 10;

/// Exclusive upper bound of a gap's size at score 0. Each point scored lowers
/// the bound by one, down to the difficulty's smallest gap.
pub const WIDEST_GAP: i32 = 20;

/// An obstacle: the column `x` it stands in, the row `y` on which its gap is
/// centred and the `size` of the gap.
#[derive(Clone, Copy, Debug, PartialEq, Eq, Structural)]
pub struct Object {
    pub x: i32,
    pub y: i32,
    pub size: i32,
}

/// Half of a gap's size, with the fraction dropped (rounding towards zero).
pub open spec fn half_gap(size: int) -> int {
    if size >= 0 {
        size / 2
    } else {
        -((-size) / 2)
    }
}

/// Exclusive upper bound of the gap size of an obstacle made at the given
/// score: [`WIDEST_GAP`] less the score, but never below the difficulty's
/// smallest gap.
pub open spec fn max_gap(score: int, difficulty: Difficulty) -> int {
    if WIDEST_GAP - score >= difficulty.min_gap() {
        WIDEST_GAP - score
    } else {
        difficulty.min_gap() as int
    }
}

/// The letter that an obstacle shows on a screen row: the letters of HELLO in
/// turn, each on two rows in a row.
pub open spec fn banner_letter(row: int) -> char {
    let turn = (row / 2) % 5;
    if turn == 0 {
        'H'
    } else if turn == 1 {
        'E'
    } else if turn == 4 {
        'O'
    } else {
        'L'
    }
}

impl Object {
    /// What holds of every obstacle that [`Object::new`] makes, at any score
    /// and difficulty: the gap is centred away from the screen's edges and is
    /// at least as large as the smallest gap of the hardest difficulty.
    pub open spec fn wf(&self) -> bool {
        &&& GAP_MARGIN <= self.y < SCREEN_HEIGHT - GAP_MARGIN
        &&& self.size >= Difficulty::Hard.min_gap()
    }

    /// The obstacle may have been made for column `x` at the given score and
    /// difficulty: it stands in that column, its gap is centred at least
    /// [`GAP_MARGIN`] rows from either edge, and the gap's size is at least the
    /// difficulty's smallest gap and below [`max_gap`]. Where the two bounds
    /// coincide the size is the smallest gap.
    pub open spec fn fresh(&self, x: int, score: int, difficulty: Difficulty) -> bool {
        &&& self.x == x
        &&& GAP_MARGIN <= self.y < SCREEN_HEIGHT - GAP_MARGIN
        &&& difficulty.min_gap() <= self.size
        &&& self.size < max_gap(score, difficulty) || self.size == difficulty.min_gap()
    }

    /// First row of the gap.
    pub open spec fn gap_top(&self) -> int {
        self.y - half_gap(self.size as int)
    }

    /// Last row of the gap.
    pub open spec fn gap_bottom(&self) -> int {
        self.y + half_gap(self.size as int)
    }

    /// The player is in the obstacle's column and outside of its gap.
    pub open spec fn hits(&self, player: PlayerModel) -> bool {
        &&& player.x == self.x
        &&& player.y < self.gap_top() || player.y > self.gap_bottom()
    }

    /// Rows that the part above the gap covers on the screen.
    pub open spec fn rows_above(&self) -> int {
        if self.gap_top() > 0 {
            self.gap_top()
        } else {
            0
        }
    }

    /// Rows that the part below the gap covers on the screen.
    pub open spec fn rows_below(&self) -> int {
        if self.gap_bottom() < SCREEN_HEIGHT {
            SCREEN_HEIGHT - self.gap_bottom()
        } else {
            0
        }
    }

    /// The glyphs that show the obstacle to a player in column `playerx`:
    /// first the rows from the top of the screen down to the gap, then the
    /// rows from the gap's last row down to the bottom of the screen. All of
    /// them are in the screen column that is the obstacle's distance from the
    /// player, and each shows the [`banner_letter`] of its row.
    pub open spec fn cells(&self, playerx: int) -> Seq<Cell> {
        Seq::new(
            (self.rows_above() + self.rows_below()) as nat,
            |i: int|
                {
                    let row = if i < self.rows_above() {
                        i
                    } else {
                        self.gap_bottom() + (i - self.rows_above())
                    };
                    Cell {
                        x: (self.x - playerx) as i32,
                        y: row as i32,
                        glyph: cp437(banner_letter(row)),
                    }
                },
        )
    }

    /// Makes an obstacle for column `x` with a generator of its own, seeded by
    /// the operating system.
    ///
    /// The precondition keeps the bound on the gap's size representable; any
    /// score that is not negative meets it.
    pub fn new(x: i32, score: i32, difficulty: Difficulty) -> (o: Object)
        requires
            WIDEST_GAP - score <= i32::MAX,
        ensures
            o.fresh(x as int, score as int, difficulty),
            o.wf(),
    {
        let mut random = RandomNumberGenerator::new();
        Object::with_rng(x, score, difficulty, &mut random)
    }

    /// Makes an obstacle for column `x`, drawing first the gap's centre and
    /// then its size from `random`. Where the size's bounds leave a single
    /// value, that value is taken and nothing is drawn for it.
    pub fn with_rng(
        x: i32,
        score: i32,
        difficulty: Difficulty,
        random: &mut RandomNumberGenerator,
    ) -> (o: Object)
        requires
            WIDEST_GAP - score <= i32::MAX,
        ensures
            o.fresh(x as int, score as int, difficulty),
            o.wf(),
    {
        let min_size = difficulty.min_gap();
        let open = WIDEST_GAP - score;
        let max_size = if open >= min_size { open } else { min_size };
        let y = draw(random, GAP_MARGIN, SCREEN_HEIGHT - GAP_MARGIN);
        let size = if min_size < max_size {
            draw(random, min_size, max_size)
        } else {
            min_size
        };
        Object { x, y, size }
    }

    /// Whether the obstacle is valid; see [`Object::wf`].
    pub fn is_valid(&self) -> (valid: bool)
        ensures
            valid == self.wf(),
    {
        GAP_MARGIN <= self.y && self.y < SCREEN_HEIGHT - GAP_MARGIN && self.size
            >= Difficulty::Hard.min_gap()
    }

    /// Whether the player has run into the obstacle: it is exactly in the
    /// obstacle's column, and above the first or below the last row of the
    /// gap. A player that is past the column or short of it never hits.
    pub fn hit(&self, player: &Player) -> (r: bool)
        ensures
            r == self.hits(player@),
    {
        let half: i64 = if self.size >= 0 {
            (self.size / 2) as i64
        } else {
            -((-(self.size as i64)) / 2)
        };
        let does_x_match = player.x == self.x;
        let is_player_above = (player.y as i64) < self.y as i64 - half;
        let is_player_below = player.y as i64 > self.y as i64 + half;
        does_x_match && (is_player_above || is_player_below)
    }

    /// The glyphs that show the obstacle to a player in column `playerx`; see
    /// [`Object::cells`].
    ///
    /// The obstacle's distance from the player has to be representable.
    pub fn render(&self, playerx: i32) -> (cells: Vec<Cell>)
        requires
            self.wf(),
            i32::MIN <= self.x - playerx <= i32::MAX,
        ensures
            cells@ == self.cells(playerx as int),
    {
        let screenx = self.x - playerx;
        let halfsize = self.size / 2;
        let mut cells: Vec<Cell> = Vec::new();
        let mut y: i32 = 0;
        while y < self.y - halfsize
            invariant
                self.wf(),
                halfsize == half_gap(self.size as int),
                0 <= y <= self.rows_above(),
                cells@ == self.cells(playerx as int).take(y as int),
                screenx == self.x - playerx,
            decreases self.rows_above() - y,
        {
            cells.push(Cell { x: screenx, y, glyph: banner_glyph(y) });
            y += 1;
        }
        let ghost above = self.rows_above();
        let mut y: i32 = self.y + halfsize;
        while y < SCREEN_HEIGHT
            invariant
                self.wf(),
                halfsize == half_gap(self.size as int),
                above == self.rows_above(),
                self.gap_bottom() <= y,
                cells@ == self.cells(playerx as int).take(
                    above + if y < SCREEN_HEIGHT {
                        y - self.gap_bottom()
                    } else {
                        self.rows_below()
                    },
                ),
                screenx == self.x - playerx,
            decreases SCREEN_HEIGHT - y,
        {
            cells.push(Cell { x: screenx, y, glyph: banner_glyph(y) });
            y += 1;
        }
        cells
    }
}

/// The glyph of the [`banner_letter`] of a screen row.
fn banner_glyph(row: i32) -> (glyph: u16)
    requires
        row >= 0,
    ensures
        glyph == cp437(banner_letter(row as int)),
{
    let turn = (row / 2) % 5;
    let letter = if turn == 0 {
        'H'
    } else if turn == 1 {
        'E'
    } else if turn == 4 {
        'O'
    } else {
        'L'
    };
    to_cp437(letter)
}

} // verus!
