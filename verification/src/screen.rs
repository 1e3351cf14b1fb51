//! Plain descriptions of what a frame shows. The rules fill them in; the
//! caller turns them into draw calls.

use crate::difficulty::Difficulty;
use vstd::prelude::*;

verus! {

/// Width of the playing field, in columns.
pub const SCREEN_WIDTH: i32 = 80;

/// Height of the playing field, in rows.
pub const SCREEN_HEIGHT: i32 = 50;

/// One glyph to draw: a column and a row on the screen and an index into the
/// code page 437 font.
#[derive(Clone, Copy, Debug, PartialEq, Eq, Structural)]
pub struct Cell {
    pub x: i32,
    pub y: i32,
    pub glyph: u16,
}

/// One line of the high-score screen: the place in the table, counted from 1,
/// the difficulty and the score of the run, and its duration as whole minutes
/// and the whole seconds beyond them.
#[derive(Clone, Copy, Debug, PartialEq, Eq, Structural)]
pub struct RecordRow {
    pub rank: usize,
    pub difficulty: Difficulty,
    pub score: i32,
    pub minutes: u64,
    pub seconds: u64,
}

/// What the screen shows while a run is on: the difficulty and the score as
/// text, the player's glyph and the glyphs of the obstacle ahead.
#[derive(Debug)]
pub struct PlayingScreen {
    pub difficulty: Difficulty,
    pub score: i32,
    pub player: Cell,
    pub obstacle: Vec<Cell>,
}

/// A [`PlayingScreen`] with its glyphs as a sequence.
pub struct PlayingScreenModel {
    pub difficulty: Difficulty,
    pub score: i32,
    pub player: Cell,
    pub obstacle: Seq<Cell>,
}

impl View for PlayingScreen {
    type V = PlayingScreenModel;

    open spec fn view(&self) -> PlayingScreenModel {
        PlayingScreenModel {
            difficulty: self.difficulty,
            score: self.score,
            player: self.player,
            obstacle: self.obstacle@,
        }
    }
}

/// What a frame shows. The menus carry no data: their text is fixed. The
/// end-of-run screen shows the score reached and the high-score screen one
/// line for each record.
#[derive(Debug)]
pub enum Screen {
    MainMenu,
    Playing(PlayingScreen),
    End { score: i32 },
    Records { rows: Vec<RecordRow> },
    DifficultySelect,
}

/// A [`Screen`] with its lists as sequences.
pub enum ScreenModel {
    MainMenu,
    Playing(PlayingScreenModel),
    End { score: i32 },
    Records { rows: Seq<RecordRow> },
    DifficultySelect,
}

impl View for Screen {
    type V = ScreenModel;

    open spec fn view(&self) -> ScreenModel {
        match *self {
            Screen::MainMenu => ScreenModel::MainMenu,
            Screen::Playing(shown) => ScreenModel::Playing(shown@),
            Screen::End { score } => ScreenModel::End { score },
            Screen::Records { rows } => ScreenModel::Records { rows: rows@ },
            Screen::DifficultySelect => ScreenModel::DifficultySelect,
        }
    }
}

/// The outcome of one tick as far as the caller has to act on it: what to
/// draw, and whether the player has asked to leave.
#[derive(Debug)]
pub struct Frame {
    pub screen: Screen,
    pub quitting: bool,
}

} // verus!
