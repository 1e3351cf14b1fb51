//! The game as a whole: which mode it is in, what a key does in each mode, and
//! how a run advances from tick to tick.

use crate::bracket::cp437;
use crate::difficulty::Difficulty;
use crate::obstacle::Object;
use crate::player::Player;
use crate::player::PlayerModel;
use crate::player::GRAVITY;
use crate::records::kept;
use crate::records::lemma_with_record_members;
use crate::records::lemma_with_record_wf;
use crate::records::table_wf;
use crate::records::with_record;
use crate::records::GameRecord;
use crate::records::RecordTable;
use crate::records::MAX_RECORDS;
use crate::screen::Cell;
use crate::screen::Frame;
use crate::screen::PlayingScreen;
use crate::screen::PlayingScreenModel;
use crate::screen::RecordRow;
use crate::screen::Screen;
use crate::screen::ScreenModel;
use crate::screen::SCREEN_HEIGHT;
use crate::screen::SCREEN_WIDTH;
use vstd::prelude::*;

verus! {

/// Length of one simulation step, in microseconds: the player moves once for
/// every 75 ms of elapsed time, however often the screen is drawn.
pub const FRAME_DURATION: u64 = 75_000;

/// Ticks for which the high-score screen ignores the keyboard after it has
/// come up, so that the key that opened it does not close it again.
pub const RECORDS_DEBOUNCE: i32 = 10;

/// The modes of the game.
#[derive(Clone, Copy, Debug, PartialEq, Eq, Structural)]
pub enum GameMode {
    MainMenu,
    Playing,
    End,
    Records,
    DifficultySelect,
}

/// The keys that mean something in some mode, and `Other` for the rest of the
/// keyboard.
#[derive(Clone, Copy, Debug, PartialEq, Eq, Structural)]
pub enum Key {
    /// Flap.
    Space,
    /// Start a run.
    F,
    /// Start a run, from the high-score screen only.
    P,
    /// Leave the game.
    Q,
    /// Show the high scores.
    T,
    /// Choose a difficulty.
    D,
    /// Back to the main menu.
    Escape,
    /// Difficulty Easy.
    Key1,
    /// Difficulty Normal.
    Key2,
    /// Difficulty Hard.
    Key3,
    /// Any other key.
    Other,
}

/// The state of the game.
pub struct Structtate {
    pub player: Player,
    /// Microseconds elapsed since the player last moved.
    pub frame_time: u64,
    pub mode: GameMode,
    pub object: Object,
    pub score: i32,
    pub game_records: RecordTable,
    /// Ticks spent on the high-score screen since it came up.
    pub record_page_frames: i32,
    pub difficulty: Difficulty,
}

/// The state of the game over unbounded integers, with the table of records
/// as a sequence.
pub struct GameModel {
    pub player: PlayerModel,
    pub frame_time: int,
    pub mode: GameMode,
    pub object: Object,
    pub score: int,
    pub records: Seq<GameRecord>,
    pub record_page_frames: int,
    pub difficulty: Difficulty,
}

/// The column, score and difficulty that a new obstacle is made for.
pub struct Spawn {
    pub x: int,
    pub score: int,
    pub difficulty: Difficulty,
}

impl View for Structtate {
    type V = GameModel;

    open spec fn view(&self) -> GameModel {
        GameModel {
            player: self.player@,
            frame_time: self.frame_time as int,
            mode: self.mode,
            object: self.object,
            score: self.score as int,
            records: self.game_records@,
            record_page_frames: self.record_page_frames as int,
            difficulty: self.difficulty,
        }
    }
}

impl GameModel {
    /// What holds of the state between ticks: the step timer is short of a
    /// full step, the score is not negative, the table of records and the
    /// obstacle are valid, the player is on or below the top row and, while a
    /// run is on, not below the screen, it falls no faster than gravity
    /// allows at any difficulty, and the obstacle is level with the player or
    /// ahead of it by at most a screen's width.
    pub open spec fn wf(self) -> bool {
        &&& 0 <= self.frame_time < FRAME_DURATION
        &&& 0 <= self.score
        &&& table_wf(self.records)
        &&& self.object.wf()
        &&& 0 <= self.player.y
        &&& self.mode == GameMode::Playing ==> self.player.y <= SCREEN_HEIGHT
        &&& self.player.velocity < Difficulty::Easy.max_fall_speed() + GRAVITY
        &&& self.player.x <= self.object.x <= self.player.x + SCREEN_WIDTH
    }

    /// The next tick stays within the range of the state's counters: in a
    /// run, the score and the columns travelled have room to grow, and on the
    /// high-score screen, the count of ticks has.
    pub open spec fn can_tick(self) -> bool {
        match self.mode {
            GameMode::Playing => {
                &&& self.score < i32::MAX
                &&& self.player.x + self.difficulty.horizontal_speed() + SCREEN_WIDTH <= i32::MAX
            },
            GameMode::Records => self.record_page_frames < i32::MAX,
            _ => true,
        }
    }

    /// A new run at the current difficulty, towards the obstacle `next`.
    pub open spec fn restarted(self, next: Object) -> GameModel {
        GameModel {
            player: PlayerModel::start(),
            frame_time: 0,
            mode: GameMode::Playing,
            object: next,
            score: 0,
            ..self
        }
    }

    /// The state after a tick on the main menu or on the end-of-run screen:
    /// `F` starts a run, `T` brings up the high scores, `D` the choice of
    /// difficulty. Any other key, `Q` included, leaves the state as it is.
    pub open spec fn after_menu(self, key: Option<Key>, next: Object) -> GameModel {
        match key {
            Some(Key::F) => self.restarted(next),
            Some(Key::T) => GameModel { record_page_frames: 0, mode: GameMode::Records, ..self },
            Some(Key::D) => GameModel { mode: GameMode::DifficultySelect, ..self },
            _ => self,
        }
    }

    /// The state after a tick on the high-score screen. The tick is counted.
    /// Once more than [`RECORDS_DEBOUNCE`] ticks have been counted a key
    /// closes the screen: `F` or `P` starts a run, any other key leads to the
    /// main menu and clears the count.
    pub open spec fn after_records(self, key: Option<Key>, next: Object) -> GameModel {
        let counted = GameModel { record_page_frames: self.record_page_frames + 1, ..self };
        if counted.record_page_frames > RECORDS_DEBOUNCE {
            match key {
                None => counted,
                Some(Key::F) | Some(Key::P) => counted.restarted(next),
                Some(_) => GameModel {
                    record_page_frames: 0,
                    mode: GameMode::MainMenu,
                    ..counted
                },
            }
        } else {
            counted
        }
    }

    /// The difficulty that a key chooses, if any.
    pub open spec fn chosen(key: Option<Key>) -> Option<Difficulty> {
        match key {
            Some(Key::Key1) => Some(Difficulty::Easy),
            Some(Key::Key2) => Some(Difficulty::Normal),
            Some(Key::Key3) => Some(Difficulty::Hard),
            _ => None,
        }
    }

    /// The state after a tick on the choice of difficulty: `1`, `2` and `3`
    /// set the difficulty and start a run, `Escape` leads to the main menu,
    /// and nothing else has an effect.
    pub open spec fn after_difficulty_select(self, key: Option<Key>, next: Object) -> GameModel {
        match Self::chosen(key) {
            Some(difficulty) => GameModel { difficulty, ..self }.restarted(next),
            None => if key == Some(Key::Escape) {
                GameModel { mode: GameMode::MainMenu, ..self }
            } else {
                self
            },
        }
    }

    /// Whether the player moves in a tick of a run that brings `elapsed`
    /// microseconds: the time since its last move has reached
    /// [`FRAME_DURATION`].
    pub open spec fn steps(self, elapsed: int) -> bool {
        self.frame_time + elapsed >= FRAME_DURATION
    }

    /// The step timer after a tick of a run: back to 0 when the player has
    /// moved, else advanced by the elapsed time.
    pub open spec fn timer_after(self, elapsed: int) -> int {
        if self.steps(elapsed) {
            0
        } else {
            self.frame_time + elapsed
        }
    }

    /// The player after a tick of a run: moved if a step is due, and then
    /// flapped if the key is `Space`.
    pub open spec fn player_after(self, key: Option<Key>, elapsed: int) -> PlayerModel {
        let moved = if self.steps(elapsed) {
            self.player.moved(self.difficulty)
        } else {
            self.player
        };
        if key == Some(Key::Space) {
            moved.flapped()
        } else {
            moved
        }
    }

    /// Whether the player gets past the obstacle in a tick of a run: it ends
    /// the tick in a column beyond the obstacle's.
    pub open spec fn passes(self, key: Option<Key>, elapsed: int) -> bool {
        self.player_after(key, elapsed).x > self.object.x
    }

    /// The score after a tick of a run: a point more if the player gets past
    /// the obstacle.
    pub open spec fn score_after(self, key: Option<Key>, elapsed: int) -> int {
        if self.passes(key, elapsed) {
            self.score + 1
        } else {
            self.score
        }
    }

    /// The record of a run that ends in this tick: the score with the point
    /// of this tick, if there is one, the current difficulty, and for the
    /// duration the step timer after the tick plus the time elapsed in it.
    /// The duration is a rough figure, not the time since the run began.
    pub open spec fn run_record(self, key: Option<Key>, elapsed: int) -> GameRecord {
        GameRecord {
            score: self.score_after(key, elapsed) as i32,
            duration: (self.timer_after(elapsed) + elapsed) as u64,
            difficulty: self.difficulty,
        }
    }

    /// The state after a tick of a run. The player moves and flaps. If it
    /// gets past the obstacle, that earns a point and `next` becomes the
    /// obstacle ahead. The run ends if the player is then below the screen or
    /// has hit the obstacle ahead of it, and its
    /// [`run_record`](GameModel::run_record) enters the table of records.
    pub open spec fn after_playing(self, key: Option<Key>, elapsed: int, next: Object) -> GameModel {
        let player = self.player_after(key, elapsed);
        let object = if self.passes(key, elapsed) {
            next
        } else {
            self.object
        };
        let over = player.y > SCREEN_HEIGHT || object.hits(player);
        GameModel {
            player,
            frame_time: self.timer_after(elapsed),
            object,
            score: self.score_after(key, elapsed),
            mode: if over {
                GameMode::End
            } else {
                self.mode
            },
            records: if over {
                with_record(self.records, self.run_record(key, elapsed))
            } else {
                self.records
            },
            ..self
        }
    }

    /// The state after a tick in the current mode. `next` is the obstacle
    /// that the tick makes, if it makes one; see [`GameModel::spawn`].
    pub open spec fn after_tick(self, key: Option<Key>, elapsed: int, next: Object) -> GameModel {
        match self.mode {
            GameMode::MainMenu | GameMode::End => self.after_menu(key, next),
            GameMode::Playing => self.after_playing(key, elapsed, next),
            GameMode::Records => self.after_records(key, next),
            GameMode::DifficultySelect => self.after_difficulty_select(key, next),
        }
    }

    /// What a new run's first obstacle is made for: a screen's width ahead of
    /// the start, at score 0.
    pub open spec fn first_spawn(difficulty: Difficulty) -> Spawn {
        Spawn { x: SCREEN_WIDTH as int, score: 0, difficulty }
    }

    /// What the tick makes a new obstacle for, if it makes one: a new run's
    /// first obstacle where the key starts a run, and in a run, when the
    /// player gets past the obstacle, the next one a screen's width ahead of
    /// the player, at the score with the point just earned.
    pub open spec fn spawn(self, key: Option<Key>, elapsed: int) -> Option<Spawn> {
        match self.mode {
            GameMode::MainMenu | GameMode::End => if key == Some(Key::F) {
                Some(Self::first_spawn(self.difficulty))
            } else {
                None
            },
            GameMode::Playing => if self.passes(key, elapsed) {
                Some(
                    Spawn {
                        x: self.player_after(key, elapsed).x + SCREEN_WIDTH,
                        score: self.score + 1,
                        difficulty: self.difficulty,
                    },
                )
            } else {
                None
            },
            GameMode::Records => if self.record_page_frames + 1 > RECORDS_DEBOUNCE && (key == Some(
                Key::F,
            ) || key == Some(Key::P)) {
                Some(Self::first_spawn(self.difficulty))
            } else {
                None
            },
            GameMode::DifficultySelect => match Self::chosen(key) {
                Some(difficulty) => Some(Self::first_spawn(difficulty)),
                None => None,
            },
        }
    }

    /// `after` is a state that a tick may lead to: it is the state
    /// [`after_tick`](GameModel::after_tick) with the obstacle that `after`
    /// holds, and where the tick has made that obstacle, the obstacle is one
    /// that may have been made for what [`spawn`](GameModel::spawn) says.
    /// Only the centre and the size of the gap of a new obstacle are left
    /// open; they are drawn at random.
    pub open spec fn ticked(self, key: Option<Key>, elapsed: int, after: GameModel) -> bool {
        &&& after == self.after_tick(key, elapsed, after.object)
        &&& match self.spawn(key, elapsed) {
            Some(spawn) => after.object.fresh(spawn.x, spawn.score, spawn.difficulty),
            None => true,
        }
    }

    /// What the tick shows: the screen of the mode in which the tick began.
    /// A run is shown with the player where the tick has taken it, but with
    /// the score and the obstacle as they were when the tick began.
    pub open spec fn shown(self, key: Option<Key>, elapsed: int) -> ScreenModel {
        match self.mode {
            GameMode::MainMenu => ScreenModel::MainMenu,
            GameMode::End => ScreenModel::End { score: self.score as i32 },
            GameMode::Playing => ScreenModel::Playing(self.shown_playing(key, elapsed)),
            GameMode::Records => ScreenModel::Records {
                rows: Seq::new(self.records.len(), |i: int| self.records[i].row(i)),
            },
            GameMode::DifficultySelect => ScreenModel::DifficultySelect,
        }
    }

    /// What a tick of a run shows; see [`GameModel::shown`].
    pub open spec fn shown_playing(self, key: Option<Key>, elapsed: int) -> PlayingScreenModel {
        let player = self.player_after(key, elapsed);
        PlayingScreenModel {
            difficulty: self.difficulty,
            score: self.score as i32,
            player: Cell { x: 0, y: player.y as i32, glyph: cp437('@') },
            obstacle: self.object.cells(player.x),
        }
    }

    /// Whether the tick asks to leave the game: `Q` does, on the main menu and
    /// on the end-of-run screen.
    pub open spec fn quits(self, key: Option<Key>) -> bool {
        (self.mode == GameMode::MainMenu || self.mode == GameMode::End) && key == Some(Key::Q)
    }
}

impl Structtate {
    /// The state is valid; see [`GameModel::wf`].
    pub open spec fn wf(&self) -> bool {
        self@.wf()
    }

    /// The game as it comes up: on the main menu, at difficulty Normal, with
    /// an empty table of records and a first obstacle in place.
    pub fn new() -> (state: Structtate)
        ensures
            state.wf(),
            state@ == (GameModel {
                player: PlayerModel::start(),
                frame_time: 0,
                mode: GameMode::MainMenu,
                object: state.object,
                score: 0,
                records: Seq::empty(),
                record_page_frames: 0,
                difficulty: Difficulty::Normal,
            }),
            state.object.fresh(SCREEN_WIDTH as int, 0, Difficulty::Normal),
    {
        Structtate {
            player: Player::new(5, 25),
            frame_time: 0,
            mode: GameMode::MainMenu,
            object: Object::new(SCREEN_WIDTH, 0, Difficulty::Normal),
            score: 0,
            game_records: RecordTable::new(),
            record_page_frames: 0,
            difficulty: Difficulty::Normal,
        }
    }

    /// Enters a run of the given score and duration, at the current
    /// difficulty, into the table of records.
    pub fn add_game_record(&mut self, score: i32, duration: u64)
        requires
            old(self).game_records.wf(),
        ensures
            final(self).game_records.wf(),
            final(self)@ == (GameModel {
                records: with_record(
                    old(self)@.records,
                    GameRecord { score, duration, difficulty: old(self).difficulty },
                ),
                ..old(self)@
            }),
    {
        self.game_records.insert(score, duration, self.difficulty);
    }

    /// The high-score screen: returns its lines and handles the key; see
    /// [`GameModel::after_records`].
    pub fn show_game_records(&mut self, key: Option<Key>) -> (rows: Vec<RecordRow>)
        requires
            old(self).wf(),
            old(self).record_page_frames < i32::MAX,
        ensures
            final(self).wf(),
            final(self)@ == old(self)@.after_records(key, final(self).object),
            old(self).record_page_frames + 1 > RECORDS_DEBOUNCE && (key == Some(Key::F) || key
                == Some(Key::P)) ==> final(self).object.fresh(
                SCREEN_WIDTH as int,
                0,
                old(self).difficulty,
            ),
            rows@ == Seq::new(old(self)@.records.len(), |i: int| old(self)@.records[i].row(i)),
    {
        let rows = self.game_records.rows();
        self.record_page_frames += 1;
        if self.record_page_frames > RECORDS_DEBOUNCE {
            match key {
                None => {},
                Some(Key::F) | Some(Key::P) => {
                    self.restart();
                },
                Some(_) => {
                    self.mode = GameMode::MainMenu;
                    self.record_page_frames = 0;
                },
            }
        }
        rows
    }

    /// The choice of difficulty: handles the key; see
    /// [`GameModel::after_difficulty_select`].
    pub fn difficulty_select(&mut self, key: Option<Key>)
        requires
            old(self).wf(),
        ensures
            final(self).wf(),
            final(self)@ == old(self)@.after_difficulty_select(key, final(self).object),
            match GameModel::chosen(key) {
                Some(difficulty) => final(self).object.fresh(SCREEN_WIDTH as int, 0, difficulty),
                None => true,
            },
    {
        match key {
            Some(Key::Key1) => {
                self.difficulty = Difficulty::Easy;
                self.restart();
            },
            Some(Key::Key2) => {
                self.difficulty = Difficulty::Normal;
                self.restart();
            },
            Some(Key::Key3) => {
                self.difficulty = Difficulty::Hard;
                self.restart();
            },
            Some(Key::Escape) => {
                self.mode = GameMode::MainMenu;
            },
            _ => {},
        }
    }

    /// One tick of a run: advances the run and returns what to show; see
    /// [`GameModel::after_playing`] and [`GameModel::shown_playing`].
    /// `frame_time_us` is the time since the previous tick, in microseconds.
    pub fn playing(&mut self, key: Option<Key>, frame_time_us: u32) -> (shown: PlayingScreen)
        requires
            old(self).wf(),
            old(self).mode == GameMode::Playing,
            old(self)@.can_tick(),
        ensures
            final(self).wf(),
            old(self)@.ticked(key, frame_time_us as int, final(self)@),
            shown@ == old(self)@.shown_playing(key, frame_time_us as int),
    {
        let difficulty = self.difficulty;
        self.frame_time += frame_time_us as u64;
        if self.frame_time >= FRAME_DURATION {
            self.frame_time = 0;
            self.player.move_down(&difficulty);
        }
        if let Some(Key::Space) = key {
            self.player.flap();
        }
        let shown = PlayingScreen {
            difficulty,
            score: self.score,
            player: self.player.render(),
            obstacle: self.object.render(self.player.x),
        };
        if self.player.x > self.object.x {
            self.score += 1;
            self.object = Object::new(self.player.x + SCREEN_WIDTH, self.score, difficulty);
        }
        if self.player.y > SCREEN_HEIGHT || self.object.hit(&self.player) {
            let duration = self.frame_time + frame_time_us as u64;
            self.add_game_record(self.score, duration);
            self.mode = GameMode::End;
        }
        shown
    }

    /// Starts a new run at the current difficulty: the player is back at the
    /// start, the score and the step timer are 0, and a first obstacle stands
    /// a screen's width ahead. The table of records stays.
    pub fn restart(&mut self)
        requires
            old(self).wf(),
        ensures
            final(self).wf(),
            final(self)@ == old(self)@.restarted(final(self).object),
            final(self).object.fresh(SCREEN_WIDTH as int, 0, old(self).difficulty),
    {
        self.player = Player::new(5, 25);
        self.frame_time = 0;
        self.mode = GameMode::Playing;
        self.object = Object::new(SCREEN_WIDTH, 0, self.difficulty);
        self.score = 0;
    }

    /// The main menu: handles the key and returns whether it asks to leave
    /// the game; see [`GameModel::after_menu`].
    pub fn main_menu(&mut self, key: Option<Key>) -> (quitting: bool)
        requires
            old(self).wf(),
        ensures
            final(self).wf(),
            final(self)@ == old(self)@.after_menu(key, final(self).object),
            key == Some(Key::F) ==> final(self).object.fresh(
                SCREEN_WIDTH as int,
                0,
                old(self).difficulty,
            ),
            quitting == (key == Some(Key::Q)),
    {
        let mut quitting = false;
        match key {
            Some(Key::F) => {
                self.restart();
            },
            Some(Key::Q) => {
                quitting = true;
            },
            Some(Key::T) => {
                self.record_page_frames = 0;
                self.mode = GameMode::Records;
            },
            Some(Key::D) => {
                self.mode = GameMode::DifficultySelect;
            },
            _ => {},
        }
        quitting
    }

    /// The end-of-run screen: handles the key as the main menu does and
    /// returns whether it asks to leave the game.
    pub fn dead(&mut self, key: Option<Key>) -> (quitting: bool)
        requires
            old(self).wf(),
        ensures
            final(self).wf(),
            final(self)@ == old(self)@.after_menu(key, final(self).object),
            key == Some(Key::F) ==> final(self).object.fresh(
                SCREEN_WIDTH as int,
                0,
                old(self).difficulty,
            ),
            quitting == (key == Some(Key::Q)),
    {
        self.main_menu(key)
    }

    /// One tick of the game: handles the key of this frame, if there is one,
    /// and the time since the previous tick, in microseconds, as the current
    /// mode has it, and returns what to show. See [`GameModel::ticked`],
    /// [`GameModel::shown`] and [`GameModel::quits`].
    pub fn tick(&mut self, key: Option<Key>, frame_time_us: u32) -> (frame: Frame)
        requires
            old(self).wf(),
            old(self)@.can_tick(),
        ensures
            final(self).wf(),
            old(self)@.ticked(key, frame_time_us as int, final(self)@),
            frame.screen@ == old(self)@.shown(key, frame_time_us as int),
            frame.quitting == old(self)@.quits(key),
    {
        match self.mode {
            GameMode::MainMenu => {
                let quitting = self.main_menu(key);
                Frame { screen: Screen::MainMenu, quitting }
            },
            GameMode::End => {
                let score = self.score;
                let quitting = self.dead(key);
                Frame { screen: Screen::End { score }, quitting }
            },
            GameMode::Playing => {
                let shown = self.playing(key, frame_time_us);
                Frame { screen: Screen::Playing(shown), quitting: false }
            },
            GameMode::Records => {
                let rows = self.show_game_records(key);
                Frame { screen: Screen::Records { rows }, quitting: false }
            },
            GameMode::DifficultySelect => {
                self.difficulty_select(key);
                Frame { screen: Screen::DifficultySelect, quitting: false }
            },
        }
    }

    /// Whether the state is valid; see [`GameModel::wf`].
    pub fn is_valid(&self) -> (valid: bool)
        ensures
            valid == self.wf(),
    {
        let on_screen = match self.mode {
            GameMode::Playing => self.player.y <= SCREEN_HEIGHT,
            _ => true,
        };
        self.frame_time < FRAME_DURATION && self.score >= 0 && self.game_records.is_valid()
            && self.object.is_valid() && self.player.y >= 0 && on_screen && self.player.velocity
            < Difficulty::Easy.max_fall_speed() + GRAVITY && self.player.x <= self.object.x
            && self.object.x as i64 <= self.player.x as i64 + SCREEN_WIDTH as i64
    }

    /// Whether the state's counters have room for another tick; see
    /// [`GameModel::can_tick`].
    pub fn has_room(&self) -> (room: bool)
        ensures
            room == self@.can_tick(),
    {
        match self.mode {
            GameMode::Playing => self.score < i32::MAX && self.player.x as i64
                + self.difficulty.horizontal_speed() as i64 + SCREEN_WIDTH as i64 <= i32::MAX as i64,
            GameMode::Records => self.record_page_frames < i32::MAX,
            _ => true,
        }
    }

    /// One tick of the game, for a caller that cannot vouch for the state: the
    /// tick is made if the state is valid and its counters have room, and
    /// nothing happens otherwise.
    pub fn try_tick(&mut self, key: Option<Key>, frame_time_us: u32) -> (frame: Option<Frame>)
        ensures
            frame.is_some() == (old(self).wf() && old(self)@.can_tick()),
            match frame {
                Some(frame) => {
                    &&& final(self).wf()
                    &&& old(self)@.ticked(key, frame_time_us as int, final(self)@)
                    &&& frame.screen@ == old(self)@.shown(key, frame_time_us as int)
                    &&& frame.quitting == old(self)@.quits(key)
                },
                None => *final(self) == *old(self),
            },
    {
        if self.is_valid() && self.has_room() {
            Some(self.tick(key, frame_time_us))
        } else {
            None
        }
    }
}

/// A tick leads from a valid state to a valid state, whatever the key, the
/// elapsed time and the obstacle that the tick may have made.
pub proof fn lemma_tick_keeps_valid(
    state: GameModel,
    key: Option<Key>,
    elapsed: int,
    after: GameModel,
)
    requires
        state.wf(),
        0 <= elapsed,
        state.ticked(key, elapsed, after),
    ensures
        after.wf(),
{
    if state.mode == GameMode::Playing {
        lemma_with_record_wf(state.records, state.run_record(key, elapsed));
    }
}

/// In a run, a tick in which the player gets past the obstacle earns exactly
/// one point and puts the next obstacle a screen's width ahead of the player.
/// A tick in which it does not leaves the score and the obstacle as they are.
pub proof fn lemma_pass_earns_point(
    state: GameModel,
    key: Option<Key>,
    elapsed: int,
    after: GameModel,
)
    requires
        state.mode == GameMode::Playing,
        state.ticked(key, elapsed, after),
    ensures
        after.player.x > state.object.x ==> after.score == state.score + 1 && after.object.x
            == after.player.x + SCREEN_WIDTH,
        after.player.x <= state.object.x ==> after.score == state.score && after.object
            == state.object,
{
}

/// In a run, a tick ends the run exactly if it leaves the player below the
/// screen or in the column of the obstacle ahead and outside of its gap. The
/// table of records then takes one new record, the tick's
/// [`run_record`](GameModel::run_record), which holds the score at the end of
/// the tick: the table makes room for it and then holds it next to the records
/// that stayed. A tick that does not end the run leaves the table as it is.
pub proof fn lemma_run_ends_with_record(
    state: GameModel,
    key: Option<Key>,
    elapsed: int,
    after: GameModel,
)
    requires
        state.mode == GameMode::Playing,
        state.wf(),
        0 <= elapsed <= u32::MAX,
        state.score < i32::MAX,
        state.ticked(key, elapsed, after),
    ensures
        after.mode == GameMode::End <==> after.player.y > SCREEN_HEIGHT || after.object.hits(
            after.player,
        ),
        after.mode != GameMode::End ==> after.mode == GameMode::Playing && after.records
            == state.records,
        state.run_record(key, elapsed).score == after.score,
        state.run_record(key, elapsed).duration == after.frame_time + elapsed,
        after.mode == GameMode::End ==> {
            &&& after.records == with_record(state.records, state.run_record(key, elapsed))
            &&& after.records.to_multiset() == kept(state.records).to_multiset().insert(
                state.run_record(key, elapsed),
            )
            &&& after.records.len() == if state.records.len() < MAX_RECORDS {
                state.records.len() + 1
            } else {
                state.records.len()
            }
        },
{
    lemma_with_record_wf(state.records, state.run_record(key, elapsed));
    lemma_with_record_members(state.records, state.run_record(key, elapsed));
}

} // verus!
