use bracket_lib::prelude::to_cp437;
use bracket_lib::prelude::RandomNumberGenerator;
use flappy::difficulty::Difficulty;
use flappy::obstacle::Object;
use flappy::obstacle::GAP_MARGIN;
use flappy::obstacle::WIDEST_GAP;
use flappy::player::Player;
use flappy::screen::Cell;
use flappy::screen::SCREEN_HEIGHT;

#[test]
fn collides_above_the_gap() {
    let obstacle = Object { x: 42, y: 20, size: 10 };
    let player = Player { x: 42, y: 5, velocity: 0 };
    assert!(obstacle.hit(&player));
}

#[test]
fn passes_through_the_middle_of_the_gap() {
    let obstacle = Object { x: 42, y: 20, size: 10 };
    let player = Player { x: 42, y: 20, velocity: 0 };
    assert!(!obstacle.hit(&player));
}

#[test]
fn gap_edges_are_free() {
    let obstacle = Object { x: 42, y: 20, size: 10 };
    assert!(!obstacle.hit(&Player { x: 42, y: 15, velocity: 0 }));
    assert!(!obstacle.hit(&Player { x: 42, y: 25, velocity: 0 }));
    assert!(obstacle.hit(&Player { x: 42, y: 14, velocity: 0 }));
    assert!(obstacle.hit(&Player { x: 42, y: 26, velocity: 0 }));
}

#[test]
fn odd_gap_sizes_round_down() {
    let obstacle = Object { x: 7, y: 20, size: 7 };
    assert!(!obstacle.hit(&Player { x: 7, y: 17, velocity: 0 }));
    assert!(obstacle.hit(&Player { x: 7, y: 16, velocity: 0 }));
    assert!(!obstacle.hit(&Player { x: 7, y: 23, velocity: 0 }));
    assert!(obstacle.hit(&Player { x: 7, y: 24, velocity: 0 }));
}

#[test]
fn collision_needs_the_same_column() {
    let obstacle = Object { x: 42, y: 20, size: 10 };
    assert!(!obstacle.hit(&Player { x: 41, y: 5, velocity: 0 }));
    assert!(!obstacle.hit(&Player { x: 43, y: 5, velocity: 0 }));
    assert!(!obstacle.hit(&Player { x: 43, y: 49, velocity: 0 }));
}

#[test]
fn degenerate_range_gives_the_smallest_gap() {
    for _ in 0..50 {
        let obstacle = Object::new(100, 25, Difficulty::Hard);
        assert_eq!(obstacle.size, 2);
        assert_eq!(obstacle.x, 100);
        assert!(obstacle.y >= 10 && obstacle.y < 40);
    }
}

#[test]
fn range_degenerates_exactly_when_the_bounds_meet() {
    let mut random = RandomNumberGenerator::seeded(7);
    for _ in 0..50 {
        assert_eq!(Object::with_rng(0, 10, Difficulty::Easy, &mut random).size, 10);
        assert_eq!(Object::with_rng(0, 14, Difficulty::Normal, &mut random).size, 6);
        assert_eq!(Object::with_rng(0, 18, Difficulty::Hard, &mut random).size, 2);
        assert_eq!(Object::with_rng(0, 17, Difficulty::Hard, &mut random).size, 2);
        assert_eq!(Object::with_rng(0, i32::MAX, Difficulty::Normal, &mut random).size, 6);
    }
}

#[test]
fn new_obstacles_stay_within_their_bounds() {
    for difficulty in [Difficulty::Easy, Difficulty::Normal, Difficulty::Hard] {
        for score in 0..25 {
            for _ in 0..20 {
                let obstacle = Object::new(80 + score, score, difficulty);
                assert_eq!(obstacle.x, 80 + score);
                assert!(obstacle.y >= GAP_MARGIN && obstacle.y < SCREEN_HEIGHT - GAP_MARGIN);
                let min = difficulty.min_gap();
                let max = std::cmp::max(WIDEST_GAP - score, min);
                assert!(obstacle.size >= min);
                assert!(obstacle.size < max || obstacle.size == min);
            }
        }
    }
}

#[test]
fn draws_come_from_the_generator_given() {
    let mut first = RandomNumberGenerator::seeded(42);
    let mut second = RandomNumberGenerator::seeded(42);
    let mut centres = Vec::new();
    let mut sizes = Vec::new();
    for _ in 0..200 {
        let a = Object::with_rng(80, 0, Difficulty::Hard, &mut first);
        let b = Object::with_rng(80, 0, Difficulty::Hard, &mut second);
        assert_eq!(a, b);
        assert!(a.y >= 10 && a.y < 40);
        assert!(a.size >= 2 && a.size < 20);
        centres.push(a.y);
        sizes.push(a.size);
    }
    // a sampler that handed its lower bound back would fail here
    assert!(centres.iter().any(|&y| y != 10));
    assert!(sizes.iter().any(|&size| size != 2));
    assert!(centres.iter().any(|&y| y != centres[0]));
}

#[test]
fn centre_is_drawn_before_size() {
    let mut random = RandomNumberGenerator::seeded(99);
    let mut same = RandomNumberGenerator::seeded(99);
    let obstacle = Object::with_rng(80, 0, Difficulty::Normal, &mut random);
    let y = same.range(10, 40);
    let size = same.range(6, 20);
    assert_eq!(obstacle, Object { x: 80, y, size });
}

#[test]
fn obstacle_is_drawn_above_and_below_the_gap() {
    let obstacle = Object { x: 50, y: 20, size: 10 };
    let cells = obstacle.render(10);
    assert_eq!(cells.len(), 15 + 25);
    let letters = ['H', 'E', 'L', 'L', 'O'];
    for (i, cell) in cells.iter().enumerate() {
        let row = if i < 15 { i as i32 } else { 25 + (i as i32 - 15) };
        let letter = letters[((row / 2) % 5) as usize];
        assert_eq!(*cell, Cell { x: 40, y: row, glyph: to_cp437(letter) });
    }
    assert_eq!(cells[0], Cell { x: 40, y: 0, glyph: 72 });
    assert_eq!(cells[2], Cell { x: 40, y: 2, glyph: 69 });
    assert_eq!(cells[4], Cell { x: 40, y: 4, glyph: 76 });
    assert_eq!(cells[7], Cell { x: 40, y: 7, glyph: 76 });
    assert_eq!(cells[8], Cell { x: 40, y: 8, glyph: 79 });
    assert_eq!(cells[10], Cell { x: 40, y: 10, glyph: 72 });
    assert_eq!(cells[15], Cell { x: 40, y: 25, glyph: 76 });
    assert_eq!(cells[39], Cell { x: 40, y: 49, glyph: 79 });
}

#[test]
fn wide_gap_leaves_nothing_to_draw_above() {
    let obstacle = Object { x: 3, y: 10, size: 30 };
    let cells = obstacle.render(5);
    assert_eq!(cells.len(), 25);
    assert_eq!(cells[0], Cell { x: -2, y: 25, glyph: to_cp437('L') });
    let huge = Object { x: 3, y: 39, size: 100 };
    assert_eq!(huge.render(0).len(), 0);
}

#[test]
fn validity_is_the_range_of_centre_and_size() {
    assert!(Object { x: 0, y: 10, size: 2 }.is_valid());
    assert!(Object { x: -5, y: 39, size: 19 }.is_valid());
    assert!(!Object { x: 0, y: 9, size: 2 }.is_valid());
    assert!(!Object { x: 0, y: 40, size: 2 }.is_valid());
    assert!(!Object { x: 0, y: 20, size: 1 }.is_valid());
}
