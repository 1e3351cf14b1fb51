use flappy::difficulty::Difficulty;

#[test]
fn ranks_order_the_presets() {
    assert_eq!(Difficulty::Easy.rank(), 0);
    assert_eq!(Difficulty::Normal.rank(), 1);
    assert_eq!(Difficulty::Hard.rank(), 2);
}

#[test]
fn terminal_speeds_are_three_two_and_one_and_a_half_rows() {
    assert_eq!(Difficulty::Easy.max_fall_speed(), 30);
    assert_eq!(Difficulty::Normal.max_fall_speed(), 20);
    assert_eq!(Difficulty::Hard.max_fall_speed(), 15);
}

#[test]
fn horizontal_speeds() {
    assert_eq!(Difficulty::Easy.horizontal_speed(), 1);
    assert_eq!(Difficulty::Normal.horizontal_speed(), 2);
    assert_eq!(Difficulty::Hard.horizontal_speed(), 2);
}

#[test]
fn smallest_gaps() {
    assert_eq!(Difficulty::Easy.min_gap(), 10);
    assert_eq!(Difficulty::Normal.min_gap(), 6);
    assert_eq!(Difficulty::Hard.min_gap(), 2);
}

#[test]
fn names_are_the_labels_shown() {
    assert_eq!(Difficulty::Easy.name(), "Easy");
    assert_eq!(Difficulty::Normal.name(), "Normal");
    assert_eq!(Difficulty::Hard.name(), "Hard");
}
