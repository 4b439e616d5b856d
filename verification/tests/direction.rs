use snake_game::direction::Direction;

const ALL: [Direction; 4] = [
    Direction::Up,
    Direction::Down,
    Direction::Left,
    Direction::Right,
];

#[test]
fn opposite_is_symmetric_on_every_pair() {
    for a in ALL.iter() {
        for b in ALL.iter() {
            assert_eq!(a.opposite(b), b.opposite(a));
        }
    }
}

#[test]
fn opposite_is_false_on_equal_headings() {
    for a in ALL.iter() {
        assert!(!a.opposite(a));
    }
}

#[test]
fn opposite_holds_of_the_two_axis_pairs_only() {
    let mut count = 0;
    for a in ALL.iter() {
        for b in ALL.iter() {
            if a.opposite(b) {
                count += 1;
            }
        }
    }
    assert_eq!(count, 4);
    assert!(Direction::Up.opposite(&Direction::Down));
    assert!(Direction::Down.opposite(&Direction::Up));
    assert!(Direction::Left.opposite(&Direction::Right));
    assert!(Direction::Right.opposite(&Direction::Left));
    assert!(!Direction::Up.opposite(&Direction::Left));
    assert!(!Direction::Right.opposite(&Direction::Down));
}

#[test]
fn arrow_keys_map_to_headings() {
    assert_eq!(Direction::from_key(37), Some(Direction::Left));
    assert_eq!(Direction::from_key(38), Some(Direction::Up));
    assert_eq!(Direction::from_key(39), Some(Direction::Right));
    assert_eq!(Direction::from_key(40), Some(Direction::Down));
    assert_eq!(Direction::from_key(36), None);
    assert_eq!(Direction::from_key(41), None);
    assert_eq!(Direction::from_key(0), None);
    assert_eq!(Direction::from_key(-1), None);
}

#[test]
fn steer_takes_a_turn() {
    assert_eq!(Direction::Up.steer(37), Direction::Left);
    assert_eq!(Direction::Up.steer(39), Direction::Right);
    assert_eq!(Direction::Left.steer(40), Direction::Down);
    assert_eq!(Direction::Right.steer(39), Direction::Right);
}

#[test]
fn steer_ignores_a_reversal() {
    assert_eq!(Direction::Up.steer(40), Direction::Up);
    assert_eq!(Direction::Down.steer(38), Direction::Down);
    assert_eq!(Direction::Left.steer(39), Direction::Left);
    assert_eq!(Direction::Right.steer(37), Direction::Right);
}

#[test]
fn steer_ignores_other_keys() {
    assert_eq!(Direction::Left.steer(13), Direction::Left);
    assert_eq!(Direction::Down.steer(0), Direction::Down);
}
