use snake_game::display::{Command, Paint};
use snake_game::food::{random_coord, Food, UNIT_SCALE};

#[test]
fn unit_scale_is_two_to_the_thirty_second() {
    assert_eq!(UNIT_SCALE, 1u64 << 32);
}

#[test]
fn random_coord_exact_values() {
    assert_eq!(random_coord(0), 0);
    assert_eq!(random_coord(0x8000_0000), 200);
    assert_eq!(random_coord(0x4000_0000), 100);
    assert_eq!(random_coord(u32::MAX), 390);
    // 19/40 of the scale is 2040109465.6: the square changes between the
    // two whole numbers around it.
    assert_eq!(random_coord(2040109465), 180);
    assert_eq!(random_coord(2040109466), 190);
    assert_eq!(random_coord(107374182), 0);
    assert_eq!(random_coord(107374183), 10);
}

#[test]
fn random_coord_is_aligned_and_inside_the_grid() {
    let mut unit: u64 = 0;
    while unit <= u32::MAX as u64 {
        let c = random_coord(unit as u32);
        assert_eq!(c % 10, 0);
        assert!(c < 400);
        unit += 9_999_991;
    }
}

#[test]
fn random_food_lies_where_the_fractions_put_it() {
    let food = Food::random(0x8000_0000, u32::MAX);
    assert_eq!(food.location(), (200, 390));
    let food = Food::random(0, 0x4000_0000);
    assert_eq!(food.location(), (0, 100));
}

#[test]
fn random_food_is_aligned_and_inside_the_grid() {
    let mut unit: u64 = 3;
    while unit <= u32::MAX as u64 {
        let food = Food::random(unit as u32, (u32::MAX as u64 - unit) as u32);
        let (x, y) = food.location();
        assert_eq!(x % 10, 0);
        assert_eq!(y % 10, 0);
        assert!(x < 400);
        assert!(y < 400);
        unit += 49_999_999;
    }
}

#[test]
fn food_is_drawn_in_its_own_colour() {
    let food = Food::random(0x8000_0000, 0);
    assert_eq!(food.render(), Command::Fill(Paint::Food, (200, 0)));
}
