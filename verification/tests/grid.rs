use snake_game::grid::{
    hold, is_cell_on_grid, is_on_grid, step_back, step_forward, GRID_SIZE, SQUARE_SIZE,
};

#[test]
fn constants_are_fixed() {
    assert_eq!(GRID_SIZE, 400);
    assert_eq!(SQUARE_SIZE, 10);
}

#[test]
fn on_grid_means_aligned_and_within_the_edge() {
    assert!(is_on_grid(0));
    assert!(is_on_grid(10));
    assert!(is_on_grid(390));
    assert!(is_on_grid(400));
    assert!(!is_on_grid(5));
    assert!(!is_on_grid(201));
    assert!(!is_on_grid(410));
    assert!(is_cell_on_grid(&(200, 400)));
    assert!(!is_cell_on_grid(&(200, 201)));
    assert!(!is_cell_on_grid(&(7, 0)));
}

#[test]
fn step_back_wraps_to_the_far_edge() {
    assert_eq!(step_back(0), 400);
    assert_eq!(step_back(10), 0);
    assert_eq!(step_back(200), 190);
    assert_eq!(step_back(400), 390);
}

#[test]
fn step_forward_wraps_to_zero() {
    assert_eq!(step_forward(390), 0);
    assert_eq!(step_forward(0), 10);
    assert_eq!(step_forward(200), 210);
    assert_eq!(step_forward(400), 10);
}

#[test]
fn hold_reduces_the_far_edge() {
    assert_eq!(hold(400), 0);
    assert_eq!(hold(0), 0);
    assert_eq!(hold(390), 390);
}
