use tic_tac_toe::game_field::GameField;
use tic_tac_toe::player::Player;
use tic_tac_toe::ui::gui::{
    cell_middle, cell_offset, cell_size, coordinates_as_point, is_locatable, mark_radius,
    process_input, text_padding, Input, Key, TEXT_PADDING,
};
use tic_tac_toe::ui::ui_base::Event;

fn board(size: usize) -> GameField {
    GameField::new(
        size,
        [
            Player::new(1).expect("player 1"),
            Player::new(2).expect("player 2"),
        ],
    )
}

#[test]
fn pixels_map_to_cells() {
    assert_eq!((0, 0), coordinates_as_point(0, 0, 800, 600, 3));
    assert_eq!((0, 0), coordinates_as_point(265, 199, 800, 600, 3));
    assert_eq!((1, 1), coordinates_as_point(266, 200, 800, 600, 3));
    assert_eq!((2, 2), coordinates_as_point(797, 599, 800, 600, 3));
    assert_eq!((1, 2), coordinates_as_point(600, 300, 800, 600, 3));
    assert_eq!((0, 1), coordinates_as_point(1, 0, 3, 3, 3));
}

#[test]
fn pixels_right_of_the_last_cell_are_off_the_board() {
    assert_eq!((0, 3), coordinates_as_point(798, 0, 800, 600, 3));
    assert_eq!((0, 3), coordinates_as_point(799, 0, 800, 600, 3));
    assert_eq!((3, 0), coordinates_as_point(0, 600, 800, 600, 3));
}

#[test]
fn pixels_left_of_the_window_round_toward_zero() {
    assert_eq!((0, 0), coordinates_as_point(-1, -1, 800, 600, 3));
    assert_eq!((0, 0), coordinates_as_point(-265, -199, 800, 600, 3));
    assert_eq!(
        (0, usize::MAX),
        coordinates_as_point(-266, 0, 800, 600, 3)
    );
    assert_eq!(
        (usize::MAX - 1, 0),
        coordinates_as_point(0, -400, 800, 600, 3)
    );
    assert_eq!(
        (0, (i32::MIN as isize) as usize),
        coordinates_as_point(i32::MIN, 0, 1, 1, 1)
    );
}

#[test]
fn windows_too_small_for_the_board_cannot_locate() {
    assert!(is_locatable(800, 600, 3));
    assert!(is_locatable(3, 3, 3));
    assert!(is_locatable(1, 1, 1));
    assert!(!is_locatable(800, 600, 0));
    assert!(!is_locatable(2, 600, 3));
    assert!(!is_locatable(800, 2, 3));
    assert!(!is_locatable(0, 0, 1));
    assert!(is_locatable(i32::MAX as u32, 1, 1));
    assert!(!is_locatable(i32::MAX as u32 + 1, 1, 1));
    assert!(!is_locatable(1, u32::MAX, 1));
    assert!(is_locatable(u32::MAX, u32::MAX, 2));
}

#[test]
fn closing_the_window_quits() {
    let field = board(3);
    assert_eq!(Some(Event::Quit), process_input(Input::Quit, &field, 800, 600));
    assert_eq!(Some(Event::Quit), process_input(Input::Quit, &field, 0, 0));
}

#[test]
fn only_the_key_r_restarts() {
    let field = board(3);
    assert_eq!(
        Some(Event::Restart),
        process_input(Input::KeyDown(Key::R), &field, 800, 600)
    );
    assert_eq!(None, process_input(Input::KeyDown(Key::Other), &field, 800, 600));
    assert_eq!(None, process_input(Input::Other, &field, 800, 600));
}

#[test]
fn a_click_asks_for_a_cell_while_playing() {
    let mut field = board(3);
    assert_eq!(
        Some(Event::Point((1, 2))),
        process_input(Input::MouseButtonDown { x: 600, y: 300 }, &field, 800, 600)
    );
    field.set_sign(1, 2);
    assert_eq!(
        Some(Event::Point((1, 2))),
        process_input(Input::MouseButtonDown { x: 600, y: 300 }, &field, 800, 600)
    );
    assert_eq!(
        Some(Event::Point((0, 3))),
        process_input(Input::MouseButtonDown { x: 799, y: 0 }, &field, 800, 600)
    );
}

#[test]
fn a_click_restarts_once_the_game_is_over() {
    let mut won = board(3);
    for (row, col) in [(0, 0), (1, 0), (0, 1), (1, 1), (0, 2)] {
        won.set_sign(row, col);
    }
    assert_eq!(
        Some(Event::Restart),
        process_input(Input::MouseButtonDown { x: 600, y: 300 }, &won, 800, 600)
    );
    assert_eq!(
        Some(Event::Restart),
        process_input(Input::MouseButtonDown { x: 1, y: 1 }, &won, 0, 0)
    );

    let mut drawn = board(3);
    for (row, col) in [(0, 0), (0, 1), (0, 2), (1, 1), (1, 0), (1, 2), (2, 1), (2, 0), (2, 2)] {
        drawn.set_sign(row, col);
    }
    assert_eq!(
        Some(Event::Restart),
        process_input(Input::MouseButtonDown { x: 10, y: 10 }, &drawn, 800, 600)
    );

    let nothing = board(0);
    assert_eq!(
        Some(Event::Restart),
        process_input(Input::MouseButtonDown { x: 10, y: 10 }, &nothing, 800, 600)
    );
}

#[test]
fn grid_lines_run_between_the_cells() {
    assert_eq!(266, cell_offset(800, 3, 1));
    assert_eq!(532, cell_offset(800, 3, 2));
    assert_eq!(200, cell_offset(600, 3, 1));
    assert_eq!(400, cell_offset(600, 3, 2));
    assert_eq!(0, cell_offset(600, 3, 0));
    assert_eq!(600, cell_offset(600, 3, 3));
    assert_eq!(0, cell_offset(2, 3, 2));
    assert_eq!(u32::MAX, cell_offset(u32::MAX, 1, 1));
}

#[test]
fn cells_share_the_window_evenly() {
    assert_eq!(266, cell_size(800, 3));
    assert_eq!(200, cell_size(600, 3));
    assert_eq!(0, cell_size(2, 3));
    assert_eq!(1, cell_size(3, 3));
    assert_eq!(u32::MAX, cell_size(u32::MAX, 1));
}

#[test]
fn the_middle_of_a_cell_is_half_its_extent() {
    assert_eq!(133, cell_middle(800, 3));
    assert_eq!(100, cell_middle(600, 3));
    assert_eq!(0, cell_middle(3, 3));
    assert_eq!(0, cell_middle(0, 5));
}

#[test]
fn the_radius_is_two_tenths_of_the_smaller_side() {
    assert_eq!(40, mark_radius(266, 200));
    assert_eq!(40, mark_radius(200, 266));
    assert_eq!(53, mark_radius(266, 266));
    assert_eq!(0, mark_radius(4, 900));
    assert_eq!(1, mark_radius(5, 900));
    assert_eq!(0, mark_radius(0, u32::MAX));
    assert_eq!(429496729, mark_radius(u32::MAX, i32::MAX as u32));
}

#[test]
fn text_padding_shrinks_with_the_window() {
    assert_eq!(64, TEXT_PADDING);
    assert_eq!(64, text_padding(800, 600));
    assert_eq!(64, text_padding(64, 64));
    assert_eq!(63, text_padding(63, 600));
    assert_eq!(10, text_padding(800, 10));
    assert_eq!(10, text_padding(10, 20));
    assert_eq!(0, text_padding(0, 0));
}
