use telnet_animations::animations::lollercoaster::coaster;
use telnet_animations::coaster::Rollercoaster;
use telnet_animations::movement::{decode_movements, Movement};

fn small(train: &str, start: Vec<(isize, isize)>, script: &str) -> Rollercoaster {
    Rollercoaster::new(
        vec!["AB".to_string(), "CD".to_string()],
        train.to_string(),
        start,
        decode_movements(script).unwrap(),
    )
}

#[test]
fn first_tick_erases_then_draws() {
    let mut c = small("X", vec![(0, 0)], "6");
    assert_eq!(c.advance(), Some("\x1B[1;1HA\x1B[1;2HX".to_string()));
    assert_eq!(c.train_positions(), vec![(0, 1)]);
}

#[test]
fn advance_yields_one_frame_per_movement_then_ends() {
    let mut c = small("X", vec![(0, 0)], "632");
    assert_eq!(c.get_total_frames(), 3);
    for _ in 0..3 {
        assert!(c.advance().is_some());
    }
    assert_eq!(c.advance(), None);
    assert_eq!(c.advance(), None);
    c.reset();
    assert!(c.advance().is_some());
}

#[test]
fn reset_restores_start() {
    let mut c = small("XY", vec![(0, 1), (0, 0)], "2");
    assert_eq!(c.advance(), Some("\x1B[1;1HA\x1B[2;2HX\x1B[1;2HY".to_string()));
    assert_eq!(c.train_positions(), vec![(1, 1), (0, 1)]);
    assert_eq!(c.frame_index(), 1);
    c.reset();
    assert_eq!(c.train_positions(), vec![(0, 1), (0, 0)]);
    assert_eq!(c.frame_index(), 0);
    c.reset();
    assert_eq!(c.train_positions(), vec![(0, 1), (0, 0)]);
}

#[test]
fn train_drawn_right_to_left_moves_cursor_for_each_character() {
    let mut c = Rollercoaster::new(
        vec!["....".to_string()],
        "ab".to_string(),
        vec![(0, 1), (0, 0)],
        vec![Movement::Right],
    );
    // the trailing 'b' at (0,0) is erased; 'b' then lands at (0,1), left of 'a' at (0,2)
    assert_eq!(c.advance(), Some("\x1B[1;1H.\x1B[1;3Ha\x1B[1;2Hb".to_string()));
}

#[test]
fn train_left_to_right_needs_no_cursor_moves_between_characters() {
    let mut c = Rollercoaster::new(
        vec!["......".to_string()],
        "ab".to_string(),
        vec![(0, 0), (0, 1)],
        vec![Movement::Left],
    );
    // new window: (0,-1) off the canvas, then (0,0)
    assert_eq!(c.advance(), Some("\x1B[1;2H.\x1B[1;1Hb".to_string()));
    let mut d = Rollercoaster::new(
        vec!["......".to_string()],
        "ab".to_string(),
        vec![(0, 3), (0, 4)],
        vec![Movement::Left],
    );
    assert_eq!(d.advance(), Some("\x1B[1;5H.\x1B[1;3Hab".to_string()));
}

#[test]
fn off_canvas_positions_are_skipped() {
    let mut c = small("X", vec![(0, -2)], "66");
    assert_eq!(c.advance(), Some(String::new()));
    assert_eq!(c.advance(), Some("\x1B[1;1HX".to_string()));
}

#[test]
fn erase_past_short_line_writes_space() {
    let mut c = Rollercoaster::new(
        vec!["ABC".to_string(), "D".to_string()],
        "X".to_string(),
        vec![(1, 2)],
        vec![Movement::Up],
    );
    assert_eq!(c.advance(), Some("\x1B[2;3H \x1B[1;3HX".to_string()));
}

#[test]
fn multi_digit_coordinates() {
    let lines: Vec<String> = (0..12).map(|_| "x".repeat(12)).collect();
    let mut c = Rollercoaster::new(lines, "Q".to_string(), vec![(10, 10)], vec![Movement::DownRight]);
    assert_eq!(c.advance(), Some("\x1B[11;11Hx\x1B[12;12HQ".to_string()));
}

#[test]
fn dimensions_and_base_frame() {
    let c = Rollercoaster::new(
        vec!["AB".to_string(), "CDE".to_string(), "".to_string()],
        "X".to_string(),
        vec![(0, 0)],
        vec![],
    );
    assert_eq!(c.get_width(), 3);
    assert_eq!(c.get_height(), 3);
    assert_eq!(c.get_base_frame(), "AB\r\nCDE\r\n\r\n");
    assert_eq!(c.get_total_frames(), 0);
}

#[test]
fn lollercoaster_plays_its_script() {
    let mut c = coaster();
    assert_eq!(c.get_total_frames(), 136);
    assert_eq!(c.get_height(), 22);
    assert_eq!(c.get_width(), 50);
    assert!(c.get_base_frame().starts_with("                      THE ULTIMATE LOLLERCOASTER\r\n_____\r\n"));
    // the train starts left of the canvas and enters it on the third tick
    assert_eq!(c.advance(), Some(String::new()));
    assert_eq!(c.advance(), Some(String::new()));
    assert_eq!(c.advance(), Some("\x1B[2;1HL".to_string()));
    assert_eq!(c.advance(), Some("\x1B[2;2HL\x1B[2;1HO".to_string()));
    let mut n = 4;
    while c.advance().is_some() {
        n += 1;
    }
    assert_eq!(n, 136);
}
