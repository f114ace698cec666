use iris::browse::{is_image_extension, next_index, prev_index, quarter_turn, rotate_ccw, rotate_cw, QuarterTurn};

#[test]
fn listed_extensions_are_pictures() {
    for ext in ["jpg", "jpeg", "png", "gif", "webp", "avif", "tiff", "bmp"] {
        assert!(is_image_extension(ext), "{}", ext);
    }
}

#[test]
fn other_extensions_are_no_pictures() {
    for ext in ["", "JPG", "Png", "txt", "jpg ", ".jpg", "tif", "jpe", "jpegs", "svg"] {
        assert!(!is_image_extension(ext), "{}", ext);
    }
}

#[test]
fn next_wraps_after_the_last() {
    assert_eq!(next_index(0, 3), Some(1));
    assert_eq!(next_index(1, 3), Some(2));
    assert_eq!(next_index(2, 3), Some(0));
    assert_eq!(next_index(0, 1), Some(0));
}

#[test]
fn prev_wraps_before_the_first() {
    assert_eq!(prev_index(0, 3), Some(2));
    assert_eq!(prev_index(1, 3), Some(0));
    assert_eq!(prev_index(2, 3), Some(1));
    assert_eq!(prev_index(0, 1), Some(0));
}

#[test]
fn no_pictures_no_step() {
    assert_eq!(next_index(0, 0), None);
    assert_eq!(prev_index(0, 0), None);
    assert_eq!(next_index(7, 0), None);
}

#[test]
fn steps_from_a_place_out_of_range() {
    assert_eq!(next_index(7, 3), Some(2));
    assert_eq!(prev_index(7, 3), Some(0));
    assert_eq!(next_index(usize::MAX, 4), Some((usize::MAX % 4 + 1) % 4));
    assert_eq!(prev_index(usize::MAX, usize::MAX), Some(usize::MAX - 1));
    assert_eq!(next_index(usize::MAX, usize::MAX), Some(1));
}

#[test]
fn there_and_back() {
    let len: usize = 5;
    for i in 0..len {
        let forward: usize = next_index(i, len).unwrap();
        assert_eq!(prev_index(forward, len), Some(i));
        let back: usize = prev_index(i, len).unwrap();
        assert_eq!(next_index(back, len), Some(i));
    }
}

#[test]
fn quarter_turns_to_the_right() {
    assert_eq!(rotate_cw(0), 90);
    assert_eq!(rotate_cw(90), 180);
    assert_eq!(rotate_cw(180), 270);
    assert_eq!(rotate_cw(270), 0);
}

#[test]
fn quarter_turns_to_the_left() {
    assert_eq!(rotate_ccw(0), 270);
    assert_eq!(rotate_ccw(270), 180);
    assert_eq!(rotate_ccw(180), 90);
    assert_eq!(rotate_ccw(90), 0);
}

#[test]
fn turns_of_other_rotations() {
    assert_eq!(rotate_cw(45), 135);
    assert_eq!(rotate_cw(725), 95);
    assert_eq!(rotate_cw(-100), -10);
    assert_eq!(rotate_cw(-450), 0);
    assert_eq!(rotate_ccw(-300), -30);
    assert_eq!(rotate_cw(i32::MAX - 90), i32::MAX % 360);
    assert_eq!(rotate_ccw(i32::MAX - 270), i32::MAX % 360);
    assert_eq!(rotate_cw(i32::MIN), (i32::MIN + 90) % 360);
}

#[test]
fn left_undoes_right() {
    for r in [0, 90, 180, 270] {
        assert_eq!(rotate_ccw(rotate_cw(r)), r);
        assert_eq!(rotate_cw(rotate_ccw(r)), r);
        assert_eq!(rotate_cw(rotate_cw(rotate_cw(rotate_cw(r)))), r);
    }
}

#[test]
fn rotation_names_its_turn() {
    assert_eq!(quarter_turn(0), QuarterTurn::Upright);
    assert_eq!(quarter_turn(90), QuarterTurn::Clockwise);
    assert_eq!(quarter_turn(180), QuarterTurn::Upsidedown);
    assert_eq!(quarter_turn(270), QuarterTurn::Counterclockwise);
    assert_eq!(quarter_turn(360), QuarterTurn::Upright);
    assert_eq!(quarter_turn(45), QuarterTurn::Upright);
    assert_eq!(quarter_turn(-90), QuarterTurn::Upright);
}
