use langtons_ant::Direction;
use langtons_ant::State;

const ALL_HEADINGS: [Direction; 4] = [
    Direction::Up,
    Direction::Down,
    Direction::Left,
    Direction::Right,
];

#[test]
fn rotate_left_four_times_is_identity() {
    for h in ALL_HEADINGS {
        assert_eq!(
            h.rotate_left().rotate_left().rotate_left().rotate_left(),
            h
        );
    }
}

#[test]
fn rotate_right_four_times_is_identity() {
    for h in ALL_HEADINGS {
        assert_eq!(
            h.rotate_right().rotate_right().rotate_right().rotate_right(),
            h
        );
    }
}

#[test]
fn rotations_invert_each_other() {
    for h in ALL_HEADINGS {
        assert_eq!(h.rotate_left().rotate_right(), h);
        assert_eq!(h.rotate_right().rotate_left(), h);
    }
}

#[test]
fn rotate_left_cycle_values() {
    assert_eq!(Direction::Up.rotate_left(), Direction::Left);
    assert_eq!(Direction::Left.rotate_left(), Direction::Down);
    assert_eq!(Direction::Down.rotate_left(), Direction::Right);
    assert_eq!(Direction::Right.rotate_left(), Direction::Up);
}

#[test]
fn rotate_right_cycle_values() {
    assert_eq!(Direction::Up.rotate_right(), Direction::Right);
    assert_eq!(Direction::Right.rotate_right(), Direction::Down);
    assert_eq!(Direction::Down.rotate_right(), Direction::Left);
    assert_eq!(Direction::Left.rotate_right(), Direction::Up);
}

#[test]
fn offset_values() {
    assert_eq!(Direction::Up.offset(), (0, 1));
    assert_eq!(Direction::Down.offset(), (0, -1));
    assert_eq!(Direction::Left.offset(), (1, 0));
    assert_eq!(Direction::Right.offset(), (-1, 0));
}

#[test]
fn offsets_sum_to_zero() {
    let mut dx_sum: i32 = 0;
    let mut dy_sum: i32 = 0;
    for h in ALL_HEADINGS {
        let (dx, dy) = h.offset();
        dx_sum += dx as i32;
        dy_sum += dy as i32;
    }
    assert_eq!(dx_sum, 0);
    assert_eq!(dy_sum, 0);
}

#[test]
fn opposite_headings_negate_offsets() {
    let (ux, uy) = Direction::Up.offset();
    let (dx, dy) = Direction::Down.offset();
    assert_eq!((ux + dx, uy + dy), (0, 0));
    let (lx, ly) = Direction::Left.offset();
    let (rx, ry) = Direction::Right.offset();
    assert_eq!((lx + rx, ly + ry), (0, 0));
}

#[test]
fn toggle_swaps_colors() {
    assert_eq!(State::White.toggle(), State::Black);
    assert_eq!(State::Black.toggle(), State::White);
}

#[test]
fn toggle_twice_is_identity() {
    assert_eq!(State::White.toggle().toggle(), State::White);
    assert_eq!(State::Black.toggle().toggle(), State::Black);
}
