use langtons_ant::AntError;
use langtons_ant::Grid;
use langtons_ant::State;

#[test]
fn new_grid_is_all_black() {
    let g = Grid::new(3, 2);
    assert_eq!(g.width(), 3);
    assert_eq!(g.height(), 2);
    for x in 0..3 {
        for y in 0..2 {
            assert_eq!(g.get(x, y), Ok(State::Black));
        }
    }
}

#[test]
fn set_overwrites_only_the_named_cell() {
    let mut g = Grid::new(4, 3);
    assert_eq!(g.set(2, 1, State::White), Ok(()));
    for x in 0..4 {
        for y in 0..3 {
            let expected = if (x, y) == (2, 1) { State::White } else { State::Black };
            assert_eq!(g.get(x, y), Ok(expected));
        }
    }
}

#[test]
fn get_out_of_bounds_is_rejected() {
    let g = Grid::new(3, 2);
    assert_eq!(g.get(3, 0), Err(AntError::OutOfBounds));
    assert_eq!(g.get(0, 2), Err(AntError::OutOfBounds));
    assert_eq!(g.get(100, 100), Err(AntError::OutOfBounds));
}

#[test]
fn set_out_of_bounds_is_rejected() {
    let mut g = Grid::new(3, 2);
    assert_eq!(g.set(3, 0, State::White), Err(AntError::OutOfBounds));
    assert_eq!(g.set(0, 2, State::White), Err(AntError::OutOfBounds));
    for x in 0..3 {
        for y in 0..2 {
            assert_eq!(g.get(x, y), Ok(State::Black));
        }
    }
}

#[test]
fn one_by_one_grid() {
    let mut g = Grid::new(1, 1);
    assert_eq!(g.get(0, 0), Ok(State::Black));
    assert_eq!(g.set(0, 0, State::White), Ok(()));
    assert_eq!(g.get(0, 0), Ok(State::White));
}
