use game_of_life::index_to_pos;
use game_of_life::pos_to_index;
use game_of_life::try_index_to_pos;
use game_of_life::try_pos_to_index;
use game_of_life::OutOfRange;
use game_of_life::GRID_SIZE;

#[test]
fn test_index_to_pos() {
    assert_eq!(index_to_pos(0, 10), (0, 0));
    assert_eq!(index_to_pos(1, 10), (1, 0));
    assert_eq!(index_to_pos(10, 10), (0, 1));
    assert_eq!(index_to_pos(11, 10), (1, 1));
}

#[test]
fn test_pos_to_index() {
    assert_eq!(pos_to_index(0, 0, 10), 0);
    assert_eq!(pos_to_index(1, 0, 10), 1);
    assert_eq!(pos_to_index(0, 1, 10), 10);
    assert_eq!(pos_to_index(1, 1, 10), 11);
}

#[test]
fn test_default_size_examples() {
    assert_eq!(index_to_pos(0, GRID_SIZE), (0, 0));
    assert_eq!(index_to_pos(1, GRID_SIZE), (1, 0));
    assert_eq!(index_to_pos(GRID_SIZE, GRID_SIZE), (0, 1));
    assert_eq!(index_to_pos(GRID_SIZE + 1, GRID_SIZE), (1, 1));
    assert_eq!(pos_to_index(0, 0, GRID_SIZE), 0);
    assert_eq!(pos_to_index(1, 0, GRID_SIZE), 1);
    assert_eq!(pos_to_index(0, 1, GRID_SIZE), GRID_SIZE);
    assert_eq!(pos_to_index(1, 1, GRID_SIZE), GRID_SIZE + 1);
}

#[test]
fn test_index_round_trip() {
    for i in 0..100 {
        let (x, y) = index_to_pos(i, 10);
        assert_eq!(pos_to_index(x, y, 10), i);
    }
}

#[test]
fn test_coord_round_trip() {
    for x in 0..10 {
        for y in 0..10 {
            assert_eq!(index_to_pos(pos_to_index(x, y, 10), 10), (x, y));
        }
    }
}

#[test]
fn test_mapping_out_of_range() {
    assert_eq!(try_pos_to_index(10, 0, 10), Err(OutOfRange));
    assert_eq!(try_pos_to_index(0, 10, 10), Err(OutOfRange));
    assert_eq!(try_pos_to_index(9, 9, 10), Ok(99));
    assert_eq!(try_index_to_pos(100, 10), Err(OutOfRange));
    assert_eq!(try_index_to_pos(0, 0), Err(OutOfRange));
    assert_eq!(try_index_to_pos(99, 10), Ok((9, 9)));
}
