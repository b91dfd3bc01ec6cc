use game_of_life::count_alive_neighbors;
use game_of_life::pos_to_index;
use game_of_life::try_count_alive_neighbors;
use game_of_life::OutOfRange;
use game_of_life::GRID_SIZE;

fn grid_with_live(size: usize, live: &[(usize, usize)]) -> Vec<bool> {
    let mut g = vec![false; size * size];
    for &(x, y) in live {
        g[pos_to_index(x, y, size)] = true;
    }
    g
}

#[test]
fn test_all_alive_corner_and_edge() {
    // With every neighbor alive the count is exactly the number of
    // candidates the grid keeps: 3 in a corner, 5 on an edge, 8 inside.
    let g = vec![true; GRID_SIZE * GRID_SIZE];
    assert_eq!(count_alive_neighbors(&g, 0, 0, GRID_SIZE), 3);
    assert_eq!(count_alive_neighbors(&g, GRID_SIZE - 1, GRID_SIZE - 1, GRID_SIZE), 3);
    assert_eq!(count_alive_neighbors(&g, 5, 0, GRID_SIZE), 5);
    assert_eq!(count_alive_neighbors(&g, 0, 7, GRID_SIZE), 5);
    assert_eq!(count_alive_neighbors(&g, 5, 5, GRID_SIZE), 8);
}

#[test]
fn test_counts_on_small_pattern() {
    let g = grid_with_live(4, &[(1, 1), (2, 1), (1, 2)]);
    assert_eq!(count_alive_neighbors(&g, 0, 0, 4), 1);
    assert_eq!(count_alive_neighbors(&g, 1, 1, 4), 2);
    assert_eq!(count_alive_neighbors(&g, 2, 2, 4), 3);
    assert_eq!(count_alive_neighbors(&g, 3, 3, 4), 0);
    assert_eq!(count_alive_neighbors(&g, 2, 1, 4), 2);
}

#[test]
fn test_count_never_above_eight() {
    let g = vec![true; 9];
    for x in 0..3 {
        for y in 0..3 {
            assert!(count_alive_neighbors(&g, x, y, 3) <= 8);
        }
    }
    assert_eq!(count_alive_neighbors(&g, 1, 1, 3), 8);
}

#[test]
fn test_count_out_of_range() {
    let g = vec![false; 9];
    assert_eq!(try_count_alive_neighbors(&g, 3, 0, 3), Err(OutOfRange));
    assert_eq!(try_count_alive_neighbors(&g, 0, 3, 3), Err(OutOfRange));
    assert_eq!(try_count_alive_neighbors(&g, 2, 2, 3), Ok(0));
}
