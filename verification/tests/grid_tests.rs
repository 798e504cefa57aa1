use gpu_dispatch::grid::grid_for;
use gpu_dispatch::grid::group_count;
use gpu_dispatch::grid::LOCAL_SIZE_X;

#[test]
fn local_size_is_sixty_four() {
    assert_eq!(LOCAL_SIZE_X, 64);
}

#[test]
fn no_elements_take_no_group() {
    assert_eq!(group_count(0), 0);
}

#[test]
fn one_element_takes_one_group() {
    assert_eq!(group_count(1), 1);
}

#[test]
fn six_elements_take_one_group() {
    assert_eq!(group_count(6), 1);
    assert_eq!(grid_for(6), [1, 1, 1]);
}

#[test]
fn a_full_group_is_not_rounded_up() {
    assert_eq!(group_count(63), 1);
    assert_eq!(group_count(64), 1);
    assert_eq!(group_count(65), 2);
    assert_eq!(group_count(128), 2);
    assert_eq!(group_count(129), 3);
}

#[test]
fn the_longest_input_has_its_grid() {
    assert_eq!(group_count(u32::MAX), 67_108_864);
    assert_eq!(grid_for(u32::MAX), [67_108_864, 1, 1]);
}

#[test]
fn the_grid_covers_every_element_and_no_smaller_one_does() {
    let mut n: u32 = 1;
    while n < 5000 {
        let groups = group_count(n) as u64;
        assert!(groups * 64 >= n as u64);
        assert!((groups - 1) * 64 < n as u64);
        n += 1;
    }
}

#[test]
fn a_longer_input_never_takes_a_smaller_grid() {
    let mut n: u32 = 0;
    while n < 5000 {
        assert!(group_count(n) <= group_count(n + 1));
        n += 1;
    }
}

#[test]
fn the_grid_is_one_deep_along_y_and_z() {
    let grid = grid_for(1000);
    assert_eq!(grid[0], 16);
    assert_eq!(grid[1], 1);
    assert_eq!(grid[2], 1);
}
