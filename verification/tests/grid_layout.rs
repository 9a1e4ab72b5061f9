use storyteller::grid::grid_coords;

#[test]
fn seven_by_seven_grid() {
    let coords = grid_coords(3);
    assert_eq!(coords.len(), 49);
    assert_eq!(coords[0], (-3, -3));
    assert_eq!(coords[48], (3, 3));
    for (i, &(x, z)) in coords.iter().enumerate() {
        assert_eq!(x, (i / 7) as i32 - 3);
        assert_eq!(z, (i % 7) as i32 - 3);
        assert!((-3..=3).contains(&x));
        assert!((-3..=3).contains(&z));
    }
}

#[test]
fn trivial_grid_is_the_origin() {
    assert_eq!(grid_coords(0), vec![(0, 0)]);
}

#[test]
fn every_cell_appears_once() {
    let coords = grid_coords(2);
    assert_eq!(coords.len(), 25);
    for x in -2..=2 {
        for z in -2..=2 {
            assert_eq!(coords.iter().filter(|&&c| c == (x, z)).count(), 1);
        }
    }
}
