use scanline_spectrum::grid::{ImageGrid, Sample};
use scanline_spectrum::scan::{extract_row, write_row};

fn sample(r: u8, g: u8, b: u8) -> Sample {
    Sample { r, g, b, a: 255 }
}

#[test]
fn new_grid_is_all_zero() {
    let grid = ImageGrid::new(4, 3).unwrap();
    assert_eq!(grid.width(), 4);
    assert_eq!(grid.height(), 3);
    for y in 0..3 {
        for x in 0..4 {
            assert_eq!(grid.get(x, y), Some(Sample { r: 0, g: 0, b: 0, a: 0 }));
        }
    }
}

#[test]
fn new_grid_rejects_overflowing_dimensions() {
    assert!(ImageGrid::new(usize::MAX, 2).is_none());
    assert!(ImageGrid::new(2, usize::MAX).is_none());
    assert!(ImageGrid::new(0, 7).is_some());
    assert!(ImageGrid::new(7, 0).is_some());
}

#[test]
fn grid_set_and_get_round_trip() {
    let mut grid = ImageGrid::new(5, 5).unwrap();
    grid.set(2, 3, sample(10, 20, 30));
    assert_eq!(grid.get(2, 3), Some(sample(10, 20, 30)));
    assert_eq!(grid.get(3, 2), Some(Sample { r: 0, g: 0, b: 0, a: 0 }));
}

#[test]
fn grid_ignores_out_of_bounds_access() {
    let mut grid = ImageGrid::new(2, 2).unwrap();
    grid.set(2, 0, sample(1, 1, 1));
    grid.set(0, 2, sample(1, 1, 1));
    assert_eq!(grid.get(2, 0), None);
    assert_eq!(grid.get(0, 2), None);
    for y in 0..2 {
        for x in 0..2 {
            assert_eq!(grid.get(x, y), Some(Sample { r: 0, g: 0, b: 0, a: 0 }));
        }
    }
}

#[test]
fn extract_row_reads_the_green_channel() {
    let mut grid = ImageGrid::new(4, 3).unwrap();
    for x in 0..4 {
        grid.set(x, 1, sample(200, (x as u8) * 10 + 1, 50));
        grid.set(x, 0, sample(1, 99, 1));
    }
    let signal = extract_row(&grid, 1);
    assert_eq!(signal, vec![1, 11, 21, 31]);
    assert_eq!(extract_row(&grid, 0), vec![99, 99, 99, 99]);
    assert_eq!(extract_row(&grid, 2), vec![0, 0, 0, 0]);
}

#[test]
fn write_row_overwrites_with_opaque_grayscale() {
    let mut grid = ImageGrid::new(3, 3).unwrap();
    grid.set(0, 0, sample(5, 6, 7));
    grid.set(1, 1, sample(8, 9, 10));
    write_row(&mut grid, 1, &vec![40, 50, 60]);
    assert_eq!(grid.get(0, 1), Some(Sample { r: 40, g: 40, b: 40, a: 255 }));
    assert_eq!(grid.get(1, 1), Some(Sample { r: 50, g: 50, b: 50, a: 255 }));
    assert_eq!(grid.get(2, 1), Some(Sample { r: 60, g: 60, b: 60, a: 255 }));
    // the other rows keep their samples
    assert_eq!(grid.get(0, 0), Some(sample(5, 6, 7)));
    assert_eq!(grid.get(2, 2), Some(Sample { r: 0, g: 0, b: 0, a: 0 }));
}

#[test]
fn write_row_skips_positions_outside_the_grid() {
    let mut grid = ImageGrid::new(2, 2).unwrap();
    // longer than the row: the extra intensities are silently dropped
    write_row(&mut grid, 0, &vec![1, 2, 3, 4, 5]);
    assert_eq!(grid.get(0, 0), Some(Sample { r: 1, g: 1, b: 1, a: 255 }));
    assert_eq!(grid.get(1, 0), Some(Sample { r: 2, g: 2, b: 2, a: 255 }));
    // a row index outside the grid changes nothing
    let before_00 = grid.get(0, 0);
    write_row(&mut grid, 2, &vec![9, 9]);
    assert_eq!(grid.get(0, 0), before_00);
    assert_eq!(grid.get(0, 1), Some(Sample { r: 0, g: 0, b: 0, a: 0 }));
}

#[test]
fn zero_spectrum_reconstructs_a_black_row() {
    // a spectrum filtered down to all zeros reconstructs to zero intensities,
    // and writing them back leaves a black, opaque row
    let mut grid = ImageGrid::new(4, 2).unwrap();
    for x in 0..4 {
        grid.set(x, 0, sample(100, 150, 200));
    }
    let zeros: Vec<u8> = vec![0; 4];
    write_row(&mut grid, 0, &zeros);
    for x in 0..4 {
        assert_eq!(grid.get(x, 0), Some(Sample { r: 0, g: 0, b: 0, a: 255 }));
    }
}
