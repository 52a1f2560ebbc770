use std::collections::HashSet;

use bosh::grid::Grid;
use bosh::line::Line;
use bosh::vector::Vector2D;

fn b(x: f64) -> u64 {
    x.to_bits()
}

fn line(x1: f64, y1: f64, x2: f64, y2: f64) -> Line {
    Line::builder().point(b(x1), b(y1)).point(b(x2), b(y2)).build()
}

fn near(grid: &Grid, x: f64, y: f64) -> Vec<Line> {
    grid.lines_near(Vector2D(b(x), b(y)), 1)
}

#[test]
fn infinite_slope_line() {
    let l = line(0.0, 0.0, 0.0, 100.0);
    let grid = Grid::new(&vec![l]);

    assert_eq!(near(&grid, 0.0, 0.0), vec![l]);
    assert_eq!(near(&grid, 0.0, 50.0), vec![l]);
    assert_eq!(near(&grid, 0.0, -10.0), vec![l]);
    assert_eq!(near(&grid, 30.0, 110.0), vec![l]);
    assert_eq!(near(&grid, 0.0, 150.0), Vec::<Line>::new());
    assert_eq!(near(&grid, 0.0, -30.0), Vec::<Line>::new());
}

#[test]
fn zero_slope_line() {
    let l = line(0.0, 0.0, 100.0, 0.0);
    let grid = Grid::new(&vec![l]);

    assert_eq!(near(&grid, 0.0, 0.0), vec![l]);
    assert_eq!(near(&grid, 50.0, 0.0), vec![l]);
    assert_eq!(near(&grid, -10.0, 0.0), vec![l]);
    assert_eq!(near(&grid, 110.0, 30.0), vec![l]);
    assert_eq!(near(&grid, 150.0, 0.0), Vec::<Line>::new());
    assert_eq!(near(&grid, -30.0, 0.0), Vec::<Line>::new());
}

#[test]
fn positive_slope_line() {
    let l = line(45.124, 98.348952734, 435.47457, 348.3489237);
    let grid = Grid::new(&vec![l]);

    assert_eq!(near(&grid, 0.0, 0.0), Vec::<Line>::new());
    assert_eq!(near(&grid, 100.0, 125.0), vec![l]);
    assert_eq!(near(&grid, 400.0, 320.0), vec![l]);
}

#[test]
fn negative_slope_line() {
    let l = line(45.124, 348.3489237, 435.47457, 98.348952734);
    let grid = Grid::new(&vec![l]);

    assert_eq!(near(&grid, 0.0, 0.0), Vec::<Line>::new());
    assert_eq!(near(&grid, 200.0, 205.0), vec![l]);
    assert_eq!(near(&grid, 400.0, 100.0), vec![l]);
}

#[test]
fn has_negative_x() {
    let l = line(-100.0, 0.0, -10.0, 50.0);
    let grid = Grid::new(&vec![l]);

    assert_eq!(near(&grid, 0.0, 0.0), Vec::<Line>::new());
    assert_eq!(near(&grid, -100.0, 5.0), vec![l]);
    assert_eq!(near(&grid, -50.0, 25.0), vec![l]);
}

#[test]
fn has_negative_y() {
    let l = line(0.0, -100.0, 150.0, 50.0);
    let grid = Grid::new(&vec![l]);

    assert_eq!(near(&grid, 0.0, 0.0), Vec::<Line>::new());
    assert_eq!(near(&grid, 25.0, -40.0), vec![l]);
}

#[test]
fn has_negative_y_and_negative_slope() {
    let l = line(0.0, -100.0, 50.0, -250.0);
    let grid = Grid::new(&vec![l]);

    assert_eq!(near(&grid, 0.0, 0.0), Vec::<Line>::new());
    assert_eq!(near(&grid, 25.0, -175.0), vec![l]);
}

#[test]
fn multiple_lines() {
    let line1 = line(0.0, 0.0, 100.0, 0.0);
    let line2 = line(1.0, 0.0, 100.0, 0.0);
    let line3 = line(2.0, 0.0, 100.0, 0.0);
    let far_line = line(0.0, 1000.0, 100.0, 1000.0);
    let grid = Grid::new(&vec![line1, line2, line3, far_line]);

    let lines = near(&grid, 50.0, 0.0);
    assert_eq!(
        HashSet::from_iter(lines),
        HashSet::from([line1, line2, line3])
    );
}

#[test]
fn multiple_lines_with_remove() {
    let line1 = line(0.0, 0.0, 100.0, 0.0);
    let line2 = line(1.0, 0.0, 100.0, 0.0);
    let line3 = line(2.0, 0.0, 100.0, 0.0);
    let far_line = line(0.0, 1000.0, 100.0, 1000.0);

    let mut grid = Grid::new(&vec![line1, line2, line3, far_line]);

    grid.remove_line(&line2);

    let lines = near(&grid, 50.0, 0.0);
    assert_eq!(HashSet::from_iter(lines), HashSet::from([line1, line3]));
    assert_eq!(grid.all_lines().len(), 3);
}

#[test]
fn multiple_lines_with_remove_last() {
    let line1 = line(0.0, 0.0, 100.0, 0.0);
    let line2 = line(1.0, 0.0, 100.0, 0.0);
    let line3 = line(2.0, 0.0, 100.0, 0.0);
    let far_line = line(0.0, 1000.0, 100.0, 1000.0);

    let mut grid = Grid::new(&vec![line1, line2, line3, far_line]);

    grid.remove_line(&far_line);

    let lines = near(&grid, 50.0, 0.0);
    assert_eq!(
        HashSet::from_iter(lines),
        HashSet::from([line1, line2, line3])
    );
}

#[test]
fn all_lines_duplicates() {
    let line1 = line(0.0, 0.0, 100.0, 0.0);
    let line2 = line(1.0, 0.0, 100.0, 0.0);
    let line3 = line(2.0, 0.0, 100.0, 0.0);
    let line4 = line(2.0, 0.0, 100.0, 0.0);
    let far_line = line(0.0, 1000.0, 100.0, 1000.0);

    let grid = Grid::new(&vec![line1, line2, line3, line4, far_line]);

    let lines = grid.all_lines();
    assert_eq!(lines, &vec![line1, line2, line3, line4, far_line]);
}

#[test]
fn add_then_remove_is_a_permutation() {
    let line1 = line(0.0, 0.0, 100.0, 0.0);
    let line2 = line(1.0, 0.0, 100.0, 0.0);
    let extra = line(5.0, 5.0, 25.0, 25.0);

    let mut grid = Grid::new(&vec![line1, line2]);
    grid.add_line(extra);
    grid.remove_line(&extra);

    assert_eq!(grid.all_lines(), &vec![line1, line2]);
}

#[test]
fn remove_duplicate_keeps_one_copy() {
    let l = line(2.0, 0.0, 100.0, 0.0);
    let other = line(0.0, 0.0, 100.0, 0.0);
    let mut grid = Grid::new(&vec![l, other, l]);

    grid.remove_line(&l);

    let lines = near(&grid, 50.0, 0.0);
    assert_eq!(HashSet::from_iter(lines), HashSet::from([l, other]));
    assert_eq!(grid.all_lines().len(), 2);
}
