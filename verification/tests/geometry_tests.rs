use suri_sprint::geometry::{LevelGridData, LevelPatch, PatchCellShape};

fn patch(nx: i32, ny: i32, data: Vec<i32>) -> LevelPatch {
    LevelPatch { cell_nums: (nx, ny), cell_data: data, image_path: String::new() }
}

#[test]
fn default_patch_values() {
    assert_eq!(LevelPatch::default_cell_nums(), (4, 4));
    let data = LevelPatch::default_cell_data();
    assert_eq!(data.len(), 25);
    assert_eq!(data[6], 0);
    assert_eq!(data[0], 1);
}

#[test]
fn get_value_reads_row_by_row_and_outside_is_empty() {
    let p = patch(2, 1, vec![1, 2, 3, 4, 5, 6]);
    assert_eq!(p.get_value(0, 0), 1);
    assert_eq!(p.get_value(2, 0), 3);
    assert_eq!(p.get_value(0, 1), 4);
    assert_eq!(p.get_value(2, 1), 6);
    assert_eq!(p.get_value(3, 0), 0);
    assert_eq!(p.get_value(-1, 0), 0);
    assert!(p.valid_point(2, 1));
    assert!(!p.valid_point(2, 2));
}

#[test]
fn line_value_needs_both_ends_filled() {
    let p = patch(1, 1, vec![1, 0, 1, 1]);
    assert!(p.get_line_value(0, 0, 0, 1));
    assert!(!p.get_line_value(0, 0, 1, 0));
}

#[test]
fn set_then_get_scenario() {
    let mut p = LevelPatch::new_empty((3, 3));
    assert!(p.set_value(2, 1, 7));
    assert_eq!(p.get_value(2, 1), 7);
    assert_eq!(p.get_value(1, 2), 0);
    // the point is not checked: (4, 0) is the storage place of (0, 1)
    assert!(p.set_value(4, 0, 5));
    assert_eq!(p.get_value(0, 1), 5);
    assert!(!p.set_value(0, 4, 1));
    assert!(!p.set_value(-1, 0, 1));
}

#[test]
fn triangulate_filled_patch_gives_squares() {
    let p = LevelPatch::new_filled((2, 2));
    let shapes = p.triangulate();
    assert_eq!(shapes.len(), 4);
    for s in shapes.iter() {
        assert_eq!(s.2, PatchCellShape::Square);
    }
    assert_eq!((shapes[0].0, shapes[0].1), (0, 0));
    assert_eq!((shapes[3].0, shapes[3].1), (1, 1));
}

#[test]
fn triangulate_half_cell_gives_triangle() {
    // left column and top row filled: the top-left triangle
    let p = patch(1, 1, vec![1, 1, 1, 0]);
    assert_eq!(p.triangulate(), vec![(0, 0, PatchCellShape::TriangleLeftTop)]);
    let q = patch(1, 1, vec![0, 1, 1, 1]);
    assert_eq!(q.triangulate(), vec![(0, 0, PatchCellShape::TriangleRightBottom)]);
}

#[test]
fn triangulate_empty_patch_gives_nothing() {
    let p = LevelPatch::new_empty((3, 2));
    assert_eq!(p.triangulate().len(), 0);
}

#[test]
fn triangulate_single_corner() {
    // one cell with only the top-left point filled
    let p = patch(1, 1, vec![1, 0, 0, 0]);
    let shapes = p.triangulate();
    assert_eq!(shapes, vec![(0, 0, PatchCellShape::DotLeftTop)]);
}

#[test]
fn modify_random_stays_in_range() {
    let mut p = LevelPatch::new_empty((6, 6));
    for _ in 0..20 {
        let (x, y, v) = p.modify_random();
        assert!(-1 <= v && v <= 1);
        assert!(x > -7 && x < 7);
        assert!(y > -7 && y < 7);
    }
    for v in p.cell_data.iter() {
        assert!(*v >= -1 && *v <= 1);
    }
    assert_eq!(p.cell_data.len(), 49);
}

#[test]
fn modify_random_many_zero_changes_nothing() {
    let mut p = LevelPatch::new_filled((3, 3));
    p.modify_random_many(0);
    assert!(p.cell_data.iter().all(|v| *v == 1));
}

#[test]
fn grid_test_data_has_three_patches() {
    let g = LevelGridData::new_test_data();
    assert_eq!(g.patches.len(), 3);
    assert_eq!(g.patches[0].cell_nums, (15, 15));
    assert_eq!(g.patches[0].image_path, "/images/dirt-grid-1.png");
    assert_eq!(g.patches[2].cell_data.len(), 2116);
    let mut g = g;
    g.add_patch(LevelPatch::new_empty((1, 1)));
    assert_eq!(g.patches.len(), 4);
    g.clear();
    assert_eq!(g.patches.len(), 0);
}
