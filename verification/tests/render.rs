use material_geek::render::atlas::{ShelfPacker, ATLAS_SIZE};
use material_geek::render::instances::{instance_capacity, next_power_of_two};

#[test]
fn packer_fills_a_shelf_then_wraps() {
    let mut p = ShelfPacker::new();
    assert_eq!(p.place(10, 12), Some((1, 1)));
    assert_eq!((p.cursor_x, p.cursor_y, p.row_h), (12, 0, 14));
    assert_eq!(p.place(20, 8), Some((13, 1)));
    assert_eq!((p.cursor_x, p.cursor_y, p.row_h), (34, 0, 14));
    // A cell wider than the space left starts a new shelf below the tallest.
    assert_eq!(p.place(1000, 5), Some((1, 17)));
    assert_eq!((p.cursor_x, p.cursor_y, p.row_h), (1002, 16, 7));
}

#[test]
fn packer_reports_full_atlas() {
    let mut p = ShelfPacker::new();
    assert_eq!(p.place(ATLAS_SIZE, ATLAS_SIZE), Some((1, 1)));
    // No room below: refused, but the pen has moved to a new shelf.
    assert_eq!(p.place(4, 4), None);
    assert_eq!((p.cursor_x, p.cursor_y, p.row_h), (0, 1028, 0));
    let mut q = ShelfPacker::new();
    assert_eq!(q.place(4, ATLAS_SIZE + 1), None);
    assert_eq!((q.cursor_x, q.cursor_y, q.row_h), (0, 0, 0));
}

#[test]
fn packed_cells_do_not_overlap() {
    let mut p = ShelfPacker::new();
    let mut cells: Vec<(u32, u32, u32, u32)> = Vec::new();
    for i in 0..400u32 {
        let w = 6 + (i * 7) % 40;
        let h = 8 + (i * 13) % 30;
        if let Some((ox, oy)) = p.place(w, h) {
            cells.push((ox - 1, oy - 1, w, h));
        }
    }
    assert!(cells.len() > 100);
    for (i, a) in cells.iter().enumerate() {
        assert!(a.0 + a.2 <= ATLAS_SIZE && a.1 + a.3 <= ATLAS_SIZE);
        for b in &cells[i + 1..] {
            let apart = a.0 + a.2 <= b.0 || b.0 + b.2 <= a.0 || a.1 + a.3 <= b.1 || b.1 + b.3 <= a.1;
            assert!(apart);
        }
    }
}

#[test]
fn capacity_grows_to_power_of_two() {
    assert_eq!(instance_capacity(256, 100), 256);
    assert_eq!(instance_capacity(256, 256), 256);
    assert_eq!(instance_capacity(256, 257), 512);
    assert_eq!(instance_capacity(256, 1000), 1024);
    assert_eq!(instance_capacity(0, 0), 0);
    assert_eq!(instance_capacity(0, 1), 1);
    assert_eq!(instance_capacity(3, 5), 8);
}

#[test]
fn next_power_of_two_matches_std() {
    for n in 0..5000usize {
        assert_eq!(next_power_of_two(n), n.next_power_of_two());
    }
    assert_eq!(next_power_of_two(usize::MAX / 2 + 1), usize::MAX / 2 + 1);
}
