use snake_game::{frame_geometry, geometry_ok, DrawCommand, World, CELL_SIZE};

#[test]
fn cell_size_is_twenty_units() {
    assert_eq!(CELL_SIZE, 20);
}

#[test]
fn initial_frame_paints_the_spawn_cell() {
    // width 16, spawn 10: the foreground square sits at (200, 0) on a
    // 320 by 320 background.
    let w = World::new(16, 10);
    let cmd = frame_geometry(&w);
    assert_eq!(
        cmd,
        DrawCommand { side: 320, x: 200, y: 0, cell: 20 }
    );
}

#[test]
fn frame_geometry_follows_the_row_major_formula() {
    // width 7, head 23: column 23 % 7 = 2, row 23 / 7 = 3.
    let w = World::new(7, 23);
    let cmd = frame_geometry(&w);
    assert_eq!(cmd.side, 140);
    assert_eq!(cmd.x, 40);
    assert_eq!(cmd.y, 60);
    assert_eq!(cmd.cell, 20);
}

#[test]
fn an_off_board_head_is_still_given_a_position() {
    // head 20 on a 4-wide board lies below the 4 by 4 grid; the geometry
    // still follows the formula and lands off the surface.
    let w = World::new(4, 20);
    let cmd = frame_geometry(&w);
    assert_eq!(cmd.side, 80);
    assert_eq!(cmd.x, 0);
    assert_eq!(cmd.y, 100);
}

#[test]
fn geometry_ok_accepts_ordinary_boards() {
    assert!(geometry_ok(&World::new(16, 10)));
    assert!(geometry_ok(&World::new(1, 0)));
}

#[test]
fn geometry_ok_rejects_a_head_too_deep_to_scale() {
    let w = World::new(1, usize::MAX);
    assert!(!geometry_ok(&w));
}
