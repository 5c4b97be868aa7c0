use snake_game::{Flags, World};

fn flags(left: bool, right: bool, up: bool, down: bool) -> Flags {
    Flags { left, right, up, down }
}

#[test]
fn new_world_holds_width_and_spawn() {
    let w = World::new(16, 10);
    assert_eq!(w.width(), 16);
    assert_eq!(w.snake_head_idx(), 10);
}

#[test]
fn each_direction_moves_by_its_delta() {
    let mut w = World::new(5, 12);
    w.apply_move(flags(true, false, false, false));
    assert_eq!(w.snake_head_idx(), 11);

    let mut w = World::new(5, 12);
    w.apply_move(flags(false, true, false, false));
    assert_eq!(w.snake_head_idx(), 13);

    let mut w = World::new(5, 12);
    w.apply_move(flags(false, false, true, false));
    assert_eq!(w.snake_head_idx(), 7);

    let mut w = World::new(5, 12);
    w.apply_move(flags(false, false, false, true));
    assert_eq!(w.snake_head_idx(), 17);
}

#[test]
fn deltas_add_up_independently() {
    // All four keys held at once cancel out.
    let mut w = World::new(5, 12);
    w.apply_move(flags(true, true, true, true));
    assert_eq!(w.snake_head_idx(), 12);

    // Two perpendicular keys move diagonally.
    let mut w = World::new(16, 10);
    w.apply_move(flags(false, true, false, true));
    assert_eq!(w.snake_head_idx(), 27);

    // Left and down on a narrow grid.
    let mut w = World::new(3, 4);
    w.apply_move(flags(true, false, false, true));
    assert_eq!(w.snake_head_idx(), 6);
}

#[test]
fn no_key_held_means_no_move() {
    let mut w = World::new(16, 10);
    w.apply_move(flags(false, false, false, false));
    assert_eq!(w.snake_head_idx(), 10);
}

#[test]
fn movement_may_leave_the_board() {
    // The board's edge is no limit: the index may pass width * width.
    let mut w = World::new(4, 15);
    w.apply_move(flags(false, false, false, true));
    assert_eq!(w.snake_head_idx(), 19);
}

#[test]
fn can_apply_rejects_an_underflowing_move() {
    let w = World::new(16, 0);
    assert!(!w.can_apply(flags(true, false, false, false)));
    assert!(!w.can_apply(flags(false, false, true, false)));
    assert!(w.can_apply(flags(false, true, false, true)));
}

#[test]
fn can_apply_rejects_an_overflowing_move() {
    let w = World::new(16, usize::MAX);
    assert!(!w.can_apply(flags(false, true, false, false)));
    assert!(!w.can_apply(flags(false, false, false, true)));
    assert!(w.can_apply(flags(true, false, true, false)));
}

#[test]
fn can_apply_follows_the_fixed_order() {
    // The steps run in the order left, right, up, down. From index 17 on a
    // width-16 grid, left lands on 16 and up is then just in range.
    let w = World::new(16, 17);
    assert!(w.can_apply(flags(true, false, true, false)));
    let mut w = World::new(16, 17);
    w.apply_move(flags(true, false, true, false));
    assert_eq!(w.snake_head_idx(), 0);

    // Up alone from 15 would leave the index range.
    let w = World::new(16, 15);
    assert!(!w.can_apply(flags(false, false, true, false)));
}

#[test]
fn peek_move_does_not_move() {
    let w = World::new(16, 10);
    assert_eq!(w.peek_move(flags(false, true, false, true)), 27);
    assert_eq!(w.snake_head_idx(), 10);
}
