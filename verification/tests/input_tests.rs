use snake_game::{Flags, World, UI};

#[test]
fn fresh_input_has_nothing_held() {
    let ui = UI::new();
    let f = ui.snapshot();
    assert!(!f.left && !f.right && !f.up && !f.down);
    assert!(!ui.running_now());
}

#[test]
fn snapshot_returns_the_last_write_per_key() {
    let mut ui = UI::new();
    ui.set_key("ArrowRight", true);
    ui.set_key("ArrowLeft", true);
    ui.set_key("ArrowRight", false);
    ui.set_key("ArrowUp", true);
    let f = ui.snapshot();
    assert_eq!(
        f,
        Flags { left: true, right: false, up: true, down: false }
    );
}

#[test]
fn snapshot_is_stable_under_repeated_reads() {
    let mut ui = UI::new();
    ui.set_key("ArrowDown", true);
    let first = ui.snapshot();
    let second = ui.snapshot();
    assert_eq!(first, second);
    assert!(first.down);
}

#[test]
fn key_up_releases_only_its_own_flag() {
    let mut ui = UI::new();
    ui.set_key("ArrowLeft", true);
    ui.set_key("ArrowDown", true);
    ui.set_key("ArrowLeft", false);
    let f = ui.snapshot();
    assert_eq!(
        f,
        Flags { left: false, right: false, up: false, down: true }
    );
}

#[test]
fn other_key_identifiers_are_a_no_op() {
    let mut ui = UI::new();
    ui.set_key("ArrowRight", true);
    ui.set_key("Space", true);
    ui.set_key("a", true);
    ui.set_key("", true);
    ui.set_key("ArrowRightX", true);
    let f = ui.snapshot();
    assert_eq!(
        f,
        Flags { left: false, right: true, up: false, down: false }
    );
}

#[test]
fn running_intent_tracks_mouse_events() {
    let mut ui = UI::new();
    ui.set_running(true);
    assert!(ui.running_now());
    ui.set_running(false);
    assert!(!ui.running_now());
}

#[test]
fn setting_the_running_intent_leaves_the_flags_alone() {
    let mut ui = UI::new();
    ui.set_key("ArrowUp", true);
    ui.set_running(true);
    let f = ui.snapshot();
    assert_eq!(
        f,
        Flags { left: false, right: false, up: true, down: false }
    );
}

#[test]
fn update_applies_the_held_keys_to_the_world() {
    let mut ui = UI::new();
    ui.set_key("ArrowRight", true);
    ui.set_key("ArrowDown", true);
    let mut w = World::new(16, 10);
    ui.update(&mut w);
    assert_eq!(w.snake_head_idx(), 27);
}
