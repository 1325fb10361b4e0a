use particle_sandbox::input::{Axis, KeyCode};

#[test]
fn an_axis_starts_at_rest() {
    assert_eq!(Axis::new(KeyCode::KeyA, KeyCode::KeyD).get(), 0);
}

#[test]
fn an_axis_follows_its_keys() {
    let mut axis = Axis::new(KeyCode::KeyA, KeyCode::KeyD);
    axis.process(Some(KeyCode::KeyD), true);
    assert_eq!(axis.get(), 1);
    axis.process(Some(KeyCode::KeyA), true);
    assert_eq!(axis.get(), 0);
    axis.process(Some(KeyCode::KeyD), false);
    assert_eq!(axis.get(), -1);
    axis.process(Some(KeyCode::KeyA), false);
    assert_eq!(axis.get(), 0);
}

#[test]
fn an_axis_ignores_other_keys() {
    let mut axis = Axis::new(KeyCode::ArrowDown, KeyCode::ArrowUp);
    let before = axis;
    axis.process(Some(KeyCode::Space), true);
    axis.process(None, true);
    assert_eq!(axis, before);
    assert_eq!(axis.get(), 0);
}

#[test]
fn the_positive_key_wins_where_both_are_the_same() {
    let mut axis = Axis::new(KeyCode::KeyW, KeyCode::KeyW);
    axis.process(Some(KeyCode::KeyW), true);
    assert_eq!(axis.get(), 1);
}
