use tuika::focus::FocusRegistry;
use tuika::scene::sync_focus;

#[test]
fn scene_synchronizes_topmost_input_owner() {
    // A scene over "base" with one overlay owned by "dialog".
    let mut focus = FocusRegistry::new();
    focus.register("base");
    sync_focus(&[Some("dialog")], &mut focus);
    assert_eq!(focus.active(), Some("dialog"));
}

#[test]
fn ownerless_top_layer_releases_lower_layer_owner() {
    // An overlay owned by "lower" under an ownerless "top" layer.
    let mut focus = FocusRegistry::new();
    focus.register("base");
    sync_focus(&[Some("lower"), None], &mut focus);
    assert_eq!(focus.active(), Some("base"));
}

#[test]
fn a_scene_without_overlays_releases_ownership() {
    let mut focus = FocusRegistry::new();
    focus.register("base");
    focus.set_owner("stale");
    sync_focus(&[], &mut focus);
    assert_eq!(focus.active(), Some("base"));
}
