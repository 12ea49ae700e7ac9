use game_flow::state::{loading_gate, GameState, LoadState, NextState};
use game_flow::framerate::FramerateIsStable;
use game_flow::utils::{is_desktop, AssetEntry, AssetHandle, AssetRegistry};

struct Circle;
struct Mesh;
struct Material;

#[test]
fn handle_keeps_its_number() {
    let mesh: AssetHandle<Circle, Mesh> = AssetHandle::new(4);
    let material: AssetHandle<Circle, Material> = AssetHandle::new(5);
    assert_eq!(mesh.handle, 4);
    assert_eq!(material.handle, 5);
}

#[test]
fn desktop_systems() {
    assert!(is_desktop("macos"));
    assert!(is_desktop("windows"));
    assert!(is_desktop("linux"));
}

#[test]
fn other_systems_are_no_desktop() {
    for os in ["", "android", "ios", "Linux", "linux ", "mac", "windowss", "freebsd"] {
        assert!(!is_desktop(os));
    }
}

#[test]
fn purpose_is_served_once() {
    let mut registry = AssetRegistry::new();
    assert!(registry.insert(1, 100));
    assert!(registry.insert(2, 200));
    assert!(!registry.insert(1, 300));
    assert_eq!(
        registry.get(1),
        Some(AssetEntry { purpose: 1, handle: 100, state: LoadState::NotLoaded })
    );
    assert_eq!(
        registry.get(2),
        Some(AssetEntry { purpose: 2, handle: 200, state: LoadState::NotLoaded })
    );
    assert_eq!(registry.get(3), None);
    assert_eq!(registry.position(2), Some(1));
    assert_eq!(registry.position(3), None);
}

#[test]
fn report_changes_the_state_and_keeps_the_handle() {
    let mut registry = AssetRegistry::new();
    registry.insert(1, 100);
    registry.insert(2, 200);
    assert!(registry.report(2, LoadState::Loading));
    assert!(registry.report(1, LoadState::Loaded));
    assert!(!registry.report(9, LoadState::Loaded));
    assert_eq!(
        registry.get(1),
        Some(AssetEntry { purpose: 1, handle: 100, state: LoadState::Loaded })
    );
    assert_eq!(
        registry.get(2),
        Some(AssetEntry { purpose: 2, handle: 200, state: LoadState::Loading })
    );
    assert_eq!(registry.load_states(), vec![LoadState::Loaded, LoadState::Loading]);
}

#[test]
fn registry_feeds_the_loading_gate() {
    let mut registry = AssetRegistry::new();
    registry.insert(1, 100);
    registry.insert(2, 200);
    let stable = FramerateIsStable(true);
    let mut next = NextState(None);
    assert!(!loading_gate(GameState::Loading, &registry.load_states(), stable, &mut next));
    registry.report(1, LoadState::Loaded);
    assert!(!loading_gate(GameState::Loading, &registry.load_states(), stable, &mut next));
    registry.report(2, LoadState::Failed);
    assert!(!loading_gate(GameState::Loading, &registry.load_states(), stable, &mut next));
    registry.report(2, LoadState::Loaded);
    assert!(loading_gate(GameState::Loading, &registry.load_states(), stable, &mut next));
    assert_eq!(next, NextState(Some(GameState::Menu)));
}

#[test]
fn empty_registry_has_nothing_to_wait_for() {
    let registry = AssetRegistry::new();
    assert!(registry.load_states().is_empty());
    assert_eq!(registry.get(0), None);
}
