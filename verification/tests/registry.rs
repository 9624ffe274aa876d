use sctk_bridge::handle::SurfaceId;
use sctk_bridge::surface::lookup;
use sctk_bridge::surface::SurfaceIdentity;
use sctk_bridge::surface::SurfaceRegistry;

#[test]
fn new_registry_knows_nothing() {
    let registry = SurfaceRegistry::new();
    assert_eq!(registry.resolve_live(1), None);
    assert_eq!(registry.resolve_destroyed(1), None);
    assert!(registry.live().is_empty());
    assert!(registry.destroyed().is_empty());
}

#[test]
fn registered_handle_resolves_until_retired() {
    let mut registry = SurfaceRegistry::new();
    let window = SurfaceIdentity::Window(SurfaceId(7));
    assert!(registry.register(40, window));
    assert_eq!(registry.resolve_live(40), Some(window));
    assert_eq!(registry.resolve_destroyed(40), None);

    // other handles come and go
    assert!(registry.register(41, SurfaceIdentity::Popup(SurfaceId(8))));
    assert!(registry.register(42, SurfaceIdentity::LayerSurface(SurfaceId(9))));
    assert_eq!(registry.retire(41), Some(SurfaceIdentity::Popup(SurfaceId(8))));
    assert_eq!(registry.evict(41), Some(SurfaceIdentity::Popup(SurfaceId(8))));
    registry.reconcile();
    assert_eq!(registry.resolve_live(40), Some(window));

    assert_eq!(registry.retire(40), Some(window));
    assert_eq!(registry.resolve_live(40), None);
    assert_eq!(registry.resolve_destroyed(40), Some(window));
}

#[test]
fn register_refuses_another_identity() {
    let mut registry = SurfaceRegistry::new();
    let window = SurfaceIdentity::Window(SurfaceId(7));
    assert!(registry.register(40, window));
    assert!(!registry.register(40, SurfaceIdentity::Window(SurfaceId(8))));
    assert!(!registry.register(40, SurfaceIdentity::Popup(SurfaceId(7))));
    assert_eq!(registry.resolve_live(40), Some(window));
    assert_eq!(registry.live().len(), 1);
}

#[test]
fn register_of_the_same_identity_changes_nothing() {
    let mut registry = SurfaceRegistry::new();
    let window = SurfaceIdentity::Window(SurfaceId(7));
    assert!(registry.register(40, window));
    assert!(registry.register(40, window));
    assert_eq!(registry.resolve_live(40), Some(window));
    assert_eq!(registry.live().len(), 1);
}

#[test]
fn retire_of_an_unknown_handle_changes_nothing() {
    let mut registry = SurfaceRegistry::new();
    assert!(registry.register(40, SurfaceIdentity::Window(SurfaceId(7))));
    assert_eq!(registry.retire(99), None);
    assert_eq!(registry.live().len(), 1);
    assert!(registry.destroyed().is_empty());
}

#[test]
fn retire_twice_keeps_the_tombstone() {
    let mut registry = SurfaceRegistry::new();
    let layer = SurfaceIdentity::LayerSurface(SurfaceId(3));
    assert!(registry.register(5, layer));
    assert_eq!(registry.retire(5), Some(layer));
    assert_eq!(registry.retire(5), None);
    assert_eq!(registry.resolve_destroyed(5), Some(layer));
}

#[test]
fn a_handle_given_out_again_drops_its_tombstone() {
    let mut registry = SurfaceRegistry::new();
    let old = SurfaceIdentity::Window(SurfaceId(1));
    let new = SurfaceIdentity::Popup(SurfaceId(2));
    assert!(registry.register(5, old));
    assert_eq!(registry.retire(5), Some(old));
    assert!(registry.register(5, new));
    assert_eq!(registry.resolve_live(5), Some(new));
    assert_eq!(registry.resolve_destroyed(5), None);
}

#[test]
fn evict_drops_one_tombstone() {
    let mut registry = SurfaceRegistry::new();
    assert!(registry.register(1, SurfaceIdentity::Window(SurfaceId(1))));
    assert!(registry.register(2, SurfaceIdentity::Window(SurfaceId(2))));
    registry.retire(1);
    registry.retire(2);
    assert_eq!(registry.evict(1), Some(SurfaceIdentity::Window(SurfaceId(1))));
    assert_eq!(registry.evict(1), None);
    assert_eq!(registry.resolve_destroyed(1), None);
    assert_eq!(registry.resolve_destroyed(2), Some(SurfaceIdentity::Window(SurfaceId(2))));
}

#[test]
fn reconcile_drops_all_tombstones_and_no_living_surface() {
    let mut registry = SurfaceRegistry::new();
    assert!(registry.register(1, SurfaceIdentity::Window(SurfaceId(1))));
    assert!(registry.register(2, SurfaceIdentity::Window(SurfaceId(2))));
    assert!(registry.register(3, SurfaceIdentity::DragIcon(SurfaceId(3))));
    registry.retire(1);
    registry.retire(2);
    registry.reconcile();
    assert!(registry.destroyed().is_empty());
    assert_eq!(registry.resolve_live(3), Some(SurfaceIdentity::DragIcon(SurfaceId(3))));
}

#[test]
fn lookup_reads_a_map() {
    let mut registry = SurfaceRegistry::new();
    assert!(registry.register(u64::MAX, SurfaceIdentity::SessionLock(SurfaceId(0))));
    assert_eq!(lookup(registry.live(), u64::MAX), Some(SurfaceIdentity::SessionLock(SurfaceId(0))));
    assert_eq!(lookup(registry.live(), 0), None);
    assert_eq!(lookup(registry.destroyed(), u64::MAX), None);
}

#[test]
fn inner_gives_the_id_of_every_role() {
    assert_eq!(SurfaceIdentity::Window(SurfaceId(1)).inner(), SurfaceId(1));
    assert_eq!(SurfaceIdentity::Popup(SurfaceId(2)).inner(), SurfaceId(2));
    assert_eq!(SurfaceIdentity::LayerSurface(SurfaceId(3)).inner(), SurfaceId(3));
    assert_eq!(SurfaceIdentity::SessionLock(SurfaceId(4)).inner(), SurfaceId(4));
    assert_eq!(SurfaceIdentity::DragIcon(SurfaceId(5)).inner(), SurfaceId(5));
}
