use sctk_bridge::keyboard::physical::PhysicalKey;
use sctk_bridge::sctk_event::physical_key;

#[test]
fn physical_key_of_known_codes() {
    assert_eq!(physical_key(30), PhysicalKey::KeyA);
    assert_eq!(physical_key(1), PhysicalKey::Escape);
    assert_eq!(physical_key(9999), PhysicalKey::Unidentified);
}
