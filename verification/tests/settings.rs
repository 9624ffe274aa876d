use sctk_bridge::platform::linux;
use sctk_bridge::platform::linux::Anchor;
use sctk_bridge::platform::linux::KeyboardInteractivity;
use sctk_bridge::platform::linux::Layer;
use sctk_bridge::platform::linux::LayerShellSettings;
use sctk_bridge::platform::macos;
use sctk_bridge::platform::macos::ActivationPolicy;
use sctk_bridge::sctk_event::SurfaceCompositorUpdate;
use sctk_bridge::sctk_event::SurfaceUserRequest;
use sctk_bridge::settings::Settings;

#[test]
fn linux_settings_start_empty() {
    let settings = linux::PlatformSpecific::default();
    assert_eq!(settings.application_id, "");
    assert!(!settings.override_redirect);
    assert_eq!(settings.layer_shell, LayerShellSettings::default());
    let layer_shell = LayerShellSettings::default();
    assert_eq!(layer_shell.layer, None);
    assert_eq!(layer_shell.anchor, None);
    assert_eq!(layer_shell.output, None);
    assert_eq!(layer_shell.exclusive_zone, None);
    assert_eq!(layer_shell.margin, None);
    assert_eq!(layer_shell.input_region, None);
    assert_eq!(layer_shell.keyboard_interactivity, None);
    assert_eq!(layer_shell.namespace, None);
}

#[test]
fn layer_shell_settings_are_copied_whole() {
    let settings = LayerShellSettings {
        layer: Some(Layer::Overlay),
        anchor: Some(Anchor { bits: linux::TOP | linux::LEFT }),
        output: Some(1),
        exclusive_zone: Some(-1),
        margin: Some((1, 2, 3, 4)),
        input_region: Some((5, 6, 7, 8)),
        keyboard_interactivity: Some(KeyboardInteractivity::Exclusive),
        namespace: Some("panel".to_string()),
    };
    assert_eq!(settings.clone(), settings);
}

#[test]
fn keyboard_interactivity_is_on_demand_by_default() {
    assert_eq!(KeyboardInteractivity::default(), KeyboardInteractivity::OnDemand);
}

#[test]
fn layers_are_ordered_by_depth() {
    assert!(Layer::Background < Layer::Bottom);
    assert!(Layer::Bottom < Layer::Top);
    assert!(Layer::Top < Layer::Overlay);
}

#[test]
fn anchor_edges() {
    assert_eq!(linux::TOP, 1);
    assert_eq!(linux::BOTTOM, 2);
    assert_eq!(linux::LEFT, 4);
    assert_eq!(linux::RIGHT, 8);
    assert_eq!(Anchor::default(), Anchor::empty());
    assert!(Anchor::empty().is_empty());
    assert_eq!(Anchor::all().bits, 15);
    let corner = Anchor { bits: linux::TOP }.union(Anchor { bits: linux::LEFT });
    assert_eq!(corner.bits, 5);
    assert!(corner.contains(Anchor { bits: linux::TOP }));
    assert!(corner.contains(Anchor { bits: linux::LEFT }));
    assert!(!corner.contains(Anchor { bits: linux::RIGHT }));
    assert!(Anchor::all().contains(corner));
    assert_eq!(Anchor::from_bits(5), Some(corner));
    assert_eq!(Anchor::from_bits(15), Some(Anchor::all()));
    assert_eq!(Anchor::from_bits(16), None);
    assert_eq!(Anchor::from_bits(0), Some(Anchor::empty()));
    assert_eq!(Anchor::from_bits_truncate(0xff), Anchor::all());
    assert_eq!(Anchor::from_bits_truncate(16 | 2), Anchor { bits: 2 });
}

#[test]
fn macos_settings_come_to_the_front() {
    let settings = macos::PlatformSpecific::default();
    assert_eq!(settings.activation_policy, ActivationPolicy::Regular);
    assert!(settings.activate_ignoring_other_apps);
    assert_eq!(ActivationPolicy::default(), ActivationPolicy::Regular);
}

#[test]
fn application_settings_start_empty() {
    let settings = Settings::default();
    assert_eq!(settings.id, None);
    assert!(settings.fonts.is_empty());
    assert_eq!(settings.platform_specific, sctk_bridge::settings::PlatformSpecific::default());
}

#[test]
fn pending_requests_start_empty() {
    assert_eq!(
        SurfaceUserRequest::default(),
        SurfaceUserRequest { redraw_requested: false, refresh_frame: false }
    );
    assert_eq!(
        SurfaceCompositorUpdate::default(),
        SurfaceCompositorUpdate { configure: None, scale_factor: None }
    );
}
