use jakar_engine::settings::engine_settings::{BuildType, CameraSettings, CursorState, EngineSettings, MouseCursor, Version};
use jakar_engine::settings::render_settings::{test_for_power_of_two, DebugSettings, DebugView, DirectionalLightSettings, RenderSettings};

#[test]
fn debug_view_shader_codes() {
    assert_eq!(DebugView::MainDepth.as_shader_int(), 0);
    assert_eq!(DebugView::HdrFragments.as_shader_int(), 1);
    assert_eq!(DebugView::ScaledLdr.as_shader_int(), 2);
    assert_eq!(DebugView::DirectionalDepth.as_shader_int(), 3);
    assert_eq!(DebugView::Shaded.as_shader_int(), 4);
}

#[test]
fn power_of_two_detection() {
    for n in [1u32, 2, 4, 8, 16, 1024, 1 << 30] {
        assert!(test_for_power_of_two(n), "{} is a power of two", n);
    }
    for n in [0u32, 3, 6, 12, 100, (1 << 30) + 1] {
        assert!(!test_for_power_of_two(n), "{} is no power of two", n);
    }
}

#[test]
fn power_of_two_above_i32_range() {
    assert!(test_for_power_of_two(1u32 << 31));
    assert!(!test_for_power_of_two(u32::MAX));
    assert!(!test_for_power_of_two((1u32 << 31) + 2));
}

#[test]
fn render_settings_defaults() {
    let s = RenderSettings::default();
    assert!(!s.render_settings_changed());
    assert_eq!(s.get_anisotropical_filtering(), 1);
    assert_eq!(s.get_msaa_factor(), 1);
    assert!(!s.get_vsync());
    assert_eq!(f32::from_bits(s.get_gamma_bits()), 2.2f32);
    let expected = DebugSettings { debug_view: DebugView::Shaded, ldr_debug_view_level: 0, draw_bounds: false };
    assert_eq!(s.debug_settings, expected);
}

#[test]
fn msaa_factor_accepts_only_small_powers_of_two() {
    let s = RenderSettings::default();
    assert_eq!(s.with_msaa_factor(4).get_msaa_factor(), 4);
    assert_eq!(s.with_msaa_factor(16).get_msaa_factor(), 16);
    assert_eq!(s.with_msaa_factor(3).get_msaa_factor(), 1);
    assert_eq!(s.with_msaa_factor(32).get_msaa_factor(), 1);
    assert_eq!(s.with_msaa_factor(0).get_msaa_factor(), 1);
}

#[test]
fn law_factors_stay_accepted_on_values() {
    let mut s = RenderSettings::default();
    for f in [0u32, 1, 2, 3, 5, 8, 16, 17, 64, 1000] {
        s = s.with_msaa_factor(f).with_anisotropical_filtering(f);
        assert!(test_for_power_of_two(s.get_msaa_factor()) && s.get_msaa_factor() <= 16);
        assert!(test_for_power_of_two(s.get_anisotropical_filtering()) && s.get_anisotropical_filtering() <= 16);
    }
    assert_eq!(s.get_msaa_factor(), 16);
}

#[test]
fn anisotropic_filtering_builder() {
    let s = RenderSettings::default();
    assert_eq!(s.with_anisotropical_filtering(8).get_anisotropical_filtering(), 8);
    assert_eq!(s.with_anisotropical_filtering(7).get_anisotropical_filtering(), 1);
}

#[test]
fn vsync_and_change_flag() {
    let mut s = RenderSettings::default().with_vsync(true);
    assert!(s.get_vsync());
    s.set_vsync(false);
    assert!(!s.get_vsync());
    s.has_changed = true;
    assert!(s.render_settings_changed());
    s.resolved_settings();
    assert!(!s.render_settings_changed());
}

#[test]
fn engine_settings_defaults() {
    let s = EngineSettings::default();
    assert_eq!(s.app_name, "Jakar-Engine");
    assert_eq!(s.engine_name, "Jakar-Engine");
    assert_eq!(s.app_version, Version { major: 0, minor: 1, patch: 0 });
    assert_eq!(s.get_dimensions(), [800, 600]);
    assert_eq!(s.window_location, [100, 100]);
    assert_eq!(s.cursor_visible_state, MouseCursor::NoneCursor);
    assert_eq!(s.cursor_state, CursorState::Grab);
    assert!(!s.fullscreen);
    assert_eq!(s.build_mode, BuildType::Debug);
    assert_eq!(s.max_input_speed, 200);
    assert_eq!(f32::from_bits(s.camera.far_plane_bits), 100.0);
    assert_eq!(f32::from_bits(s.camera.near_plane_bits), 1.0);
    assert!(!s.vulkan_silence());
}

#[test]
fn engine_settings_builders() {
    let mut s = EngineSettings::default()
        .with_dimensions(1024, 768)
        .with_name("Teddy the bear")
        .with_app_version(1, 2, 3)
        .at_location(5, 6)
        .with_fullscreen_mode(true)
        .with_main_monitor(2)
        .with_max_input_polling_speed(60)
        .with_cursor_state(CursorState::Normal)
        .with_cursor_visibility(MouseCursor::Hand)
        .with_camera_settings(CameraSettings { far_plane_bits: 7, near_plane_bits: 3 })
        .in_release_mode();
    assert_eq!(s.get_dimensions(), [1024, 768]);
    assert_eq!(s.app_name, "Teddy the bear");
    assert_eq!(s.app_version, Version { major: 1, minor: 2, patch: 3 });
    assert_eq!(s.window_location, [5, 6]);
    assert!(s.fullscreen);
    assert_eq!(s.main_monitor, 2);
    assert_eq!(s.max_input_speed, 60);
    assert_eq!(s.cursor_state, CursorState::Normal);
    assert_eq!(s.cursor_visible_state, MouseCursor::Hand);
    assert_eq!(s.camera.far_plane_bits, 7);
    assert!(s.vulkan_silence());
    s.set_dimensions(10, 20);
    assert_eq!(s.get_dimensions(), [10, 20]);
    s.capture_next_frame();
    assert!(s.capture_frame);
    s.stop_capture();
    assert!(!s.capture_frame);
    s.get_render_settings_mut().msaa = 8;
    assert_eq!(s.get_render_settings().msaa, 8);
    let s = s.with_render_settings(RenderSettings::default());
    assert_eq!(s.get_render_settings().msaa, 1);
}

#[test]
fn directional_light_defaults() {
    let d = DirectionalLightSettings::default();
    assert_eq!(d.get_pcf_samples(), 9);
    assert_eq!(d.get_shadow_map_resolution(), 1024);
    assert_eq!(d.get_num_cascades(), 4);
    assert_eq!(f32::from_bits(d.get_cascade_lambda_bits()), 0.95);
    assert_eq!(RenderSettings::default().light_settings.directional_settings.get_pcf_samples(), 9);
}
