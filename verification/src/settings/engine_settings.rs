use vstd::prelude::*;
use vstd::string::StringExecFns;
use crate::settings::render_settings::RenderSettings;

verus! {

/// Describes how the engine should handle debugging messages and Vulkan settings.
#[derive(Clone, Copy, PartialEq, Eq, Structural, Debug)]
pub enum BuildType {
    /// All debugging code is used.
    Debug,
    /// No debugging code is used.
    Release,
    /// Some special debugging messages are printed.
    ReleaseWithDebugMessages,
}


/// The cursor icons a window can show.
#[derive(Clone, Copy, PartialEq, Eq, Structural, Debug)]
pub enum MouseCursor {
    Default,
    Crosshair,
    Hand,
    Arrow,
    Move,
    Text,
    Wait,
    Help,
    Progress,
    NotAllowed,
    ContextMenu,
    NoneCursor,
    Cell,
    VerticalText,
    Alias,
    Copy,
    NoDrop,
    Grab,
    Grabbing,
    AllScroll,
    ZoomIn,
    ZoomOut,
    EResize,
    NResize,
    NeResize,
    NwResize,
    SResize,
    SeResize,
    SwResize,
    WResize,
    EwResize,
    NsResize,
    NeswResize,
    NwseResize,
    ColResize,
    RowResize,
}

/// How the window treats the cursor.
#[derive(Clone, Copy, PartialEq, Eq, Structural, Debug)]
pub enum CursorState {
    /// The cursor moves freely.
    Normal,
    /// The cursor is hidden over the window.
    Hide,
    /// The cursor is hidden and held inside the window.
    Grab,
}

/// A version number.
#[derive(Clone, Copy, PartialEq, Eq, Structural, Debug)]
pub struct Version {
    pub major: u16,
    pub minor: u16,
    pub patch: u16,
}

/// Global camera settings, applied to the active camera. The distances are the bit
/// patterns of their `f32` values.
#[derive(Clone, Copy, PartialEq, Eq, Structural, Debug)]
pub struct CameraSettings {
    /// The largest distance of the frustum from the point of view.
    pub far_plane_bits: u32,
    /// The smallest distance of the frustum from the point of view.
    pub near_plane_bits: u32,
}

/// The settings of the engine.
pub struct EngineSettings {
    /// Displayed name.
    pub app_name: String,
    /// The version of the application.
    pub app_version: Version,
    pub engine_name: String,
    pub engine_version: Version,
    /// Window size in pixels.
    pub window_dimensions: [u32; 2],
    /// Window location in pixels.
    pub window_location: [u32; 2],
    pub cursor_visible_state: MouseCursor,
    pub cursor_state: CursorState,
    /// Whether the window is created fullscreen.
    pub fullscreen: bool,
    /// The monitor used in fullscreen mode.
    pub main_monitor: i32,
    pub build_mode: BuildType,
    /// Whether the next frame is captured.
    pub capture_frame: bool,
    pub render_settings: RenderSettings,
    /// The most input polls per second.
    pub max_input_speed: u32,
    pub camera: CameraSettings,
}

/// Bit pattern of the `f32` 100.0, the default far plane.
pub const DEFAULT_FAR_PLANE_BITS: u32 = 0x42c8_0000;

/// Bit pattern of the `f32` 1.0, the default near plane.
pub const DEFAULT_NEAR_PLANE_BITS: u32 = 0x3f80_0000;

impl EngineSettings {
    /// The default settings: "Jakar-Engine" version 0.1.0 for application and engine,
    /// an 800 x 600 window at (100, 100) without cursor icon and with a grabbed
    /// cursor, not fullscreen, monitor 0, debug build, no capture, the default render
    /// settings, 200 input polls per second and a camera from 1.0 to 100.0.
    pub fn default() -> (s: Self)
        ensures
            s.app_name@ == "Jakar-Engine"@,
            s.app_version == (Version { major: 0, minor: 1, patch: 0 }),
            s.engine_name@ == "Jakar-Engine"@,
            s.engine_version == (Version { major: 0, minor: 1, patch: 0 }),
            s.window_dimensions == [800u32, 600u32],
            s.window_location == [100u32, 100u32],
            s.cursor_visible_state == MouseCursor::NoneCursor,
            s.cursor_state == CursorState::Grab,
            !s.fullscreen,
            s.main_monitor == 0,
            s.build_mode == BuildType::Debug,
            !s.capture_frame,
            s.render_settings == RenderSettings::spec_default(),
            s.max_input_speed == 200,
            s.camera == (CameraSettings {
                far_plane_bits: DEFAULT_FAR_PLANE_BITS,
                near_plane_bits: DEFAULT_NEAR_PLANE_BITS,
            }),
    {
        EngineSettings {
            app_name: String::from_str("Jakar-Engine"),
            app_version: Version { major: 0, minor: 1, patch: 0 },
            engine_name: String::from_str("Jakar-Engine"),
            engine_version: Version { major: 0, minor: 1, patch: 0 },
            window_dimensions: [800, 600],
            window_location: [100, 100],
            cursor_visible_state: MouseCursor::NoneCursor,
            cursor_state: CursorState::Grab,
            fullscreen: false,
            main_monitor: 0,
            build_mode: BuildType::Debug,
            capture_frame: false,
            render_settings: RenderSettings::default(),
            max_input_speed: 200,
            camera: CameraSettings {
                far_plane_bits: DEFAULT_FAR_PLANE_BITS,
                near_plane_bits: DEFAULT_NEAR_PLANE_BITS,
            },
        }
    }

    /// Replaces the render settings.
    pub fn with_render_settings(self, settings: RenderSettings) -> (s: Self)
        ensures
            s == (EngineSettings { render_settings: settings, ..self }),
    {
        EngineSettings { render_settings: settings, ..self }
    }

    /// The current render settings.
    pub fn get_render_settings(&self) -> (r: &RenderSettings)
        ensures
            *r == self.render_settings,
    {
        &self.render_settings
    }

    /// The current render settings, to be changed in place.
    pub fn get_render_settings_mut(&mut self) -> (r: &mut RenderSettings)
        ensures
            *r == old(self).render_settings,
            *final(self) == (EngineSettings { render_settings: *final(r), ..*old(self) }),
    {
        &mut self.render_settings
    }

    /// Replaces the camera settings. Near and far planes far apart can make surfaces
    /// fight for depth.
    pub fn with_camera_settings(self, new: CameraSettings) -> (s: Self)
        ensures
            s == (EngineSettings { camera: new, ..self }),
    {
        EngineSettings { camera: new, ..self }
    }

    /// Replaces the camera settings; the settings are taken by value, so the change
    /// stays with the moved value.
    pub fn set_camera_settings(self, new: CameraSettings) {
        let mut settings = self;
        settings.camera = new;
    }

    /// The next frame is captured: the renderer reports its timings.
    pub fn capture_next_frame(&mut self)
        ensures
            *final(self) == (EngineSettings { capture_frame: true, ..*old(self) }),
    {
        self.capture_frame = true;
    }

    /// Stops capturing; done after each captured frame as well.
    pub fn stop_capture(&mut self)
        ensures
            *final(self) == (EngineSettings { capture_frame: false, ..*old(self) }),
    {
        self.capture_frame = false;
    }

    /// Sets the monitor used in fullscreen mode.
    pub fn with_main_monitor(self, id: i32) -> (s: Self)
        ensures
            s == (EngineSettings { main_monitor: id, ..self }),
    {
        EngineSettings { main_monitor: id, ..self }
    }

    /// Sets the fullscreen mode (true is fullscreen).
    pub fn with_fullscreen_mode(self, mode: bool) -> (s: Self)
        ensures
            s == (EngineSettings { fullscreen: mode, ..self }),
    {
        EngineSettings { fullscreen: mode, ..self }
    }

    /// Sets the cursor icon.
    pub fn with_cursor_visibility(self, state: MouseCursor) -> (s: Self)
        ensures
            s == (EngineSettings { cursor_visible_state: state, ..self }),
    {
        EngineSettings { cursor_visible_state: state, ..self }
    }

    /// Sets how the window treats the cursor.
    pub fn with_cursor_state(self, state: CursorState) -> (s: Self)
        ensures
            s == (EngineSettings { cursor_state: state, ..self }),
    {
        EngineSettings { cursor_state: state, ..self }
    }

    /// Sets the window size.
    pub fn with_dimensions(self, width: u32, height: u32) -> (s: Self)
        ensures
            s == (EngineSettings { window_dimensions: [width, height], ..self }),
    {
        EngineSettings { window_dimensions: [width, height], ..self }
    }

    /// Sets the most input polls per second.
    pub fn with_max_input_polling_speed(self, new: u32) -> (s: Self)
        ensures
            s == (EngineSettings { max_input_speed: new, ..self }),
    {
        EngineSettings { max_input_speed: new, ..self }
    }

    /// Sets the window location.
    pub fn at_location(self, width: u32, height: u32) -> (s: Self)
        ensures
            s == (EngineSettings { window_location: [width, height], ..self }),
    {
        EngineSettings { window_location: [width, height], ..self }
    }

    /// Switches to release mode.
    pub fn in_release_mode(self) -> (s: Self)
        ensures
            s == (EngineSettings { build_mode: BuildType::Release, ..self }),
    {
        EngineSettings { build_mode: BuildType::Release, ..self }
    }

    /// Whether Vulkan reports nothing: only in release mode.
    pub fn vulkan_silence(&self) -> (r: bool)
        ensures
            r == (self.build_mode == BuildType::Release),
    {
        match self.build_mode {
            BuildType::Release => true,
            _ => false,
        }
    }

    /// Sets the application name.
    pub fn with_name(self, name: &str) -> (s: Self)
        ensures
            s.app_name@ == name@,
            s == (EngineSettings { app_name: s.app_name, ..self }),
    {
        EngineSettings { app_name: String::from_str(name), ..self }
    }

    /// Sets the application version.
    pub fn with_app_version(self, major: u16, minor: u16, patch: u16) -> (s: Self)
        ensures
            s == (EngineSettings { app_version: Version { major, minor, patch }, ..self }),
    {
        EngineSettings { app_version: Version { major, minor, patch }, ..self }
    }

    /// Sets the window size in place.
    pub fn set_dimensions(&mut self, width: u32, height: u32)
        ensures
            *final(self) == (EngineSettings { window_dimensions: [width, height], ..*old(self) }),
    {
        self.window_dimensions = [width, height];
    }

    /// The window size.
    pub fn get_dimensions(&self) -> (d: [u32; 2])
        ensures
            d == self.window_dimensions,
    {
        self.window_dimensions
    }
}

} // verus!
