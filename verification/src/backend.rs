//! The backend configuration: everything chosen once at startup, and the
//! wiring step that installs the bridge's resources into a fresh host store
//! and constructs the bridge itself.
//!
//! The window title, pixel dimensions, vsync and similar options are passed
//! through opaquely to the loop driver, which owns the window; the bridge
//! itself reads only the screen and console dimensions (as its first resize
//! baselines) and the font path (which it prefixes with the asset root
//! before the driver loads it).

use vstd::prelude::*;
use vstd::string::StringExecFns;

use crate::engine::{asset_path, spec_asset_root, DoryenEngine, EnginePhase};
use crate::event::{AppExit, Resized, SetFontPath};
use crate::input::{MouseButton, MOUSE_BUTTON_LEFT, MOUSE_BUTTON_MIDDLE, MOUSE_BUTTON_RIGHT};
use crate::options::{FpsInfo, ResizeMode};
use crate::store::HostStore;

verus! {

/// The options handed to the loop driver at startup. The bridge reads the
/// dimensions and the font path; the rest rides along to the driver.
#[derive(Clone, Debug)]
pub struct DoryenAppOptions {
    /// The console width, in cells.
    pub console_width: u32,
    /// The console height, in cells.
    pub console_height: u32,
    /// The window width, in pixels.
    pub screen_width: u32,
    /// The window height, in pixels.
    pub screen_height: u32,
    /// The window title.
    pub window_title: String,
    /// The font path, relative to the asset root.
    pub font_path: String,
    /// Whether the driver waits for vertical sync.
    pub vsync: bool,
    /// Whether the window starts fullscreen.
    pub fullscreen: bool,
    /// Whether the mouse cursor is shown.
    pub show_cursor: bool,
    /// Whether the window can be resized.
    pub resizable: bool,
    /// Whether the close button reports through the input snapshot instead
    /// of closing the window outright.
    pub intercept_close_request: bool,
    /// The frame-rate cap the driver runs at.
    pub max_fps: u32,
}

impl DoryenAppOptions {
    /// The font path the driver is given at startup: the configured path,
    /// prefixed with the asset root.
    pub fn startup_font_path(&self) -> (r: String)
        ensures
            r@ == spec_asset_root() + self.font_path@,
    {
        asset_path(self.font_path.as_str())
    }
}

/// The backend: the startup options, the resize policy, and the mouse
/// buttons the input translation listens for.
#[derive(Clone, Debug)]
pub struct DoryenBackend {
    /// The options handed to the loop driver.
    pub app_options: DoryenAppOptions,
    /// What to do when the driver's window is resized.
    pub resize_mode: ResizeMode,
    /// Which mouse buttons to translate input for. Buttons outside this list
    /// never appear in the input snapshot.
    pub mouse_button_listeners: Vec<MouseButton>,
}

impl DoryenBackend {
    /// A backend with the given options and the default policy: no resize
    /// action, and the left, middle and right mouse buttons listened.
    pub fn with_options(app_options: DoryenAppOptions) -> (r: DoryenBackend)
        ensures
            r.app_options == app_options,
            r.resize_mode == ResizeMode::Nothing,
            r.mouse_button_listeners@ == seq![
                MOUSE_BUTTON_LEFT,
                MOUSE_BUTTON_MIDDLE,
                MOUSE_BUTTON_RIGHT,
            ],
    {
        let r = DoryenBackend {
            app_options,
            resize_mode: ResizeMode::Nothing,
            mouse_button_listeners: vec![
                MOUSE_BUTTON_LEFT,
                MOUSE_BUTTON_MIDDLE,
                MOUSE_BUTTON_RIGHT,
            ],
        };
        proof {
            assert(r.mouse_button_listeners@ =~= seq![
                MOUSE_BUTTON_LEFT,
                MOUSE_BUTTON_MIDDLE,
                MOUSE_BUTTON_RIGHT,
            ]);
        }
        r
    }

    /// Wire the backend into a fresh run of the loop: install every resource
    /// the bridge needs into the store, and construct the bridge itself —
    /// uninitialized phase, a throwaway placeholder buffer, and the startup
    /// dimensions as the first resize baselines.
    pub fn build(&self, store: &mut HostStore) -> (r: DoryenEngine)
        ensures
            final(store).root_console@ is None,
            final(store).input.spec_is_clear(),
            final(store).fps_info == (FpsInfo { fps: 0, average_fps: 0 }),
            final(store).render_state.spec_needs_refresh(),
            final(store).render_state.spec_callbacks() == Seq::<u64>::empty(),
            final(store).render_systems@ matches Some(s) && s.spec_run_order() == Seq::<
                u64,
            >::empty(),
            final(store).set_font_path_events@ == Seq::<SetFontPath>::empty(),
            final(store).resized_events@ == Seq::<Resized>::empty(),
            final(store).app_exit_events@ == Seq::<AppExit>::empty(),
            r.resize_mode == self.resize_mode,
            r.swap_console == Some(crate::console::Console { width: 1, height: 1 }),
            r.previous_screen_size == (self.app_options.screen_width, self.app_options.screen_height),
            r.previous_console_size == (
                self.app_options.console_width,
                self.app_options.console_height,
            ),
            r.mouse_button_listeners@ == self.mouse_button_listeners@,
            r.app_exit_event_reader.next == 0,
            r.set_font_path_event_reader.next == 0,
            r.phase == EnginePhase::Uninitialized,
            r.pending_resize is None,
            r.can_take(*final(store)),
    {
        *store = HostStore::new();

        DoryenEngine::new(
            self.resize_mode,
            self.mouse_button_listeners.clone(),
            (self.app_options.screen_width, self.app_options.screen_height),
            (self.app_options.console_width, self.app_options.console_height),
        )
    }
}

} // verus!
