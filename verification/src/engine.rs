//! The loop bridge: a state machine with one transition per lifecycle
//! callback of the externally driven loop.
//!
//! The driver calls `init`, `update`, `render` and `resize` in strict
//! sequence on a single thread. Each callback is a fixed ordered sequence of
//! sub-steps over the host store: hand the console buffer over, translate
//! input, relay events, run schedules. The two steps the bridge cannot
//! perform itself — running the host's main schedule during `update`, and
//! executing the render schedule's callables and the user's resize callback
//! during `render` and `resize` — belong to the host framework and to user
//! code, so those callbacks are split in two: a `*_begin` half that prepares
//! the frame and hands the caller what to run, and a `*_end` half that takes
//! the frame back apart. Between the two halves the host owns the buffer and
//! the caller runs the host-side work.
//!
//! Every take/restore pairing violation is surfaced as a
//! [`ProtocolViolation`]; the caller must treat it as fatal.

use vstd::prelude::*;
use vstd::string::StringExecFns;

use crate::console::Console;
use crate::event::{spec_latest_since, ManualEventReader, Resized, SetFontPath};
use crate::input::{input_translated, MouseButton, RawInput};
use crate::options::{FpsInfo, ResizeMode};
use crate::render::{CallbackId, RenderSchedule};
use crate::store::HostStore;

verus! {

/// A broken invariant in the bridge itself: a double take or double restore
/// of the buffer or of the render schedule, or a lifecycle callback arriving
/// in the wrong phase. These are programming-contract violations, not
/// runtime conditions to recover from: the caller must abort the frame or
/// the process rather than continue with inconsistent ownership.
#[derive(Clone, Copy, Debug, PartialEq, Eq, Structural)]
pub enum ProtocolViolation {
    /// The buffer was taken while the host slot already held it.
    DoubleBufferTake,
    /// The buffer was restored while the host slot did not hold it.
    DoubleBufferRestore,
    /// The render schedule was taken while already taken out.
    DoubleScheduleTake,
    /// The render schedule was restored while already present.
    DoubleScheduleRestore,
    /// A registration was attempted while the schedule was taken out.
    ScheduleUnavailable,
    /// A lifecycle callback arrived in a phase that does not allow it.
    OutOfSequence,
}

impl ProtocolViolation {
    /// A diagnostic identifying which handoff step failed.
    pub fn message(&self) -> (r: &'static str)
        ensures
            r@.len() > 0,
            match self {
                ProtocolViolation::DoubleBufferTake => r@
                    == "root console taken while the host already held it"@,
                ProtocolViolation::DoubleBufferRestore => r@
                    == "root console restored while the host did not hold it"@,
                ProtocolViolation::DoubleScheduleTake => r@
                    == "render schedule taken while already taken out"@,
                ProtocolViolation::DoubleScheduleRestore => r@
                    == "render schedule restored while already present"@,
                ProtocolViolation::ScheduleUnavailable => r@
                    == "render system registered while the schedule was taken out"@,
                ProtocolViolation::OutOfSequence => r@
                    == "lifecycle callback arrived in the wrong phase"@,
            },
    {
        let r = match self {
            ProtocolViolation::DoubleBufferTake => "root console taken while the host already held it",
            ProtocolViolation::DoubleBufferRestore => "root console restored while the host did not hold it",
            ProtocolViolation::DoubleScheduleTake => "render schedule taken while already taken out",
            ProtocolViolation::DoubleScheduleRestore => "render schedule restored while already present",
            ProtocolViolation::ScheduleUnavailable => "render system registered while the schedule was taken out",
            ProtocolViolation::OutOfSequence => "lifecycle callback arrived in the wrong phase",
        };
        proof {
            reveal_strlit("root console taken while the host already held it");
            reveal_strlit("root console restored while the host did not hold it");
            reveal_strlit("render schedule taken while already taken out");
            reveal_strlit("render schedule restored while already present");
            reveal_strlit("render system registered while the schedule was taken out");
            reveal_strlit("lifecycle callback arrived in the wrong phase");
        }
        r
    }
}

/// Which lifecycle callback, if any, the bridge is currently inside.
#[derive(Clone, Copy, Debug, PartialEq, Eq, Structural)]
pub enum EnginePhase {
    /// `init` has not run yet.
    Uninitialized,
    /// Between callbacks; the driver owns the buffer.
    Idle,
    /// Between the two halves of `update`; the host owns the buffer.
    UpdateInProgress,
    /// Between the two halves of `render`; the host owns the buffer.
    RenderInProgress,
}

/// Whether the buffer can be taken: the bridge holds the placeholder and the
/// host slot is empty, so the driver currently owns the live buffer.
pub open spec fn handoff_can_take(swap: Option<Console>, slot: Option<Console>) -> bool {
    swap is Some && slot is None
}

/// Whether the buffer can be restored: the host slot holds the live buffer
/// and the bridge no longer holds the placeholder.
pub open spec fn handoff_can_restore(swap: Option<Console>, slot: Option<Console>) -> bool {
    slot is Some && swap is None
}

/// The take transition on (bridge placeholder slot, host slot, driver's
/// buffer): the live buffer moves into the host slot and the placeholder
/// moves to the driver.
pub open spec fn spec_take(swap: Option<Console>, slot: Option<Console>, driver: Console) -> (
    Option<Console>,
    Option<Console>,
    Console,
)
    recommends
        handoff_can_take(swap, slot),
{
    let placeholder = match swap {
        Some(p) => p,
        None => driver,
    };
    (None, Some(driver), placeholder)
}

/// The restore transition: the live buffer moves from the host slot back to
/// the driver and the bridge holds the placeholder again.
pub open spec fn spec_restore(swap: Option<Console>, slot: Option<Console>, driver: Console) -> (
    Option<Console>,
    Option<Console>,
    Console,
)
    recommends
        handoff_can_restore(swap, slot),
{
    let live = match slot {
        Some(c) => c,
        None => driver,
    };
    (Some(driver), None, live)
}

/// What `update` hands back to the driver: the font path to load, if a
/// change was requested this frame, and whether the host asked to terminate
/// the loop.
#[derive(Clone, Debug)]
pub struct UpdateOutcome {
    /// The most recently requested font path, prefixed with the asset root,
    /// if any request was published since the last update.
    pub font_path: Option<String>,
    /// Whether the driver should stop calling further callbacks.
    pub exit: bool,
}

/// What the caller must run during the render callback, between the two
/// halves of `render`: the one-shot refresh callbacks (empty unless the
/// render-state flag was raised), then the schedule's callables in the
/// schedule's own order. The schedule itself is handed out here and must be
/// handed back to [`DoryenEngine::render_end`].
#[derive(Debug)]
pub struct RenderPass {
    /// The one-shot refresh callbacks to run first, in registration order.
    pub refresh_callbacks: Vec<CallbackId>,
    /// The render schedule, taken out of the host store for this pass.
    pub schedule: RenderSchedule,
}

/// What the resize callback decided.
#[derive(Clone, Copy, Debug, PartialEq, Eq, Structural)]
pub enum ResizeOutcome {
    /// The configured policy has been applied in full.
    Done,
    /// The callback policy is configured: the host now owns the buffer, and
    /// the caller must invoke its resize callback with the host-owned buffer
    /// and this record, then call [`DoryenEngine::resize_finish`].
    CallbackPending(Resized),
}

/// The fixed asset-root prefix the driver resolves font paths against.
pub open spec fn spec_asset_root() -> Seq<char> {
    "assets/"@
}

/// Prefix a path with the fixed asset root.
pub fn asset_path(path: &str) -> (r: String)
    ensures
        r@ == spec_asset_root() + path@,
{
    let mut r = String::from_str("assets/");
    r.append(path);
    r
}

/// The loop bridge's own state: the configuration chosen at startup, the
/// placeholder slot of the buffer handoff, the resize baselines, the two
/// event-stream cursors, and the lifecycle phase.
#[derive(Debug)]
pub struct DoryenEngine {
    /// The configured resize policy.
    pub resize_mode: ResizeMode,
    /// The placeholder buffer, held whenever the driver owns the live
    /// buffer; empty exactly while the host slot holds the live buffer.
    pub swap_console: Option<Console>,
    /// The screen size, in pixels, recorded at startup and after each
    /// resize; the "previous" size of the next resize event.
    pub previous_screen_size: (u32, u32),
    /// The console size, in cells, recorded at startup and after each
    /// resize; with the screen size it fixes the cell-size ratio the
    /// automatic policy preserves.
    pub previous_console_size: (u32, u32),
    /// The mouse buttons the input translation listens for.
    pub mouse_button_listeners: Vec<MouseButton>,
    /// This bridge's cursor into the host's exit-request stream.
    pub app_exit_event_reader: ManualEventReader,
    /// This bridge's cursor into the font-path request stream.
    pub set_font_path_event_reader: ManualEventReader,
    /// Which callback, if any, the bridge is currently inside.
    pub phase: EnginePhase,
    /// The new screen size of a resize whose callback policy is still
    /// running; `resize_finish` records it as the next baseline.
    pub pending_resize: Option<(u32, u32)>,
}

impl DoryenEngine {
    /// Whether the bridge may take the buffer from the driver.
    pub open spec fn can_take(&self, store: HostStore) -> bool {
        handoff_can_take(self.swap_console, store.root_console@)
    }

    /// Whether the bridge may restore the buffer to the driver.
    pub open spec fn can_restore(&self, store: HostStore) -> bool {
        handoff_can_restore(self.swap_console, store.root_console@)
    }

    /// A bridge configured for one run of the loop: a throwaway placeholder
    /// buffer, the startup screen and console sizes as the first resize
    /// baselines, fresh event cursors, and the uninitialized phase.
    pub fn new(
        resize_mode: ResizeMode,
        mouse_button_listeners: Vec<MouseButton>,
        screen_size: (u32, u32),
        console_size: (u32, u32),
    ) -> (r: DoryenEngine)
        ensures
            r.resize_mode == resize_mode,
            r.swap_console == Some(Console { width: 1, height: 1 }),
            r.previous_screen_size == screen_size,
            r.previous_console_size == console_size,
            r.mouse_button_listeners == mouse_button_listeners,
            r.app_exit_event_reader.next == 0,
            r.set_font_path_event_reader.next == 0,
            r.phase == EnginePhase::Uninitialized,
            r.pending_resize is None,
    {
        DoryenEngine {
            resize_mode,
            swap_console: Some(Console::new(1, 1)),
            previous_screen_size: screen_size,
            previous_console_size: console_size,
            mouse_button_listeners,
            app_exit_event_reader: ManualEventReader::new(),
            set_font_path_event_reader: ManualEventReader::new(),
            phase: EnginePhase::Uninitialized,
            pending_resize: None,
        }
    }

    /// Take ownership of the buffer: swap the driver's live buffer against
    /// the placeholder and move it into the host slot. Fails, changing
    /// nothing, if the host slot is already occupied or the placeholder is
    /// gone — a double take.
    pub fn take_root_console_ownership(
        &mut self,
        store: &mut HostStore,
        api_console: &mut Console,
    ) -> (r: Result<(), ProtocolViolation>)
        ensures
            *final(self) == (DoryenEngine { swap_console: final(self).swap_console, ..*old(self) }),
            *final(store) == (HostStore { root_console: final(store).root_console, ..*old(store) }),
            match r {
                Ok(()) => {
                    &&& old(self).can_take(*old(store))
                    &&& (final(self).swap_console, final(store).root_console@, *final(api_console))
                        == spec_take(
                        old(self).swap_console,
                        old(store).root_console@,
                        *old(api_console),
                    )
                },
                Err(e) => {
                    &&& e == ProtocolViolation::DoubleBufferTake
                    &&& !old(self).can_take(*old(store))
                    &&& *final(self) == *old(self)
                    &&& *final(store) == *old(store)
                    &&& *final(api_console) == *old(api_console)
                },
            },
    {
        if store.root_console.is_occupied() {
            return Err(ProtocolViolation::DoubleBufferTake);
        }
        match self.swap_console.take() {
            Some(placeholder) => {
                let live = *api_console;
                *api_console = placeholder;
                store.root_console.fill(live);
                Ok(())
            },
            None => Err(ProtocolViolation::DoubleBufferTake),
        }
    }

    /// Restore ownership of the buffer: move it out of the host slot back to
    /// the driver and hold the placeholder again. Fails, changing nothing,
    /// if the host slot is empty — a double restore.
    pub fn restore_root_console_ownership(
        &mut self,
        store: &mut HostStore,
        api_console: &mut Console,
    ) -> (r: Result<(), ProtocolViolation>)
        ensures
            *final(self) == (DoryenEngine { swap_console: final(self).swap_console, ..*old(self) }),
            *final(store) == (HostStore { root_console: final(store).root_console, ..*old(store) }),
            match r {
                Ok(()) => {
                    &&& old(self).can_restore(*old(store))
                    &&& (final(self).swap_console, final(store).root_console@, *final(api_console))
                        == spec_restore(
                        old(self).swap_console,
                        old(store).root_console@,
                        *old(api_console),
                    )
                },
                Err(e) => {
                    &&& e == ProtocolViolation::DoubleBufferRestore
                    &&& !old(self).can_restore(*old(store))
                    &&& *final(self) == *old(self)
                    &&& *final(store) == *old(store)
                    &&& *final(api_console) == *old(api_console)
                },
            },
    {
        if self.swap_console.is_some() {
            return Err(ProtocolViolation::DoubleBufferRestore);
        }
        if !store.root_console.is_occupied() {
            return Err(ProtocolViolation::DoubleBufferRestore);
        }
        let live = store.root_console.empty_out();
        let placeholder = *api_console;
        *api_console = live;
        self.swap_console = Some(placeholder);
        Ok(())
    }

    /// The `init` callback: leave the uninitialized phase and install a
    /// fresh input snapshot in the host store.
    pub fn init(&mut self, store: &mut HostStore) -> (r: Result<(), ProtocolViolation>)
        ensures
            match r {
                Ok(()) => {
                    &&& old(self).phase == EnginePhase::Uninitialized
                    &&& *final(self) == (DoryenEngine { phase: EnginePhase::Idle, ..*old(self) })
                    &&& final(store).input.spec_is_clear()
                    &&& *final(store) == (HostStore { input: final(store).input, ..*old(store) })
                },
                Err(e) => {
                    &&& e == ProtocolViolation::OutOfSequence
                    &&& old(self).phase != EnginePhase::Uninitialized
                    &&& *final(self) == *old(self)
                    &&& *final(store) == *old(store)
                },
            },
    {
        if !matches!(self.phase, EnginePhase::Uninitialized) {
            return Err(ProtocolViolation::OutOfSequence);
        }
        store.input = crate::input::DoryenInput::new();
        self.phase = EnginePhase::Idle;
        Ok(())
    }

    /// The first half of the `update` callback: record the frame-rate
    /// metrics, translate the raw input report into the snapshot, and take
    /// ownership of the buffer. After it returns the caller runs the host's
    /// main schedule once, then calls [`DoryenEngine::update_end`].
    pub fn update_begin(
        &mut self,
        store: &mut HostStore,
        api_console: &mut Console,
        raw: &RawInput,
        fps: u32,
        average_fps: u32,
    ) -> (r: Result<(), ProtocolViolation>)
        ensures
            match r {
                Ok(()) => {
                    &&& old(self).phase == EnginePhase::Idle
                    &&& old(self).can_take(*old(store))
                    &&& *final(self) == (DoryenEngine {
                        phase: EnginePhase::UpdateInProgress,
                        swap_console: None,
                        ..*old(self)
                    })
                    &&& *final(store) == (HostStore {
                        fps_info: (FpsInfo { fps, average_fps }),
                        input: final(store).input,
                        root_console: final(store).root_console,
                        ..*old(store)
                    })
                    &&& input_translated(
                        old(store).input,
                        final(store).input,
                        old(self).mouse_button_listeners@,
                        *raw,
                    )
                    &&& final(store).root_console@ == Some(*old(api_console))
                    &&& old(self).swap_console == Some(*final(api_console))
                },
                Err(e) => {
                    &&& *final(self) == *old(self)
                    &&& *final(store) == *old(store)
                    &&& *final(api_console) == *old(api_console)
                    &&& if old(self).phase != EnginePhase::Idle {
                        e == ProtocolViolation::OutOfSequence
                    } else {
                        e == ProtocolViolation::DoubleBufferTake && !old(self).can_take(
                            *old(store),
                        )
                    }
                },
            },
    {
        if !matches!(self.phase, EnginePhase::Idle) {
            return Err(ProtocolViolation::OutOfSequence);
        }
        if self.swap_console.is_none() || store.root_console.is_occupied() {
            return Err(ProtocolViolation::DoubleBufferTake);
        }

        store.fps_info = FpsInfo { fps, average_fps };
        store.input.handle_input(&self.mouse_button_listeners, raw);

        match self.take_root_console_ownership(store, api_console) {
            Ok(()) => {},
            Err(_) => {
                proof {
                    assert(false);
                }
            },
        }
        self.phase = EnginePhase::UpdateInProgress;
        Ok(())
    }

    /// The second half of the `update` callback, run after the host's main
    /// schedule: restore buffer ownership to the driver, drain the font-path
    /// stream (only the most recent request takes effect, prefixed with the
    /// asset root), and drain the exit stream (any request since the last
    /// read means the driver must terminate).
    pub fn update_end(&mut self, store: &mut HostStore, api_console: &mut Console) -> (r: Result<
        UpdateOutcome,
        ProtocolViolation,
    >)
        ensures
            match r {
                Ok(outcome) => {
                    &&& old(self).phase == EnginePhase::UpdateInProgress
                    &&& old(self).can_restore(*old(store))
                    &&& *final(store) == (HostStore {
                        root_console: final(store).root_console,
                        ..*old(store)
                    })
                    &&& (
                    final(self).swap_console,
                    final(store).root_console@,
                    *final(api_console),
                    ) == spec_restore(
                        old(self).swap_console,
                        old(store).root_console@,
                        *old(api_console),
                    )
                    &&& *final(self) == (DoryenEngine {
                        swap_console: final(self).swap_console,
                        phase: EnginePhase::Idle,
                        set_font_path_event_reader: final(self).set_font_path_event_reader,
                        app_exit_event_reader: final(self).app_exit_event_reader,
                        ..*old(self)
                    })
                    &&& match spec_latest_since(
                        old(store).set_font_path_events@,
                        old(self).set_font_path_event_reader.next as int,
                    ) {
                        Some(request) => {
                            &&& outcome.font_path matches Some(p) && p@ == spec_asset_root()
                                + request.0@
                            &&& final(self).set_font_path_event_reader.next == old(
                                store,
                            ).set_font_path_events@.len()
                        },
                        None => {
                            &&& outcome.font_path is None
                            &&& final(self).set_font_path_event_reader == old(
                                self,
                            ).set_font_path_event_reader
                        },
                    }
                    &&& outcome.exit == (spec_latest_since(
                        old(store).app_exit_events@,
                        old(self).app_exit_event_reader.next as int,
                    ) is Some)
                    &&& outcome.exit ==> final(self).app_exit_event_reader.next == old(
                        store,
                    ).app_exit_events@.len()
                    &&& !outcome.exit ==> final(self).app_exit_event_reader == old(
                        self,
                    ).app_exit_event_reader
                },
                Err(e) => {
                    &&& *final(self) == *old(self)
                    &&& *final(store) == *old(store)
                    &&& *final(api_console) == *old(api_console)
                    &&& if old(self).phase != EnginePhase::UpdateInProgress {
                        e == ProtocolViolation::OutOfSequence
                    } else {
                        e == ProtocolViolation::DoubleBufferRestore && !old(self).can_restore(
                            *old(store),
                        )
                    }
                },
            },
    {
        if !matches!(self.phase, EnginePhase::UpdateInProgress) {
            return Err(ProtocolViolation::OutOfSequence);
        }
        if self.swap_console.is_some() || !store.root_console.is_occupied() {
            return Err(ProtocolViolation::DoubleBufferRestore);
        }

        match self.restore_root_console_ownership(store, api_console) {
            Ok(()) => {},
            Err(_) => {
                proof {
                    assert(false);
                }
            },
        }

        // Process the latest font-path change request, if any
        let font_path = match self.set_font_path_event_reader.latest(&store.set_font_path_events) {
            Some(request) => Some(asset_path(request.0.as_str())),
            None => None,
        };

        // Drain the exit stream: any request since the last read terminates
        let exit = self.app_exit_event_reader.any_since(&store.app_exit_events);

        self.phase = EnginePhase::Idle;
        Ok(UpdateOutcome { font_path, exit })
    }

    /// The first half of the `render` callback: take ownership of the
    /// buffer, collect the one-shot refresh callbacks if the render-state
    /// flag is raised (and lower it), and take the render schedule out of
    /// the store. After it returns the caller runs the refresh callbacks and
    /// then the schedule's callables, in the pass's order, and hands the
    /// schedule back to [`DoryenEngine::render_end`].
    pub fn render_begin(&mut self, store: &mut HostStore, api_console: &mut Console) -> (r: Result<
        RenderPass,
        ProtocolViolation,
    >)
        ensures
            match r {
                Ok(pass) => {
                    &&& old(self).phase == EnginePhase::Idle
                    &&& old(self).can_take(*old(store))
                    &&& *final(self) == (DoryenEngine {
                        phase: EnginePhase::RenderInProgress,
                        swap_console: None,
                        ..*old(self)
                    })
                    &&& *final(store) == (HostStore {
                        root_console: final(store).root_console,
                        render_state: final(store).render_state,
                        render_systems: final(store).render_systems,
                        ..*old(store)
                    })
                    &&& final(store).root_console@ == Some(*old(api_console))
                    &&& old(self).swap_console == Some(*final(api_console))
                    &&& pass.refresh_callbacks@ == if old(store).render_state.spec_needs_refresh() {
                        old(store).render_state.spec_callbacks()
                    } else {
                        Seq::<CallbackId>::empty()
                    }
                    &&& !final(store).render_state.spec_needs_refresh()
                    &&& final(store).render_state.spec_callbacks() == old(
                        store,
                    ).render_state.spec_callbacks()
                    &&& old(store).render_systems@ == Some(pass.schedule)
                    &&& final(store).render_systems@ is None
                },
                Err(e) => {
                    &&& *final(self) == *old(self)
                    &&& *final(store) == *old(store)
                    &&& *final(api_console) == *old(api_console)
                    &&& if old(self).phase != EnginePhase::Idle {
                        e == ProtocolViolation::OutOfSequence
                    } else if !old(self).can_take(*old(store)) {
                        e == ProtocolViolation::DoubleBufferTake
                    } else {
                        e == ProtocolViolation::DoubleScheduleTake && old(
                            store,
                        ).render_systems@ is None
                    }
                },
            },
    {
        if !matches!(self.phase, EnginePhase::Idle) {
            return Err(ProtocolViolation::OutOfSequence);
        }
        if self.swap_console.is_none() || store.root_console.is_occupied() {
            return Err(ProtocolViolation::DoubleBufferTake);
        }
        if !store.render_systems.is_present() {
            return Err(ProtocolViolation::DoubleScheduleTake);
        }

        match self.take_root_console_ownership(store, api_console) {
            Ok(()) => {},
            Err(_) => {
                proof {
                    assert(false);
                }
            },
        }

        // Run the one-shot refresh callbacks, if flagged, then lower the flag
        let refresh_callbacks = if store.render_state.needs_refresh() {
            let callbacks = store.render_state.callbacks();
            store.render_state.clear_flag();
            callbacks
        } else {
            Vec::new()
        };

        let schedule = match store.render_systems.take() {
            Ok(schedule) => schedule,
            Err(_) => {
                proof {
                    assert(false);
                }
                RenderSchedule::new()
            },
        };

        self.phase = EnginePhase::RenderInProgress;
        Ok(RenderPass { refresh_callbacks, schedule })
    }

    /// The second half of the `render` callback: put the schedule back into
    /// the store and restore buffer ownership to the driver.
    pub fn render_end(
        &mut self,
        store: &mut HostStore,
        api_console: &mut Console,
        schedule: RenderSchedule,
    ) -> (r: Result<(), ProtocolViolation>)
        ensures
            match r {
                Ok(()) => {
                    &&& old(self).phase == EnginePhase::RenderInProgress
                    &&& old(store).render_systems@ is None
                    &&& old(self).can_restore(*old(store))
                    &&& final(store).render_systems@ == Some(schedule)
                    &&& *final(store) == (HostStore {
                        root_console: final(store).root_console,
                        render_systems: final(store).render_systems,
                        ..*old(store)
                    })
                    &&& (
                    final(self).swap_console,
                    final(store).root_console@,
                    *final(api_console),
                    ) == spec_restore(
                        old(self).swap_console,
                        old(store).root_console@,
                        *old(api_console),
                    )
                    &&& *final(self) == (DoryenEngine {
                        swap_console: final(self).swap_console,
                        phase: EnginePhase::Idle,
                        ..*old(self)
                    })
                },
                Err(e) => {
                    &&& *final(self) == *old(self)
                    &&& *final(store) == *old(store)
                    &&& *final(api_console) == *old(api_console)
                    &&& if old(self).phase != EnginePhase::RenderInProgress {
                        e == ProtocolViolation::OutOfSequence
                    } else if old(store).render_systems@ is Some {
                        e == ProtocolViolation::DoubleScheduleRestore
                    } else {
                        e == ProtocolViolation::DoubleBufferRestore && !old(self).can_restore(
                            *old(store),
                        )
                    }
                },
            },
    {
        if !matches!(self.phase, EnginePhase::RenderInProgress) {
            return Err(ProtocolViolation::OutOfSequence);
        }
        if store.render_systems.is_present() {
            return Err(ProtocolViolation::DoubleScheduleRestore);
        }
        if self.swap_console.is_some() || !store.root_console.is_occupied() {
            return Err(ProtocolViolation::DoubleBufferRestore);
        }

        match store.render_systems.restore(schedule) {
            Ok(()) => {},
            Err(_) => {
                proof {
                    assert(false);
                }
            },
        }
        match self.restore_root_console_ownership(store, api_console) {
            Ok(()) => {},
            Err(_) => {
                proof {
                    assert(false);
                }
            },
        }

        self.phase = EnginePhase::Idle;
        Ok(())
    }

    /// The `resize` callback. It does not change the lifecycle phase. The
    /// bridge publishes a resize record on the host's resize stream, then
    /// applies the configured policy: Nothing does nothing further;
    /// Automatic resizes the driver's console so that the cell size in
    /// pixels fixed by the previous screen-to-console ratio is preserved;
    /// Callback takes buffer ownership and hands the record back so that the
    /// caller can run its own callback before [`DoryenEngine::resize_finish`]
    /// restores ownership. Except in that pending case, the new screen size
    /// and the console's resulting size become the baselines for the next
    /// resize.
    pub fn resize(
        &mut self,
        store: &mut HostStore,
        api_console: &mut Console,
        new_width: u32,
        new_height: u32,
    ) -> (r: Result<ResizeOutcome, ProtocolViolation>)
        requires
            old(self).resize_mode == ResizeMode::Automatic ==> {
                &&& old(self).previous_console_size.0 > 0
                &&& old(self).previous_console_size.1 > 0
                &&& old(self).previous_screen_size.0 / old(self).previous_console_size.0 > 0
                &&& old(self).previous_screen_size.1 / old(self).previous_console_size.1 > 0
            },
        ensures
            ({
                let record = Resized {
                    previous_width: old(self).previous_screen_size.0,
                    previous_height: old(self).previous_screen_size.1,
                    new_width,
                    new_height,
                };
                match r {
                    Ok(outcome) => {
                        &&& *final(store) == (HostStore {
                            resized_events: final(store).resized_events,
                            root_console: final(store).root_console,
                            ..*old(store)
                        })
                        &&& final(store).resized_events@ == old(store).resized_events@.push(record)
                        &&& match old(self).resize_mode {
                            ResizeMode::Nothing => {
                                &&& outcome == ResizeOutcome::Done
                                &&& *final(api_console) == *old(api_console)
                                &&& final(store).root_console == old(store).root_console
                                &&& *final(self) == (DoryenEngine {
                                    previous_screen_size: (new_width, new_height),
                                    previous_console_size: (
                                        old(api_console).width,
                                        old(api_console).height,
                                    ),
                                    ..*old(self)
                                })
                            },
                            ResizeMode::Automatic => {
                                &&& outcome == ResizeOutcome::Done
                                &&& final(api_console).width == new_width / (old(
                                    self,
                                ).previous_screen_size.0 / old(self).previous_console_size.0)
                                &&& final(api_console).height == new_height / (old(
                                    self,
                                ).previous_screen_size.1 / old(self).previous_console_size.1)
                                &&& final(store).root_console == old(store).root_console
                                &&& *final(self) == (DoryenEngine {
                                    previous_screen_size: (new_width, new_height),
                                    previous_console_size: (
                                        final(api_console).width,
                                        final(api_console).height,
                                    ),
                                    ..*old(self)
                                })
                            },
                            ResizeMode::Callback => {
                                &&& outcome == ResizeOutcome::CallbackPending(record)
                                &&& old(self).can_take(*old(store))
                                &&& final(store).root_console@ == Some(*old(api_console))
                                &&& old(self).swap_console == Some(*final(api_console))
                                &&& *final(self) == (DoryenEngine {
                                    swap_console: None,
                                    pending_resize: Some((new_width, new_height)),
                                    ..*old(self)
                                })
                            },
                        }
                    },
                    Err(e) => {
                        &&& e == ProtocolViolation::DoubleBufferTake
                        &&& old(self).resize_mode == ResizeMode::Callback
                        &&& !old(self).can_take(*old(store))
                        &&& *final(self) == *old(self)
                        &&& *final(store) == *old(store)
                        &&& *final(api_console) == *old(api_console)
                    },
                }
            }),
    {
        let previous_width = self.previous_screen_size.0;
        let previous_height = self.previous_screen_size.1;
        let record = Resized { previous_width, previous_height, new_width, new_height };

        match self.resize_mode {
            ResizeMode::Nothing => {
                store.resized_events.send(record);
                self.previous_screen_size = (new_width, new_height);
                self.previous_console_size = api_console.get_size();
                Ok(ResizeOutcome::Done)
            },
            ResizeMode::Automatic => {
                store.resized_events.send(record);
                let w_ratio = previous_width / self.previous_console_size.0;
                let h_ratio = previous_height / self.previous_console_size.1;

                let new_console_width = new_width / w_ratio;
                let new_console_height = new_height / h_ratio;
                api_console.resize(new_console_width, new_console_height);

                self.previous_screen_size = (new_width, new_height);
                self.previous_console_size = api_console.get_size();
                Ok(ResizeOutcome::Done)
            },
            ResizeMode::Callback => {
                if self.swap_console.is_none() || store.root_console.is_occupied() {
                    return Err(ProtocolViolation::DoubleBufferTake);
                }
                store.resized_events.send(record);
                match self.take_root_console_ownership(store, api_console) {
                    Ok(()) => {},
                    Err(_) => {
                        proof {
                            assert(false);
                        }
                    },
                }
                self.pending_resize = Some((new_width, new_height));
                Ok(ResizeOutcome::CallbackPending(record))
            },
        }
    }

    /// Finish a resize whose callback policy ran: restore buffer ownership
    /// to the driver and record the pending screen size and the console's
    /// resulting size — the user callback may have resized it — as the
    /// baselines for the next resize.
    pub fn resize_finish(&mut self, store: &mut HostStore, api_console: &mut Console) -> (r: Result<
        (),
        ProtocolViolation,
    >)
        ensures
            match r {
                Ok(()) => {
                    &&& old(self).pending_resize matches Some(pending)
                    &&& old(self).can_restore(*old(store))
                    &&& *final(store) == (HostStore {
                        root_console: final(store).root_console,
                        ..*old(store)
                    })
                    &&& (
                    final(self).swap_console,
                    final(store).root_console@,
                    *final(api_console),
                    ) == spec_restore(
                        old(self).swap_console,
                        old(store).root_console@,
                        *old(api_console),
                    )
                    &&& *final(self) == (DoryenEngine {
                        swap_console: final(self).swap_console,
                        pending_resize: None,
                        previous_screen_size: pending,
                        previous_console_size: (
                            final(api_console).width,
                            final(api_console).height,
                        ),
                        ..*old(self)
                    })
                },
                Err(e) => {
                    &&& *final(self) == *old(self)
                    &&& *final(store) == *old(store)
                    &&& *final(api_console) == *old(api_console)
                    &&& if old(self).pending_resize is None {
                        e == ProtocolViolation::OutOfSequence
                    } else {
                        e == ProtocolViolation::DoubleBufferRestore && !old(self).can_restore(
                            *old(store),
                        )
                    }
                },
            },
    {
        let pending = match self.pending_resize {
            Some(p) => p,
            None => {
                return Err(ProtocolViolation::OutOfSequence);
            },
        };
        if self.swap_console.is_some() || !store.root_console.is_occupied() {
            return Err(ProtocolViolation::DoubleBufferRestore);
        }

        match self.restore_root_console_ownership(store, api_console) {
            Ok(()) => {},
            Err(_) => {
                proof {
                    assert(false);
                }
            },
        }

        self.pending_resize = None;
        self.previous_screen_size = pending;
        self.previous_console_size = api_console.get_size();
        Ok(())
    }
}

/// The handle's invariant: at most one side holds the materialized buffer at
/// any time — the bridge holds the placeholder exactly while the host slot is
/// empty.
pub open spec fn handoff_exclusive(swap: Option<Console>, slot: Option<Console>) -> bool {
    (swap is Some) <==> (slot is None)
}

/// Law: the handle's exclusivity invariant holds at loop start and is
/// preserved by every take and every restore.
pub proof fn lemma_handoff_exclusive_preserved(
    swap: Option<Console>,
    slot: Option<Console>,
    driver: Console,
)
    requires
        handoff_exclusive(swap, slot),
    ensures
        ({
            let (swap1, slot1, driver1) = spec_take(swap, slot, driver);
            handoff_can_take(swap, slot) ==> handoff_exclusive(swap1, slot1)
        }),
        ({
            let (swap1, slot1, driver1) = spec_restore(swap, slot, driver);
            handoff_can_restore(swap, slot) ==> handoff_exclusive(swap1, slot1)
        }),
{
}

/// Law: a strictly alternating take/restore pair returns every party to its
/// starting state — in particular the buffer comes back to the driver
/// unchanged in content when nothing mutates it in between.
pub proof fn lemma_buffer_roundtrip(swap: Option<Console>, slot: Option<Console>, driver: Console)
    requires
        handoff_can_take(swap, slot),
    ensures
        ({
            let (swap1, slot1, driver1) = spec_take(swap, slot, driver);
            let (swap2, slot2, driver2) = spec_restore(swap1, slot1, driver1);
            &&& slot1 == Some(driver)
            &&& driver2 == driver
            &&& swap2 == swap
            &&& slot2 == slot
        }),
{
}

/// Law: taking the buffer twice without an intervening restore is
/// impossible — after a take, the take precondition no longer holds, so the
/// second take must fail.
pub proof fn lemma_double_take_fails(swap: Option<Console>, slot: Option<Console>, driver: Console)
    requires
        handoff_can_take(swap, slot),
    ensures
        ({
            let (swap1, slot1, driver1) = spec_take(swap, slot, driver);
            !handoff_can_take(swap1, slot1)
        }),
{
}

/// Law: restoring the buffer twice without an intervening take is
/// impossible — after a restore, the restore precondition no longer holds,
/// so the second restore must fail.
pub proof fn lemma_double_restore_fails(
    swap: Option<Console>,
    slot: Option<Console>,
    driver: Console,
)
    requires
        handoff_can_restore(swap, slot),
    ensures
        ({
            let (swap1, slot1, driver1) = spec_restore(swap, slot, driver);
            !handoff_can_restore(swap1, slot1)
        }),
{
}

} // verus!
