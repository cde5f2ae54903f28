//! The host store: the single context object holding every host-side
//! resource the bridge touches, threaded explicitly through the bridge's
//! lifecycle methods.
//!
//! The host framework keeps these resources in its own typed resource table;
//! the bridge only ever reads and writes this fixed set, so the model holds
//! them as plain fields. The fields are public: between the bridge's
//! callbacks the host's own systems are free to read and mutate them, which
//! is exactly what happens while the host's main schedule or the render
//! schedule runs.

use vstd::prelude::*;

use crate::engine::ProtocolViolation;
use crate::event::{AppExit, Events, Resized, SetFontPath};
use crate::input::DoryenInput;
use crate::options::{FpsInfo, RootConsole};
use crate::render::{DoryenRenderStage, DoryenRenderSystems, RenderState, SystemId};

verus! {

/// Every host-side resource the bridge reads or writes.
#[derive(Debug)]
pub struct HostStore {
    /// The host's slot for the console buffer.
    pub root_console: RootConsole,
    /// The frame-scoped input snapshot.
    pub input: DoryenInput,
    /// The frame-rate metrics recorded on each update tick.
    pub fps_info: FpsInfo,
    /// The render-state flag and its one-shot refresh callbacks.
    pub render_state: RenderState,
    /// The slot for the render schedule.
    pub render_systems: DoryenRenderSystems,
    /// Font-path change requests flowing from the host to the driver.
    pub set_font_path_events: Events<SetFontPath>,
    /// Resize notifications flowing from the driver to the host.
    pub resized_events: Events<Resized>,
    /// The host's generic application-exit requests.
    pub app_exit_events: Events<AppExit>,
}

impl HostStore {
    /// A fresh store: the driver owns the buffer, nothing has been pressed,
    /// published or registered, and the render schedule is present with all
    /// five stages empty.
    pub fn new() -> (r: HostStore)
        ensures
            r.root_console@ is None,
            r.input.spec_is_clear(),
            r.fps_info == (FpsInfo { fps: 0, average_fps: 0 }),
            r.render_state.spec_needs_refresh(),
            r.render_state.spec_callbacks() == Seq::<u64>::empty(),
            r.render_systems@ matches Some(s) && s.spec_run_order() == Seq::<u64>::empty(),
            r.set_font_path_events@ == Seq::<SetFontPath>::empty(),
            r.resized_events@ == Seq::<Resized>::empty(),
            r.app_exit_events@ == Seq::<AppExit>::empty(),
    {
        HostStore {
            root_console: RootConsole::new(),
            input: DoryenInput::new(),
            fps_info: FpsInfo { fps: 0, average_fps: 0 },
            render_state: RenderState::new(),
            render_systems: DoryenRenderSystems::new(),
            set_font_path_events: Events::new(),
            resized_events: Events::new(),
            app_exit_events: Events::new(),
        }
    }

    /// Register a callable on the Render stage of the render schedule.
    /// Registration is allowed whenever the schedule is not taken out.
    pub fn add_doryen_render_system(&mut self, system: SystemId) -> (r: Result<
        (),
        ProtocolViolation,
    >)
        ensures
            self_unchanged_but_render_systems(*old(self), *final(self)),
            match r {
                Ok(()) => {
                    &&& old(self).render_systems@ matches Some(pre_s)
                    &&& final(self).render_systems@ matches Some(post_s)
                    &&& post_s.spec_stage(DoryenRenderStage::Render) == pre_s.spec_stage(
                        DoryenRenderStage::Render,
                    ).push(system)
                    &&& forall|other: DoryenRenderStage|
                        other != DoryenRenderStage::Render ==> #[trigger] post_s.spec_stage(other)
                            == pre_s.spec_stage(other)
                },
                Err(e) => {
                    &&& e == ProtocolViolation::ScheduleUnavailable
                    &&& old(self).render_systems@ is None
                    &&& final(self).render_systems@ == old(self).render_systems@
                },
            },
    {
        self.render_systems.add_system(system)
    }

    /// Register a callable on the given stage of the render schedule.
    /// Registration is allowed whenever the schedule is not taken out.
    pub fn add_doryen_render_system_to_stage(
        &mut self,
        stage: DoryenRenderStage,
        system: SystemId,
    ) -> (r: Result<(), ProtocolViolation>)
        ensures
            self_unchanged_but_render_systems(*old(self), *final(self)),
            match r {
                Ok(()) => {
                    &&& old(self).render_systems@ matches Some(pre_s)
                    &&& final(self).render_systems@ matches Some(post_s)
                    &&& post_s.spec_stage(stage) == pre_s.spec_stage(stage).push(system)
                    &&& forall|other: DoryenRenderStage|
                        other != stage ==> #[trigger] post_s.spec_stage(other) == pre_s.spec_stage(
                            other,
                        )
                },
                Err(e) => {
                    &&& e == ProtocolViolation::ScheduleUnavailable
                    &&& old(self).render_systems@ is None
                    &&& final(self).render_systems@ == old(self).render_systems@
                },
            },
    {
        self.render_systems.add_system_to_stage(stage, system)
    }
}

/// The two stores agree on every resource except the render-schedule slot.
pub open spec fn self_unchanged_but_render_systems(pre: HostStore, post: HostStore) -> bool {
    &&& post.root_console == pre.root_console
    &&& post.input == pre.input
    &&& post.fps_info == pre.fps_info
    &&& post.render_state == pre.render_state
    &&& post.set_font_path_events == pre.set_font_path_events
    &&& post.resized_events == pre.resized_events
    &&& post.app_exit_events == pre.app_exit_events
}

} // verus!
