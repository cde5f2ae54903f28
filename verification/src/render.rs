//! The secondary render schedule and the render-state refresh hook.
//!
//! Rendering runs on a schedule of its own, distinct from the host's main
//! update schedule: five stages in a fixed order (First, PreRender, Render,
//! PostRender, Last), each an ordered list of registered callables. The
//! schedule lives in the host store and is taken out, run, and put back by
//! the bridge on every render callback; taking it twice, or putting it back
//! twice, is a protocol violation. The callables themselves are host systems
//! the bridge never looks into, so the schedule carries their identifiers,
//! and running it means executing them in the order this module pins down.

use vstd::prelude::*;

use crate::engine::ProtocolViolation;

verus! {

broadcast use vstd::seq_lib::group_seq_properties;

/// The identifier of a callable registered on the render schedule.
pub type SystemId = u64;

/// The identifier of a one-shot state-refresh callback.
pub type CallbackId = u64;

/// The names of the render schedule's stages, in their fixed execution
/// order.
#[derive(Clone, Copy, Debug, PartialEq, Eq, Structural)]
pub enum DoryenRenderStage {
    /// This stage runs before all the other stages.
    First,
    /// This stage runs right before the render stage.
    PreRender,
    /// This stage is where rendering should be done.
    Render,
    /// This stage runs right after the render stage.
    PostRender,
    /// This stage runs after all the other stages.
    Last,
}

/// The render schedule: one ordered list of callables per stage. Stage order
/// is fixed; within a stage, callables run in registration order.
#[derive(Clone, Debug)]
pub struct RenderSchedule {
    /// Callables of the First stage, in registration order.
    pub first: Vec<SystemId>,
    /// Callables of the PreRender stage, in registration order.
    pub pre_render: Vec<SystemId>,
    /// Callables of the Render stage, in registration order.
    pub render: Vec<SystemId>,
    /// Callables of the PostRender stage, in registration order.
    pub post_render: Vec<SystemId>,
    /// Callables of the Last stage, in registration order.
    pub last: Vec<SystemId>,
}

impl RenderSchedule {
    /// The full execution order of one run: every stage in fixed order,
    /// every callable within its stage in registration order.
    pub open spec fn spec_run_order(&self) -> Seq<SystemId> {
        self.first@ + self.pre_render@ + self.render@ + self.post_render@ + self.last@
    }

    /// The callables registered to the given stage, in registration order.
    pub open spec fn spec_stage(&self, stage: DoryenRenderStage) -> Seq<SystemId> {
        match stage {
            DoryenRenderStage::First => self.first@,
            DoryenRenderStage::PreRender => self.pre_render@,
            DoryenRenderStage::Render => self.render@,
            DoryenRenderStage::PostRender => self.post_render@,
            DoryenRenderStage::Last => self.last@,
        }
    }

    /// A schedule with all five stages present and empty.
    pub fn new() -> (r: RenderSchedule)
        ensures
            r.spec_run_order() == Seq::<SystemId>::empty(),
            r.first@ == Seq::<SystemId>::empty(),
            r.pre_render@ == Seq::<SystemId>::empty(),
            r.render@ == Seq::<SystemId>::empty(),
            r.post_render@ == Seq::<SystemId>::empty(),
            r.last@ == Seq::<SystemId>::empty(),
    {
        let r = RenderSchedule {
            first: Vec::new(),
            pre_render: Vec::new(),
            render: Vec::new(),
            post_render: Vec::new(),
            last: Vec::new(),
        };
        proof {
            assert(r.spec_run_order() =~= Seq::<SystemId>::empty());
        }
        r
    }

    /// Register a callable at the end of the given stage.
    pub fn add_system_to_stage(&mut self, stage: DoryenRenderStage, system: SystemId)
        ensures
            final(self).spec_stage(stage) == old(self).spec_stage(stage).push(system),
            forall|other: DoryenRenderStage|
                other != stage ==> #[trigger] final(self).spec_stage(other) == old(
                    self,
                ).spec_stage(other),
    {
        match stage {
            DoryenRenderStage::First => self.first.push(system),
            DoryenRenderStage::PreRender => self.pre_render.push(system),
            DoryenRenderStage::Render => self.render.push(system),
            DoryenRenderStage::PostRender => self.post_render.push(system),
            DoryenRenderStage::Last => self.last.push(system),
        }
    }

    /// The execution order of one run, as a list of callable identifiers for
    /// the caller to execute one by one against the host store.
    pub fn run_order(&self) -> (r: Vec<SystemId>)
        ensures
            r@ == self.spec_run_order(),
    {
        let mut r: Vec<SystemId> = Vec::new();
        append_ids(&mut r, &self.first);
        append_ids(&mut r, &self.pre_render);
        append_ids(&mut r, &self.render);
        append_ids(&mut r, &self.post_render);
        append_ids(&mut r, &self.last);
        proof {
            assert(r@ =~= self.spec_run_order());
        }
        r
    }
}

/// Append the source's identifiers, in order, to the destination.
fn append_ids(dst: &mut Vec<SystemId>, src: &Vec<SystemId>)
    ensures
        final(dst)@ == old(dst)@ + src@,
{
    let ghost pre = *dst;
    let n = src.len();
    let mut i: usize = 0;
    while i < n
        invariant
            i <= n,
            n == src@.len(),
            dst@ == pre@ + src@.subrange(0, i as int),
        decreases n - i,
    {
        dst.push(src[i]);
        i += 1;
        proof {
            assert(src@.subrange(0, i as int) =~= src@.subrange(0, i as int - 1).push(
                src@[i as int - 1],
            ));
        }
    }
    proof {
        assert(src@.subrange(0, n as int) =~= src@);
        assert(dst@ =~= pre@ + src@);
    }
}

/// The host store's slot for the render schedule. The bridge takes the
/// schedule out for the duration of a render callback and always puts it
/// back before returning; a double take or double restore is a protocol
/// violation.
#[derive(Debug)]
pub struct DoryenRenderSystems {
    schedule: Option<RenderSchedule>,
}

impl DoryenRenderSystems {
    /// The schedule currently held by the slot, if it is not taken out.
    pub closed spec fn view(&self) -> Option<RenderSchedule> {
        self.schedule
    }

    /// A slot holding a schedule with all five stages empty.
    pub fn new() -> (r: DoryenRenderSystems)
        ensures
            r@ matches Some(s) && s.spec_run_order() == Seq::<SystemId>::empty(),
    {
        DoryenRenderSystems { schedule: Some(RenderSchedule::new()) }
    }

    /// Whether the slot currently holds the schedule.
    pub fn is_present(&self) -> (r: bool)
        ensures
            r == (self@ is Some),
    {
        self.schedule.is_some()
    }

    /// Remove and return the schedule, leaving the slot empty. Fails if the
    /// schedule is already taken out.
    pub fn take(&mut self) -> (r: Result<RenderSchedule, ProtocolViolation>)
        ensures
            match r {
                Ok(s) => {
                    &&& old(self)@ == Some(s)
                    &&& final(self)@ is None
                },
                Err(e) => {
                    &&& e == ProtocolViolation::DoubleScheduleTake
                    &&& old(self)@ is None
                    &&& *final(self) == *old(self)
                },
            },
    {
        match self.schedule.take() {
            Some(s) => Ok(s),
            None => Err(ProtocolViolation::DoubleScheduleTake),
        }
    }

    /// Put the schedule back into the slot, which must be empty. Fails if a
    /// schedule is already present.
    pub fn restore(&mut self, schedule: RenderSchedule) -> (r: Result<(), ProtocolViolation>)
        ensures
            match r {
                Ok(()) => {
                    &&& old(self)@ is None
                    &&& final(self)@ == Some(schedule)
                },
                Err(e) => {
                    &&& e == ProtocolViolation::DoubleScheduleRestore
                    &&& old(self)@ is Some
                    &&& *final(self) == *old(self)
                },
            },
    {
        match self.schedule {
            Some(_) => Err(ProtocolViolation::DoubleScheduleRestore),
            None => {
                self.schedule = Some(schedule);
                Ok(())
            },
        }
    }

    /// Register a callable at the end of the given stage. Registration is
    /// allowed whenever the schedule is not currently taken out.
    pub fn add_system_to_stage(&mut self, stage: DoryenRenderStage, system: SystemId) -> (r: Result<
        (),
        ProtocolViolation,
    >)
        ensures
            match r {
                Ok(()) => {
                    &&& old(self)@ matches Some(pre_s)
                    &&& final(self)@ matches Some(post_s)
                    &&& post_s.spec_stage(stage) == pre_s.spec_stage(stage).push(system)
                    &&& forall|other: DoryenRenderStage|
                        other != stage ==> #[trigger] post_s.spec_stage(other) == pre_s.spec_stage(
                            other,
                        )
                },
                Err(e) => {
                    &&& e == ProtocolViolation::ScheduleUnavailable
                    &&& old(self)@ is None
                    &&& *final(self) == *old(self)
                },
            },
    {
        match &mut self.schedule {
            Some(s) => {
                s.add_system_to_stage(stage, system);
                Ok(())
            },
            None => Err(ProtocolViolation::ScheduleUnavailable),
        }
    }

    /// Register a callable at the end of the Render stage.
    pub fn add_system(&mut self, system: SystemId) -> (r: Result<(), ProtocolViolation>)
        ensures
            match r {
                Ok(()) => {
                    &&& old(self)@ matches Some(pre_s)
                    &&& final(self)@ matches Some(post_s)
                    &&& post_s.spec_stage(DoryenRenderStage::Render) == pre_s.spec_stage(
                        DoryenRenderStage::Render,
                    ).push(system)
                    &&& forall|other: DoryenRenderStage|
                        other != DoryenRenderStage::Render ==> #[trigger] post_s.spec_stage(other)
                            == pre_s.spec_stage(other)
                },
                Err(e) => {
                    &&& e == ProtocolViolation::ScheduleUnavailable
                    &&& old(self)@ is None
                    &&& *final(self) == *old(self)
                },
            },
    {
        self.add_system_to_stage(DoryenRenderStage::Render, system)
    }
}

impl Default for DoryenRenderSystems {
    /// The default slot holds a schedule with all five stages empty.
    fn default() -> (r: Self)
        ensures
            r@ matches Some(s) && s.spec_run_order() == Seq::<SystemId>::empty(),
    {
        DoryenRenderSystems::new()
    }
}

/// The render-state resource: a flag that host code raises when it changes
/// state the render schedule depends on, and the one-shot callbacks the
/// bridge runs, in registration order, on the next render callback before
/// clearing the flag.
#[derive(Debug)]
pub struct RenderState {
    needs_refresh: bool,
    callbacks: Vec<CallbackId>,
}

impl RenderState {
    /// Whether the next render callback must run the refresh callbacks.
    pub closed spec fn spec_needs_refresh(&self) -> bool {
        self.needs_refresh
    }

    /// The registered refresh callbacks, in registration order.
    pub closed spec fn spec_callbacks(&self) -> Seq<CallbackId> {
        self.callbacks@
    }

    /// A fresh render state: the flag starts raised so that the first render
    /// callback runs the refresh callbacks once.
    pub fn new() -> (r: RenderState)
        ensures
            r.spec_needs_refresh(),
            r.spec_callbacks() == Seq::<CallbackId>::empty(),
    {
        RenderState { needs_refresh: true, callbacks: Vec::new() }
    }

    /// Call this whenever host code changes state the render schedule
    /// depends on: the bridge will run the refresh callbacks on the next
    /// render callback.
    pub fn state_updated(&mut self)
        ensures
            final(self).spec_needs_refresh(),
            final(self).spec_callbacks() == old(self).spec_callbacks(),
    {
        self.needs_refresh = true;
    }

    /// Register a refresh callback; it runs after all previously registered
    /// ones.
    pub fn register_callback(&mut self, callback: CallbackId)
        ensures
            final(self).spec_callbacks() == old(self).spec_callbacks().push(callback),
            final(self).spec_needs_refresh() == old(self).spec_needs_refresh(),
    {
        self.callbacks.push(callback);
    }

    /// Lower the flag; the bridge does this after running the callbacks.
    pub(crate) fn clear_flag(&mut self)
        ensures
            !final(self).spec_needs_refresh(),
            final(self).spec_callbacks() == old(self).spec_callbacks(),
    {
        self.needs_refresh = false;
    }

    /// Read the callbacks to run, in registration order.
    pub fn callbacks(&self) -> (r: Vec<CallbackId>)
        ensures
            r@ == self.spec_callbacks(),
    {
        self.callbacks.clone()
    }

    /// Whether the flag is raised.
    pub fn needs_refresh(&self) -> (r: bool)
        ensures
            r == self.spec_needs_refresh(),
    {
        self.needs_refresh
    }
}

impl Default for RenderState {
    /// The default render state has the flag raised and no callbacks.
    fn default() -> (r: Self)
        ensures
            r.spec_needs_refresh(),
            r.spec_callbacks() == Seq::<CallbackId>::empty(),
    {
        RenderState::new()
    }
}

/// Installs the render schedule and the render state into the host store.
#[derive(Clone, Copy, Debug)]
pub struct DoryenRenderPlugin;

impl DoryenRenderPlugin {
    /// Install a fresh render state and an empty five-stage render schedule
    /// into the store.
    pub fn build(&self, store: &mut crate::store::HostStore)
        ensures
            final(store).render_state.spec_needs_refresh(),
            final(store).render_state.spec_callbacks() == Seq::<CallbackId>::empty(),
            final(store).render_systems@ matches Some(s) && s.spec_run_order() == Seq::<
                SystemId,
            >::empty(),
            final(store).root_console == old(store).root_console,
            final(store).input == old(store).input,
            final(store).fps_info == old(store).fps_info,
            final(store).set_font_path_events == old(store).set_font_path_events,
            final(store).resized_events == old(store).resized_events,
            final(store).app_exit_events == old(store).app_exit_events,
    {
        store.render_state = RenderState::new();
        store.render_systems = DoryenRenderSystems::new();
    }
}

/// Law: stage order beats registration order. Every callable in the First
/// stage stands strictly earlier in the execution order than every callable
/// in the PostRender stage, whatever order they were registered in.
pub proof fn lemma_first_runs_before_post_render(s: RenderSchedule, i: int, j: int)
    requires
        0 <= i < s.first@.len(),
        0 <= j < s.post_render@.len(),
    ensures
        ({
            let order = s.spec_run_order();
            let pi = i;
            let pj = s.first@.len() + s.pre_render@.len() + s.render@.len() + j;
            &&& 0 <= pi < order.len()
            &&& 0 <= pj < order.len()
            &&& order[pi] == s.first@[i]
            &&& order[pj] == s.post_render@[j]
            &&& pi < pj
        }),
{
}

} // verus!
