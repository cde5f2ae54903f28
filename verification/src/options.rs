//! Host-side resources and configuration for the bridge: the host's slot for
//! the console buffer, the per-frame rate metrics, and the resize policy.

use vstd::prelude::*;

use crate::console::Console;

verus! {

/// The host store's slot for the console buffer.
///
/// At any instant the buffer is owned either by the loop driver or by this
/// slot, never both. The slot is empty except during the window between the
/// bridge taking ownership (on entry to the update and render callbacks) and
/// restoring it (before returning to the driver).
#[derive(Debug)]
pub struct RootConsole {
    console: Option<Console>,
}

impl RootConsole {
    /// The buffer currently held by the host, if any.
    pub closed spec fn view(&self) -> Option<Console> {
        self.console
    }

    /// Create an empty slot: at loop start the driver owns the buffer.
    pub fn new() -> (r: RootConsole)
        ensures
            r@ is None,
    {
        RootConsole { console: None }
    }

    /// Whether the host currently holds the buffer.
    pub fn is_occupied(&self) -> (r: bool)
        ensures
            r == (self@ is Some),
    {
        self.console.is_some()
    }

    /// Read the held buffer. Reads only happen while the host holds it.
    pub fn get(&self) -> (r: Console)
        requires
            self@ is Some,
        ensures
            Some(r) == self@,
    {
        match &self.console {
            Some(c) => *c,
            None => Console { width: 0, height: 0 },
        }
    }

    /// Move a buffer into the slot, which must be empty.
    pub(crate) fn fill(&mut self, console: Console)
        requires
            old(self)@ is None,
        ensures
            final(self)@ == Some(console),
    {
        self.console = Some(console);
    }

    /// Move the held buffer out of the slot, which must be occupied.
    pub(crate) fn empty_out(&mut self) -> (r: Console)
        requires
            old(self)@ is Some,
        ensures
            final(self)@ is None,
            Some(r) == old(self)@,
    {
        let r = match &self.console {
            Some(c) => *c,
            None => Console { width: 0, height: 0 },
        };
        self.console = None;
        r
    }

    /// Replace the held buffer, which must be present, with another one.
    /// Used by the resize-callback policy, which hands the host-owned buffer
    /// to a user callback that may resize it.
    pub fn replace(&mut self, console: Console)
        requires
            old(self)@ is Some,
        ensures
            final(self)@ == Some(console),
    {
        self.console = Some(console);
    }
}

impl Default for RootConsole {
    /// The default slot is empty.
    fn default() -> (r: Self)
        ensures
            r@ is None,
    {
        RootConsole::new()
    }
}

/// The frame-rate metrics the driver reports on each update tick, recorded
/// into the host store before the host's main schedule runs.
#[derive(Clone, Copy, Debug, PartialEq, Eq, Structural)]
pub struct FpsInfo {
    /// The instantaneous frame rate reported on the current update tick.
    pub fps: u32,
    /// The average frame rate reported on the current update tick.
    pub average_fps: u32,
}

impl Default for FpsInfo {
    /// Both metrics start at zero, before the first update tick.
    fn default() -> (r: Self)
        ensures
            r.fps == 0,
            r.average_fps == 0,
    {
        FpsInfo { fps: 0, average_fps: 0 }
    }
}

/// How the bridge reacts to the driver's resize callback.
#[derive(Clone, Copy, Debug, PartialEq, Eq, Structural)]
pub enum ResizeMode {
    /// Publish the resize event and do nothing further.
    Nothing,
    /// Resize the console so that the cell size in pixels established by the
    /// previous screen-to-console ratio is preserved.
    Automatic,
    /// Hand the host-owned buffer and the resize record to a user callback.
    /// The callback itself lives outside the bridge; the bridge takes buffer
    /// ownership before it runs and restores ownership after it returns.
    Callback,
}

} // verus!
