//! The host's event streams and the records the bridge relays over them.
//!
//! The host framework offers an event-stream abstraction: anyone may publish,
//! and each reader keeps a persistent cursor and sees everything published
//! since its last read. The bridge uses three streams: font-path change
//! requests (host to driver), resize notifications (driver to host), and the
//! host's generic exit request (host to driver). Each one-shot consumer is
//! last-writer-wins: of the events that accumulated since its last read, only
//! the most recent takes effect.

use vstd::prelude::*;

verus! {

/// An event stream: a growing log of published events.
#[derive(Debug)]
pub struct Events<T> {
    items: Vec<T>,
}

impl<T> Events<T> {
    /// Everything published so far, oldest first.
    pub closed spec fn view(&self) -> Seq<T> {
        self.items@
    }

    /// An empty stream.
    pub fn new() -> (r: Events<T>)
        ensures
            r@ == Seq::<T>::empty(),
    {
        Events { items: Vec::new() }
    }

    /// Publish an event at the end of the stream.
    pub fn send(&mut self, event: T)
        ensures
            final(self)@ == old(self)@.push(event),
    {
        self.items.push(event);
    }

    /// How many events have been published so far.
    pub fn len(&self) -> (r: usize)
        ensures
            r == self@.len(),
    {
        self.items.len()
    }

    /// The event at the given position in the stream.
    pub fn get(&self, i: usize) -> (r: &T)
        requires
            i < self@.len(),
        ensures
            *r == self@[i as int],
    {
        &self.items[i]
    }
}

/// The most recent event published since the cursor, if any. This is what a
/// last-writer-wins consumer acts on when it drains a stream.
pub open spec fn spec_latest_since<T>(events: Seq<T>, cursor: int) -> Option<T> {
    if 0 <= cursor < events.len() {
        Some(events.last())
    } else {
        None
    }
}

/// A persistent per-reader cursor into an event stream. Reading consumes
/// everything published so far; events published after the read are seen by
/// the next read.
#[derive(Debug)]
pub struct ManualEventReader {
    /// The position of the first event this reader has not yet seen.
    pub next: usize,
}

impl ManualEventReader {
    /// A fresh reader that has seen nothing.
    pub fn new() -> (r: ManualEventReader)
        ensures
            r.next == 0,
    {
        ManualEventReader { next: 0 }
    }

    /// Drain the stream: return the most recent event published since the
    /// last read, if any, and advance the cursor past everything published.
    pub fn latest<'a, T>(&mut self, events: &'a Events<T>) -> (r: Option<&'a T>)
        ensures
            match r {
                Some(e) => {
                    &&& spec_latest_since(events@, old(self).next as int) == Some(*e)
                    &&& final(self).next == events@.len()
                },
                None => {
                    &&& spec_latest_since(events@, old(self).next as int) is None
                    &&& final(self).next == old(self).next
                },
            },
    {
        let len = events.len();
        if self.next < len {
            self.next = len;
            Some(events.get(len - 1))
        } else {
            None
        }
    }

    /// Drain the stream and report only whether anything was published since
    /// the last read. This is how the exit relay polls the exit stream.
    pub fn any_since<T>(&mut self, events: &Events<T>) -> (r: bool)
        ensures
            r == (spec_latest_since(events@, old(self).next as int) is Some),
            r ==> final(self).next == events@.len(),
            !r ==> final(self).next == old(self).next,
    {
        let len = events.len();
        if self.next < len {
            self.next = len;
            true
        } else {
            false
        }
    }
}

/// A request to change the driver's font path. Host-side code publishes it;
/// the bridge drains the stream once per update and instructs the driver to
/// load the most recently requested path, relative to the asset root.
#[derive(Clone, Debug)]
pub struct SetFontPath(pub String);

/// A resize notification: the driver's window changed from the previous pixel
/// dimensions to the new ones. Published on the host's resize stream once per
/// physical resize.
#[derive(Clone, Copy, Debug, PartialEq, Eq, Structural)]
pub struct Resized {
    /// The previous width of the game window, in pixels.
    pub previous_width: u32,
    /// The previous height of the game window, in pixels.
    pub previous_height: u32,
    /// The new width of the game window, in pixels.
    pub new_width: u32,
    /// The new height of the game window, in pixels.
    pub new_height: u32,
}

/// The host's generic request to exit the application. The bridge polls its
/// stream once per update and translates the most recent occurrence into the
/// driver's own termination signal.
#[derive(Clone, Copy, Debug, PartialEq, Eq, Structural)]
pub struct AppExit;

/// Installs the bridge's two event streams into the host store.
#[derive(Clone, Copy, Debug)]
pub struct DoryenEventPlugin;

impl DoryenEventPlugin {
    /// Install fresh font-path and resize event streams into the store.
    pub fn build(&self, store: &mut crate::store::HostStore)
        ensures
            final(store).set_font_path_events@ == Seq::<SetFontPath>::empty(),
            final(store).resized_events@ == Seq::<Resized>::empty(),
            final(store).root_console == old(store).root_console,
            final(store).input == old(store).input,
            final(store).fps_info == old(store).fps_info,
            final(store).render_state == old(store).render_state,
            final(store).render_systems == old(store).render_systems,
            final(store).app_exit_events == old(store).app_exit_events,
    {
        store.set_font_path_events = Events::new();
        store.resized_events = Events::new();
    }
}

/// Law: a last-writer-wins consumer acts on the second of two events
/// published since its last read — the earlier one is superseded.
pub proof fn lemma_latest_since_two_published<T>(events: Seq<T>, cursor: int, a: T, b: T)
    requires
        0 <= cursor <= events.len() + 1,
    ensures
        spec_latest_since(events.push(a).push(b), cursor) == Some(b),
{
}

/// Law: draining a stream yields an event exactly when something was
/// published since the reader's cursor, however many events accumulated.
pub proof fn lemma_latest_since_nonempty<T>(events: Seq<T>, cursor: int)
    requires
        0 <= cursor,
    ensures
        spec_latest_since(events, cursor) is Some <==> cursor < events.len(),
{
}

} // verus!
