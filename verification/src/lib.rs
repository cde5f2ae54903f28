//! A verified model of the control-loop bridge that lets an externally driven
//! terminal-rendering loop host an application framework's update cycle.
//!
//! The externally driven loop calls four lifecycle callbacks — `init`,
//! `update`, `render` and `resize` — while the hosted application keeps its
//! own resource table and schedules. The bridge in this crate unifies the two
//! loops into one per-frame protocol:
//!
//! - a single mutable console buffer whose ownership is handed back and forth
//!   between the loop driver and the host's resource table each frame, with
//!   any double take or double restore surfaced as a fatal protocol violation
//!   ([`engine::DoryenEngine`], [`options::RootConsole`]);
//! - an input snapshot translated once per update from the driver's raw
//!   per-frame report into edge-triggered pressed/released state layered over
//!   level-triggered down state ([`input::DoryenInput`]);
//! - a secondary render schedule of five ordered stages, taken out of the
//!   host store for the duration of the render callback and always put back
//!   ([`render::DoryenRenderSystems`]);
//! - two narrow event relays (font-path changes flowing host to driver,
//!   resize notifications flowing driver to host) and an exit-signal relay,
//!   each last-writer-wins per frame ([`event`]).
//!
//! The windowing, glyph rasterization and entity storage that surround this
//! protocol belong to the loop driver and the host framework; the bridge only
//! coordinates them, so they appear here as the plain values the protocol
//! reads: console dimensions, scan codes, system identifiers, event records.

pub mod backend;
pub mod console;
pub mod engine;
pub mod event;
pub mod input;
pub mod options;
pub mod render;
pub mod store;
