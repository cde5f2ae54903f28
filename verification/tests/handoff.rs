//! The buffer-handoff protocol and the lifecycle state machine.

use brltk::console::Console;
use brltk::engine::{DoryenEngine, EnginePhase, ProtocolViolation};
use brltk::input::RawInput;
use brltk::options::ResizeMode;
use brltk::store::HostStore;

fn engine() -> DoryenEngine {
    DoryenEngine::new(ResizeMode::Nothing, Vec::new(), (800, 600), (80, 60))
}

#[test]
fn buffer_round_trips_unchanged() {
    let mut store = HostStore::new();
    let mut engine = engine();
    let mut api_console = Console::new(37, 21);

    assert!(engine
        .take_root_console_ownership(&mut store, &mut api_console)
        .is_ok());
    // the host slot holds the driver's buffer; the driver holds the placeholder
    assert_eq!(store.root_console.get(), Console::new(37, 21));
    assert_eq!(api_console, Console::new(1, 1));

    assert!(engine
        .restore_root_console_ownership(&mut store, &mut api_console)
        .is_ok());
    // the buffer came back unchanged in content, and the slot is empty again
    assert_eq!(api_console, Console::new(37, 21));
    assert!(!store.root_console.is_occupied());

    // a second strictly alternating pair round-trips again
    assert!(engine
        .take_root_console_ownership(&mut store, &mut api_console)
        .is_ok());
    assert!(engine
        .restore_root_console_ownership(&mut store, &mut api_console)
        .is_ok());
    assert_eq!(api_console, Console::new(37, 21));
}

#[test]
fn double_take_fails() {
    let mut store = HostStore::new();
    let mut engine = engine();
    let mut api_console = Console::new(80, 60);

    assert!(engine
        .take_root_console_ownership(&mut store, &mut api_console)
        .is_ok());
    assert_eq!(
        engine.take_root_console_ownership(&mut store, &mut api_console),
        Err(ProtocolViolation::DoubleBufferTake)
    );
}

#[test]
fn double_restore_fails() {
    let mut store = HostStore::new();
    let mut engine = engine();
    let mut api_console = Console::new(80, 60);

    // nothing has been taken: restoring is already a violation
    assert_eq!(
        engine.restore_root_console_ownership(&mut store, &mut api_console),
        Err(ProtocolViolation::DoubleBufferRestore)
    );

    assert!(engine
        .take_root_console_ownership(&mut store, &mut api_console)
        .is_ok());
    assert!(engine
        .restore_root_console_ownership(&mut store, &mut api_console)
        .is_ok());
    assert_eq!(
        engine.restore_root_console_ownership(&mut store, &mut api_console),
        Err(ProtocolViolation::DoubleBufferRestore)
    );
}

#[test]
fn update_takes_and_restores_per_frame() {
    let mut store = HostStore::new();
    let mut engine = engine();
    let mut api_console = Console::new(80, 60);

    assert!(engine.init(&mut store).is_ok());
    assert_eq!(engine.phase, EnginePhase::Idle);

    let raw = RawInput::empty();
    assert!(engine
        .update_begin(&mut store, &mut api_console, &raw, 60, 59)
        .is_ok());
    assert_eq!(engine.phase, EnginePhase::UpdateInProgress);
    // the host now owns the live buffer
    assert_eq!(store.root_console.get(), Console::new(80, 60));
    assert_eq!(api_console, Console::new(1, 1));
    assert_eq!(store.fps_info.fps, 60);
    assert_eq!(store.fps_info.average_fps, 59);

    // ... the host's main schedule runs here ...

    let outcome = engine.update_end(&mut store, &mut api_console).unwrap();
    assert_eq!(engine.phase, EnginePhase::Idle);
    assert_eq!(api_console, Console::new(80, 60));
    assert!(!store.root_console.is_occupied());
    assert!(!outcome.exit);
    assert!(outcome.font_path.is_none());
}

#[test]
fn init_twice_is_out_of_sequence() {
    let mut store = HostStore::new();
    let mut engine = engine();
    assert!(engine.init(&mut store).is_ok());
    assert_eq!(
        engine.init(&mut store),
        Err(ProtocolViolation::OutOfSequence)
    );
}

#[test]
fn update_end_without_begin_is_out_of_sequence() {
    let mut store = HostStore::new();
    let mut engine = engine();
    let mut api_console = Console::new(80, 60);
    assert!(engine.init(&mut store).is_ok());
    assert!(matches!(
        engine.update_end(&mut store, &mut api_console),
        Err(ProtocolViolation::OutOfSequence)
    ));
}

#[test]
fn update_before_init_is_out_of_sequence() {
    let mut store = HostStore::new();
    let mut engine = engine();
    let mut api_console = Console::new(80, 60);
    let raw = RawInput::empty();
    assert!(matches!(
        engine.update_begin(&mut store, &mut api_console, &raw, 0, 0),
        Err(ProtocolViolation::OutOfSequence)
    ));
}

#[test]
fn render_during_update_is_out_of_sequence() {
    let mut store = HostStore::new();
    let mut engine = engine();
    let mut api_console = Console::new(80, 60);
    assert!(engine.init(&mut store).is_ok());
    let raw = RawInput::empty();
    assert!(engine
        .update_begin(&mut store, &mut api_console, &raw, 0, 0)
        .is_ok());
    assert!(matches!(
        engine.render_begin(&mut store, &mut api_console),
        Err(ProtocolViolation::OutOfSequence)
    ));
}

#[test]
fn frames_interleave_update_and_render() {
    let mut store = HostStore::new();
    let mut engine = engine();
    let mut api_console = Console::new(80, 60);
    assert!(engine.init(&mut store).is_ok());

    for frame in 0..3u32 {
        let raw = RawInput::empty();
        assert!(engine
            .update_begin(&mut store, &mut api_console, &raw, 60 + frame, 60)
            .is_ok());
        let outcome = engine.update_end(&mut store, &mut api_console).unwrap();
        assert!(!outcome.exit);

        let pass = engine.render_begin(&mut store, &mut api_console).unwrap();
        assert!(engine
            .render_end(&mut store, &mut api_console, pass.schedule)
            .is_ok());

        // update's effects are visible to render within the frame, and the
        // driver owns the buffer again between frames
        assert_eq!(store.fps_info.fps, 60 + frame);
        assert_eq!(engine.phase, EnginePhase::Idle);
        assert_eq!(api_console, Console::new(80, 60));
        assert!(!store.root_console.is_occupied());
    }
}

#[test]
fn violation_messages_name_the_step() {
    assert!(ProtocolViolation::DoubleBufferTake.message().contains("taken"));
    assert!(ProtocolViolation::DoubleBufferRestore
        .message()
        .contains("restored"));
    assert!(ProtocolViolation::DoubleScheduleTake
        .message()
        .contains("schedule"));
    assert!(ProtocolViolation::DoubleScheduleRestore
        .message()
        .contains("schedule"));
    assert!(ProtocolViolation::ScheduleUnavailable
        .message()
        .contains("registered"));
    assert!(ProtocolViolation::OutOfSequence.message().contains("phase"));
}
