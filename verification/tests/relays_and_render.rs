//! The event relays, the render schedule, and the resize policies.

use brltk::backend::{DoryenAppOptions, DoryenBackend};
use brltk::console::Console;
use brltk::engine::{DoryenEngine, ProtocolViolation, ResizeOutcome};
use brltk::event::{AppExit, DoryenEventPlugin, Resized, SetFontPath};
use brltk::input::{DoryenInputPlugin, RawInput};
use brltk::options::ResizeMode;
use brltk::render::{DoryenRenderPlugin, DoryenRenderStage};
use brltk::store::HostStore;

fn options() -> DoryenAppOptions {
    DoryenAppOptions {
        console_width: 80,
        console_height: 60,
        screen_width: 800,
        screen_height: 600,
        window_title: String::from("roguelike"),
        font_path: String::from("terminal_8x8.png"),
        vsync: true,
        fullscreen: false,
        show_cursor: true,
        resizable: true,
        intercept_close_request: false,
        max_fps: 60,
    }
}

fn ready_engine(resize_mode: ResizeMode) -> (HostStore, DoryenEngine, Console) {
    let mut store = HostStore::new();
    let mut backend = DoryenBackend::with_options(options());
    backend.resize_mode = resize_mode;
    let mut engine = backend.build(&mut store);
    engine.init(&mut store).unwrap();
    (store, engine, Console::new(80, 60))
}

fn run_update(
    store: &mut HostStore,
    engine: &mut DoryenEngine,
    api_console: &mut Console,
    during_frame: impl FnOnce(&mut HostStore),
) -> brltk::engine::UpdateOutcome {
    let raw = RawInput::empty();
    engine
        .update_begin(store, api_console, &raw, 60, 60)
        .unwrap();
    during_frame(store);
    engine.update_end(store, api_console).unwrap()
}

#[test]
fn font_path_relay_takes_latest_only() {
    let (mut store, mut engine, mut api_console) = ready_engine(ResizeMode::Nothing);

    let outcome = run_update(&mut store, &mut engine, &mut api_console, |store| {
        store
            .set_font_path_events
            .send(SetFontPath(String::from("fonts/first.png")));
        store
            .set_font_path_events
            .send(SetFontPath(String::from("fonts/second.png")));
    });
    // exactly one font-path instruction, for the latest value, prefixed
    assert_eq!(outcome.font_path.as_deref(), Some("assets/fonts/second.png"));

    // the next frame sees nothing new
    let outcome = run_update(&mut store, &mut engine, &mut api_console, |_| {});
    assert!(outcome.font_path.is_none());
}

#[test]
fn exit_relay_signals_once_any_event_arrived() {
    let (mut store, mut engine, mut api_console) = ready_engine(ResizeMode::Nothing);

    let outcome = run_update(&mut store, &mut engine, &mut api_console, |_| {});
    assert!(!outcome.exit);

    // however many exit requests accumulate, the very next update signals
    let outcome = run_update(&mut store, &mut engine, &mut api_console, |store| {
        store.app_exit_events.send(AppExit);
        store.app_exit_events.send(AppExit);
        store.app_exit_events.send(AppExit);
    });
    assert!(outcome.exit);

    let outcome = run_update(&mut store, &mut engine, &mut api_console, |_| {});
    assert!(!outcome.exit);
}

#[test]
fn startup_font_path_is_prefixed() {
    assert_eq!(options().startup_font_path(), "assets/terminal_8x8.png");
}

#[test]
fn render_runs_stages_in_fixed_order() {
    let (mut store, mut engine, mut api_console) = ready_engine(ResizeMode::Nothing);

    // registration order deliberately scrambles the stage order
    store
        .add_doryen_render_system_to_stage(DoryenRenderStage::PostRender, 40)
        .unwrap();
    store
        .add_doryen_render_system_to_stage(DoryenRenderStage::First, 10)
        .unwrap();
    store
        .add_doryen_render_system_to_stage(DoryenRenderStage::Last, 50)
        .unwrap();
    store.add_doryen_render_system(30).unwrap();
    store
        .add_doryen_render_system_to_stage(DoryenRenderStage::PreRender, 20)
        .unwrap();
    store
        .add_doryen_render_system_to_stage(DoryenRenderStage::First, 11)
        .unwrap();

    let pass = engine.render_begin(&mut store, &mut api_console).unwrap();
    // First's callables run strictly before PostRender's, whatever the
    // registration order; within a stage, registration order is kept
    assert_eq!(pass.schedule.run_order(), vec![10, 11, 20, 30, 40, 50]);
    engine
        .render_end(&mut store, &mut api_console, pass.schedule)
        .unwrap();
    assert_eq!(api_console, Console::new(80, 60));
}

#[test]
fn refresh_callbacks_run_once_per_flag() {
    let (mut store, mut engine, mut api_console) = ready_engine(ResizeMode::Nothing);
    store.render_state.register_callback(7);
    store.render_state.register_callback(8);

    // the flag starts raised, so the first render runs the callbacks
    let pass = engine.render_begin(&mut store, &mut api_console).unwrap();
    assert_eq!(pass.refresh_callbacks, vec![7, 8]);
    engine
        .render_end(&mut store, &mut api_console, pass.schedule)
        .unwrap();

    // it was cleared, so the next render runs none
    let pass = engine.render_begin(&mut store, &mut api_console).unwrap();
    assert!(pass.refresh_callbacks.is_empty());
    engine
        .render_end(&mut store, &mut api_console, pass.schedule)
        .unwrap();

    // raising it again re-arms the callbacks for one render
    store.render_state.state_updated();
    let pass = engine.render_begin(&mut store, &mut api_console).unwrap();
    assert_eq!(pass.refresh_callbacks, vec![7, 8]);
    engine
        .render_end(&mut store, &mut api_console, pass.schedule)
        .unwrap();
}

#[test]
fn schedule_double_take_and_double_restore_fail() {
    let mut store = HostStore::new();
    let schedule = store.render_systems.take().unwrap();
    assert_eq!(
        store.render_systems.take().unwrap_err(),
        ProtocolViolation::DoubleScheduleTake
    );
    assert_eq!(
        store.add_doryen_render_system(1).unwrap_err(),
        ProtocolViolation::ScheduleUnavailable
    );
    store.render_systems.restore(schedule.clone()).unwrap();
    assert_eq!(
        store.render_systems.restore(schedule).unwrap_err(),
        ProtocolViolation::DoubleScheduleRestore
    );
}

#[test]
fn automatic_resize_preserves_cell_ratio() {
    // previous screen 800x600 over console 80x60: 10 pixels per cell
    let (mut store, mut engine, mut api_console) = ready_engine(ResizeMode::Automatic);

    let outcome = engine
        .resize(&mut store, &mut api_console, 1600, 600)
        .unwrap();
    assert_eq!(outcome, ResizeOutcome::Done);
    // width request 160 and height request 60 keep 10 pixels per cell
    assert_eq!(api_console.get_size(), (160, 60));
    assert_eq!(engine.previous_screen_size, (1600, 600));
    assert_eq!(engine.previous_console_size, (160, 60));

    // the notification carries the previous and the new pixel sizes
    assert_eq!(store.resized_events.len(), 1);
    assert_eq!(
        *store.resized_events.get(0),
        Resized {
            previous_width: 800,
            previous_height: 600,
            new_width: 1600,
            new_height: 600,
        }
    );
}

#[test]
fn nothing_resize_only_publishes_and_rebaselines() {
    let (mut store, mut engine, mut api_console) = ready_engine(ResizeMode::Nothing);

    let outcome = engine
        .resize(&mut store, &mut api_console, 1024, 768)
        .unwrap();
    assert_eq!(outcome, ResizeOutcome::Done);
    assert_eq!(api_console.get_size(), (80, 60));
    assert_eq!(engine.previous_screen_size, (1024, 768));
    assert_eq!(engine.previous_console_size, (80, 60));
    assert_eq!(store.resized_events.len(), 1);
}

#[test]
fn callback_resize_hands_buffer_to_the_callback() {
    let (mut store, mut engine, mut api_console) = ready_engine(ResizeMode::Callback);

    let outcome = engine
        .resize(&mut store, &mut api_console, 1000, 500)
        .unwrap();
    let record = match outcome {
        ResizeOutcome::CallbackPending(record) => record,
        ResizeOutcome::Done => panic!("callback policy must hand the record back"),
    };
    assert_eq!(record.previous_width, 800);
    assert_eq!(record.new_width, 1000);
    // the host owns the buffer while the user callback runs; here the
    // callback resizes the console to its own liking
    assert!(store.root_console.is_occupied());
    store.root_console.replace(Console::new(100, 50));

    engine.resize_finish(&mut store, &mut api_console).unwrap();
    assert_eq!(api_console.get_size(), (100, 50));
    assert_eq!(engine.previous_screen_size, (1000, 500));
    assert_eq!(engine.previous_console_size, (100, 50));
    assert_eq!(store.resized_events.len(), 1);
}

#[test]
fn resize_finish_without_pending_is_out_of_sequence() {
    let (mut store, mut engine, mut api_console) = ready_engine(ResizeMode::Callback);
    assert_eq!(
        engine.resize_finish(&mut store, &mut api_console).unwrap_err(),
        ProtocolViolation::OutOfSequence
    );
}

#[test]
fn plugins_install_fresh_resources() {
    let mut store = HostStore::new();
    store.set_font_path_events.send(SetFontPath(String::from("leftover")));
    store.render_state.register_callback(1);
    let mut raw = RawInput::empty();
    raw.keys_pressed = vec![4];
    store.input.handle_input(&Vec::new(), &raw);

    DoryenEventPlugin.build(&mut store);
    DoryenInputPlugin.build(&mut store);
    DoryenRenderPlugin.build(&mut store);

    assert_eq!(store.set_font_path_events.len(), 0);
    assert_eq!(store.resized_events.len(), 0);
    assert!(!store.input.key(4));
    assert!(store.render_state.needs_refresh());
    assert!(store.render_state.callbacks().is_empty());
    assert!(store.render_systems.is_present());
}

#[test]
fn backend_defaults_listen_to_three_buttons() {
    let backend = DoryenBackend::with_options(options());
    assert_eq!(backend.mouse_button_listeners.len(), 3);
    assert_eq!(backend.resize_mode, ResizeMode::Nothing);
}
