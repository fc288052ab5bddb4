use meteo_tui::app::App;
use meteo_tui::args::Cli;
use meteo_tui::event::{handle_event, handle_key_events, key_action, Event, EventSource, Key, KeyAction, KeyPress};
use meteo_tui::render::{RenderLoop, Step};

fn press(key: Key) -> KeyPress {
    KeyPress { key, ctrl: false }
}

#[test]
fn new_app_runs_with_zero_counter() {
    let app = App::new("39.36667", "-0.41667", "Europe/Madrid");
    assert!(app.running);
    assert_eq!(app.counter, 0);
    assert_eq!(app.omc.timezone, "Europe/Madrid");
    app.tick();
}

#[test]
fn counter_saturates_at_both_ends() {
    let mut app = App::new("0", "0", "UTC");
    app.decrement_counter();
    assert_eq!(app.counter, 0);
    for _ in 0..300 {
        app.increment_counter();
    }
    assert_eq!(app.counter, 255);
    app.decrement_counter();
    assert_eq!(app.counter, 254);
    for _ in 0..300 {
        app.decrement_counter();
    }
    assert_eq!(app.counter, 0);
}

#[test]
fn quit_stops_the_app() {
    let mut app = App::new("0", "0", "UTC");
    app.counter = 5;
    app.quit();
    assert!(!app.running);
    assert_eq!(app.counter, 5);
}

#[test]
fn key_bindings() {
    assert_eq!(key_action(press(Key::Char('q'))), KeyAction::Quit);
    assert_eq!(key_action(press(Key::Esc)), KeyAction::Quit);
    assert_eq!(key_action(KeyPress { key: Key::Char('c'), ctrl: true }), KeyAction::Quit);
    assert_eq!(key_action(KeyPress { key: Key::Char('C'), ctrl: true }), KeyAction::Quit);
    assert_eq!(key_action(press(Key::Char('c'))), KeyAction::Ignore);
    assert_eq!(key_action(press(Key::Right)), KeyAction::Increment);
    assert_eq!(key_action(press(Key::Left)), KeyAction::Decrement);
    assert_eq!(key_action(press(Key::Up)), KeyAction::Ignore);
    assert_eq!(key_action(press(Key::Enter)), KeyAction::Ignore);
}

#[test]
fn keys_change_the_app() {
    let mut app = App::new("0", "0", "UTC");
    handle_key_events(press(Key::Right), &mut app);
    handle_key_events(press(Key::Right), &mut app);
    handle_key_events(press(Key::Left), &mut app);
    assert_eq!(app.counter, 1);
    assert!(app.running);
    handle_key_events(press(Key::Char('q')), &mut app);
    assert!(!app.running);
    assert_eq!(app.counter, 1);
}

#[test]
fn fetch_events_update_the_snapshot_while_running() {
    let mut app = App::new("0", "0", "UTC");
    let body = r#"{"current_weather": {"temperature": 1.5, "windspeed": 2.0,
        "winddirection": 10, "weathercode": 96, "is_day": 0}}"#;
    handle_event(Event::Fetched(Some(body.to_string())), &mut app);
    let cw = app.omc.get_current_weather().unwrap();
    assert_eq!(cw.get_icon_and_description().1, "Thunderstorm with slight and heavy hail");
    handle_event(Event::Fetched(None), &mut app);
    assert!(app.omc.get_current_weather().is_none());
    handle_event(Event::Fetched(Some(body.to_string())), &mut app);
    handle_event(Event::Key(press(Key::Esc)), &mut app);
    handle_event(Event::Fetched(None), &mut app);
    assert!(app.omc.get_current_weather().is_some());
    handle_event(Event::Resize(80, 24), &mut app);
    handle_event(Event::Mouse, &mut app);
    handle_event(Event::Tick, &mut app);
    assert!(!app.running);
}

#[test]
fn poll_never_waits_past_the_tick() {
    let s = EventSource::new(250, 1000);
    assert_eq!(s.poll_timeout(1000), 250);
    assert_eq!(s.poll_timeout(1100), 150);
    assert_eq!(s.poll_timeout(1250), 0);
    assert_eq!(s.poll_timeout(5000), 0);
    assert_eq!(s.poll_timeout(900), 250);
}

#[test]
fn wake_emits_input_then_due_tick() {
    let mut s = EventSource::new(250, 1000);
    let early = s.wake(1100, Some(Event::Key(press(Key::Left))));
    assert_eq!(early.len(), 1);
    assert!(matches!(early[0], Event::Key(_)));
    assert_eq!(s.last_tick_ms, 1000);
    assert!(s.wake(1200, None).is_empty());
    let timeout = s.poll_timeout(1200);
    let due = s.wake(1200 + timeout, None);
    assert_eq!(due.len(), 1);
    assert!(matches!(due[0], Event::Tick));
    assert_eq!(s.last_tick_ms, 1250);
    let both = s.wake(1600, Some(Event::Mouse));
    assert_eq!(both.len(), 2);
    assert!(matches!(both[0], Event::Mouse));
    assert!(matches!(both[1], Event::Tick));
}

#[test]
fn loop_tears_down_once_after_failed_draw() {
    let mut app = App::new("0", "0", "UTC");
    let mut l = RenderLoop::new();
    assert_eq!(l.next_step(app.running), Step::Draw);
    l.drawn(true);
    assert_eq!(l.next_step(app.running), Step::NextEvent);
    handle_event(Event::Tick, &mut app);
    l.dispatched();
    assert_eq!(l.next_step(app.running), Step::Draw);
    l.drawn(false);
    assert_eq!(l.next_step(app.running), Step::NextEvent);
    handle_event(Event::Key(press(Key::Char('q'))), &mut app);
    l.dispatched();
    assert_eq!(l.next_step(app.running), Step::Teardown);
    l.torn_down();
    assert_eq!(l.next_step(app.running), Step::Exit);
    l.drawn(false);
    assert_eq!(l.next_step(app.running), Step::Exit);
}

#[test]
fn cli_default_timezone() {
    let cli = Cli::new("39.36667", "-0.41667", None);
    assert_eq!(cli.timezone, "Europe/Madrid");
    assert_eq!(cli.latitude, "39.36667");
    let cli = Cli::new("1", "2", Some("UTC"));
    assert_eq!(cli.timezone, "UTC");
    assert_eq!(cli.longitude, "2");
}
