use clearloop::color::{ClearColor, ColorState, FULL};
use clearloop::frame::{App, Command, Event, FrameTimer, Key, Phase, Response, State};
use clearloop::surface::{RenderError, SurfaceConfig};

const MS: u64 = 1_000_000;
const PX: i64 = 1_000_000_000_000;
const NS: i128 = 1_000_000;

fn ready(width: u32, height: u32) -> State {
    State::new(SurfaceConfig::new(0, width, height), 0)
}

fn press() -> Event {
    Event::MouseInput { left: true, pressed: true }
}

fn release() -> Event {
    Event::MouseInput { left: true, pressed: false }
}

fn nothing(redraw: bool) -> Response {
    Response { redraw, command: Command::Nothing }
}

#[test]
fn new_state_is_ready_and_black() {
    let s = ready(800, 600);
    assert_eq!(s.phase, Phase::Ready);
    assert!(!s.mouse_down);
    assert_eq!(s.timer, FrameTimer { last_update: 0 });
    assert_eq!(s.color_info.color, ClearColor { red: 0, green: 0, blue: 0, alpha: 0 });
    assert!(s.color_info.blue_direction);
    assert_eq!((s.config.width, s.config.height), (800, 600));
}

#[test]
fn cursor_in_the_middle_gives_half_red_half_green() {
    let mut s = ready(800, 600);
    let blue_before = s.color_info.color.blue;
    let r = s.handle(&Event::CursorMoved { x: 400 * PX, y: 300 * PX }, 3 * MS);
    assert_eq!(r, nothing(true));
    let expected =
        ClearColor { red: FULL / 2, green: FULL / 2, blue: blue_before, alpha: FULL };
    assert_eq!(s.color_info.color, expected);
    let r = s.handle(&Event::RedrawRequested, 5 * MS);
    assert_eq!(r, Response { redraw: true, command: Command::Render(expected) });
    assert_eq!(s.phase, Phase::Rendering);
    assert_eq!(s.timer.last_update, 5 * MS);
}

#[test]
fn held_button_makes_blue_bounce() {
    let mut s = ready(800, 600);
    s.handle(&Event::CursorMoved { x: 200 * PX, y: 150 * PX }, 0);
    let red = s.color_info.color.red;
    let green = s.color_info.color.green;
    assert_eq!(s.handle(&press(), 0), nothing(true));
    let mut now: u64 = 0;
    let mut rose = false;
    let mut fell_after_rising = false;
    let mut last_blue = s.color_info.color.blue;
    // 210 frames of 10 ms: 2.1 s
    for _ in 0..210 {
        now += 10 * MS;
        let r = s.handle(&Event::RedrawRequested, now);
        assert!(r.redraw);
        assert!(matches!(r.command, Command::Render(_)));
        assert_eq!(s.render_finished(Ok(())), Command::Nothing);
        let blue = s.color_info.color.blue;
        if blue > last_blue {
            rose = true;
        }
        if blue < last_blue && rose {
            fell_after_rising = true;
        }
        last_blue = blue;
        assert_eq!(s.color_info.color.red, red);
        assert_eq!(s.color_info.color.green, green);
    }
    assert!(rose);
    assert!(fell_after_rising);
    // up for 2.0 s to full intensity, then down for 0.1 s
    assert_eq!(s.color_info.color.blue, 1_900_000_000 * NS);
    assert!(!s.color_info.blue_direction);
}

#[test]
fn held_button_in_one_long_step() {
    let mut s = ready(800, 600);
    s.handle(&press(), 0);
    let r = s.handle(&Event::Other, 2_100 * MS);
    assert_eq!(r, nothing(true));
    assert_eq!(s.color_info.color.blue, 2_100_000_000 * NS);
    assert!(!s.color_info.blue_direction);
}

#[test]
fn escape_ends_the_loop() {
    let mut s = ready(800, 600);
    let r = s.handle(&Event::KeyboardInput { key: Key::Escape, pressed: true, synthetic: false }, 1);
    assert_eq!(r, Response { redraw: false, command: Command::Exit });
    assert_eq!(s.phase, Phase::Terminated);
    // nothing is scheduled any more
    assert_eq!(s.handle(&Event::RedrawRequested, 2), nothing(false));
    assert_eq!(s.handle(&Event::CursorMoved { x: 1, y: 1 }, 3), nothing(false));
    assert_eq!(s.render(), None);
    assert_eq!(s.phase, Phase::Terminated);
}

#[test]
fn q_and_close_end_the_loop() {
    let mut s = ready(800, 600);
    let r = s.handle(&Event::KeyboardInput { key: Key::Q, pressed: true, synthetic: false }, 1);
    assert_eq!(r.command, Command::Exit);
    assert_eq!(s.phase, Phase::Terminated);
    let mut s = ready(800, 600);
    let r = s.handle(&Event::CloseRequested, 1);
    assert_eq!(r, Response { redraw: false, command: Command::Exit });
    assert_eq!(s.phase, Phase::Terminated);
}

#[test]
fn quit_ends_the_loop_while_the_button_is_held() {
    let mut s = ready(800, 600);
    s.handle(&press(), 0);
    let r = s.handle(&Event::CloseRequested, 1);
    assert_eq!(r, Response { redraw: false, command: Command::Exit });
    assert_eq!(s.phase, Phase::Terminated);
}

#[test]
fn other_key_events_end_nothing() {
    let events = [
        Event::KeyboardInput { key: Key::Escape, pressed: false, synthetic: false },
        Event::KeyboardInput { key: Key::Escape, pressed: true, synthetic: true },
        Event::KeyboardInput { key: Key::Q, pressed: false, synthetic: false },
        Event::KeyboardInput { key: Key::Q, pressed: true, synthetic: true },
        Event::KeyboardInput { key: Key::Other, pressed: true, synthetic: false },
    ];
    for e in events.iter() {
        assert!(!e.quits());
        let mut s = ready(800, 600);
        assert_eq!(s.handle(e, 1), nothing(false));
        assert_eq!(s.phase, Phase::Ready);
    }
    assert!(Event::CloseRequested.quits());
    assert!(Event::KeyboardInput { key: Key::Q, pressed: true, synthetic: false }.quits());
}

#[test]
fn lost_surface_is_configured_again() {
    let mut s = ready(800, 600);
    s.resize(1024, 768);
    let r = s.handle(&Event::RedrawRequested, 10);
    assert!(matches!(r.command, Command::Render(_)));
    assert_eq!(s.phase, Phase::Rendering);
    let c = s.render_finished(Err(RenderError::SurfaceLost));
    assert_eq!(c, Command::Configure(s.config));
    assert_eq!((s.config.width, s.config.height), (1024, 768));
    assert_eq!(s.phase, Phase::Ready);
    // the loop goes on
    let r = s.handle(&Event::RedrawRequested, 20);
    assert!(r.redraw);
    assert!(matches!(r.command, Command::Render(_)));
}

#[test]
fn out_of_memory_ends_the_session() {
    let mut s = ready(800, 600);
    s.handle(&Event::RedrawRequested, 10);
    assert_eq!(s.render_finished(Err(RenderError::OutOfMemory)), Command::Exit);
    assert_eq!(s.phase, Phase::Terminated);
    assert_eq!(s.handle(&Event::RedrawRequested, 20), nothing(false));
}

#[test]
fn outdated_and_timeout_skip_the_frame() {
    for e in [RenderError::Outdated, RenderError::Timeout] {
        let mut s = ready(800, 600);
        s.handle(&Event::RedrawRequested, 10);
        let before = s;
        assert_eq!(s.render_finished(Err(e)), Command::Nothing);
        assert_eq!(s.phase, Phase::Ready);
        assert_eq!(s.config, before.config);
        assert_eq!(s.color_info, before.color_info);
    }
}

#[test]
fn frame_outcome_without_a_frame_is_ignored() {
    let mut s = ready(800, 600);
    let before = s;
    assert_eq!(s.render_finished(Err(RenderError::OutOfMemory)), Command::Nothing);
    assert_eq!(s, before);
}

#[test]
fn redraw_while_rendering_starts_no_second_frame() {
    let mut s = ready(800, 600);
    s.handle(&Event::RedrawRequested, 10);
    assert_eq!(s.handle(&Event::RedrawRequested, 20), nothing(false));
    assert_eq!(s.phase, Phase::Rendering);
    assert_eq!(s.timer.last_update, 10);
    assert_eq!(s.render(), None);
}

#[test]
fn render_hands_out_the_colour_once() {
    let mut s = ready(800, 600);
    s.handle(&Event::CursorMoved { x: 800 * PX, y: 0 }, 1);
    let c = s.render();
    assert_eq!(c, Some(ClearColor { red: FULL, green: 0, blue: 0, alpha: FULL }));
    assert_eq!(s.phase, Phase::Rendering);
    assert_eq!(s.render_finished(Ok(())), Command::Nothing);
    assert_eq!(s.phase, Phase::Ready);
}

#[test]
fn resize_event_configures_the_surface() {
    let mut s = ready(800, 600);
    let r = s.handle(&Event::Resized { width: 640, height: 480 }, 1);
    assert_eq!(r, Response { redraw: false, command: Command::Configure(s.config) });
    assert_eq!((s.config.width, s.config.height), (640, 480));
    assert_eq!(s.phase, Phase::Ready);
    let once = s.config;
    let r = s.handle(&Event::Resized { width: 640, height: 480 }, 2);
    assert_eq!(r.command, Command::Configure(once));
    assert_eq!(s.config, once);
}

#[test]
fn resize_event_with_a_zero_dimension_is_ignored() {
    let mut s = ready(800, 600);
    let before = s;
    assert_eq!(s.handle(&Event::Resized { width: 0, height: 480 }, 1), nothing(false));
    assert_eq!(s, before);
    assert_eq!(s.handle(&Event::Resized { width: 640, height: 0 }, 2), nothing(false));
    assert_eq!(s, before);
    assert!(!s.resize(0, 0));
    assert_eq!(s, before);
}

#[test]
fn released_button_stops_the_drift() {
    let mut s = ready(800, 600);
    assert!(s.input(&press(), 100 * MS));
    assert!(s.mouse_down);
    assert_eq!(s.color_info.color.blue, 100_000_000 * NS);
    assert!(!s.input(&release(), 150 * MS));
    assert!(!s.mouse_down);
    assert_eq!(s.color_info.color.blue, 100_000_000 * NS);
    assert!(!s.input(&Event::Other, 900 * MS));
    assert_eq!(s.color_info.color.blue, 100_000_000 * NS);
}

#[test]
fn other_buttons_are_ignored() {
    let mut s = ready(800, 600);
    assert!(!s.input(&Event::MouseInput { left: false, pressed: true }, 10));
    assert!(!s.mouse_down);
    s.input(&press(), 10);
    assert!(s.input(&Event::MouseInput { left: false, pressed: false }, 10));
    assert!(s.mouse_down);
}

#[test]
fn cursor_move_with_held_button_also_drifts() {
    let mut s = ready(800, 600);
    s.input(&press(), 0);
    assert!(s.input(&Event::CursorMoved { x: 80 * PX, y: 60 * PX }, 50 * MS));
    assert_eq!(
        s.color_info.color,
        ClearColor { red: FULL / 10, green: FULL / 10, blue: 50_000_000 * NS, alpha: FULL }
    );
}

#[test]
fn cursor_in_a_window_without_extent_keeps_the_colour() {
    let mut s = ready(0, 600);
    let before = s.color_info;
    assert!(s.input(&Event::CursorMoved { x: 5_000, y: 5_000 }, 1));
    assert_eq!(s.color_info, before);
}

#[test]
fn update_marks_the_tick() {
    let mut s = ready(800, 600);
    s.update(42);
    assert_eq!(s.timer.last_update, 42);
    s.input(&press(), 42);
    s.cycle_blue(50);
    assert_eq!(s.color_info.color.blue, 8 * NS);
    // a clock that went back counts as no time
    s.cycle_blue(7);
    assert_eq!(s.color_info.color.blue, 8 * NS);
}

#[test]
fn timer_measures_from_the_last_tick() {
    let mut t = FrameTimer::new(100);
    assert_eq!(t.elapsed(250), 150);
    assert_eq!(t.elapsed(100), 0);
    assert_eq!(t.elapsed(99), 0);
    t.reset(200);
    assert_eq!(t.elapsed(250), 50);
}

#[test]
fn app_before_the_first_window_does_nothing() {
    let mut app = App::new();
    assert_eq!(app.phase(), Phase::Uninitialized);
    assert_eq!(app.window_event(&Event::RedrawRequested, 1), nothing(false));
    assert_eq!(app.window_event(&Event::CloseRequested, 1), nothing(false));
    assert_eq!(app.frame_finished(Ok(())), Command::Nothing);
    assert_eq!(app.phase(), Phase::Uninitialized);
    assert_eq!(app.state, None);
}

#[test]
fn app_becomes_ready_on_the_first_window() {
    let mut app = App::new();
    let config = SurfaceConfig::new(1, 800, 600);
    let r = app.resumed(config, 9);
    assert_eq!(r, Response { redraw: true, command: Command::Configure(config) });
    assert_eq!(app.phase(), Phase::Ready);
    assert_eq!(app.state, Some(State::new(config, 9)));
    // a second activation changes nothing
    let before = app;
    let r = app.resumed(SurfaceConfig::new(0, 1, 1), 10);
    assert_eq!(r, nothing(false));
    assert_eq!(app, before);
}

#[test]
fn app_runs_a_frame_and_ends() {
    let mut app = App::new();
    app.resumed(SurfaceConfig::new(0, 800, 600), 0);
    let r = app.window_event(&Event::CursorMoved { x: 400 * PX, y: 300 * PX }, 1);
    assert_eq!(r, nothing(true));
    let r = app.window_event(&Event::RedrawRequested, 2);
    assert_eq!(
        r,
        Response {
            redraw: true,
            command: Command::Render(ClearColor {
                red: FULL / 2,
                green: FULL / 2,
                blue: 0,
                alpha: FULL
            }),
        }
    );
    assert_eq!(app.phase(), Phase::Rendering);
    assert_eq!(app.frame_finished(Err(RenderError::SurfaceLost)),
        Command::Configure(SurfaceConfig::new(0, 800, 600)));
    assert_eq!(app.phase(), Phase::Ready);
    let r = app.window_event(
        &Event::KeyboardInput { key: Key::Escape, pressed: true, synthetic: false },
        3,
    );
    assert_eq!(r, Response { redraw: false, command: Command::Exit });
    assert_eq!(app.phase(), Phase::Terminated);
    assert_eq!(app.window_event(&Event::RedrawRequested, 4), nothing(false));
}

#[test]
fn well_formed_states_are_recognised() {
    let mut s = ready(800, 600);
    assert!(s.is_well_formed());
    s.handle(&press(), 0);
    s.handle(&Event::Other, 2_500 * MS);
    assert!(s.is_well_formed());
    assert!(App::new().is_well_formed());
    let rising_above_full = ColorState {
        color: ClearColor { red: 0, green: 0, blue: FULL, alpha: 0 },
        blue_direction: true,
    };
    assert!(!rising_above_full.is_well_formed());
    let falling_at_zero = ColorState {
        color: ClearColor { red: 0, green: 0, blue: 0, alpha: 0 },
        blue_direction: false,
    };
    assert!(!falling_at_zero.is_well_formed());
    let falling_at_full = ColorState {
        color: ClearColor { red: 0, green: 0, blue: FULL, alpha: 0 },
        blue_direction: false,
    };
    assert!(falling_at_full.is_well_formed());
    s.color_info = rising_above_full;
    assert!(!s.is_well_formed());
    assert!(!App { state: Some(s) }.is_well_formed());
}

#[test]
fn cursor_in_a_narrow_window_is_within_tolerance() {
    let mut s = ready(3, 7);
    assert!(s.input(&Event::CursorMoved { x: PX, y: 5 * PX }, 1));
    let c = s.color_info.color;
    assert_eq!(c.red, 666_666_666_666_666);
    assert_eq!(c.green, 1_428_571_428_571_428);
    assert!((c.red as f64 / FULL as f64 - 1.0 / 3.0).abs() <= 1e-12);
    assert!((c.green as f64 / FULL as f64 - 5.0 / 7.0).abs() <= 1e-12);
    assert_eq!(c.alpha, FULL);
    assert_eq!(c.blue, 0);
}

#[test]
fn blue_rises_then_falls_over_uneven_steps() {
    let mut s = ready(800, 600);
    s.input(&press(), 0);
    // 2.1 s in steps of 30, 70 and 100 ms
    let pattern: [u64; 3] = [30, 70, 100];
    let mut now: u64 = 0;
    let mut blues: Vec<i128> = vec![s.color_info.color.blue];
    let mut turned_at: Option<usize> = None;
    let mut i = 0;
    while now < 2_100 * MS {
        now += pattern[i % 3] * MS;
        i += 1;
        s.cycle_blue(now);
        s.update(now);
        blues.push(s.color_info.color.blue);
        if turned_at.is_none() && !s.color_info.blue_direction {
            turned_at = Some(i);
            assert!(s.color_info.color.blue >= FULL);
        }
    }
    assert_eq!(now, 2_100 * MS);
    let k = turned_at.unwrap();
    assert!(0 < k && k < i);
    for j in 0..k {
        assert!(blues[j] < blues[j + 1]);
    }
    for j in k..i {
        assert!(blues[j] > blues[j + 1]);
    }
    assert!(!s.color_info.blue_direction);
    assert_eq!(s.color_info.color.blue, 1_900_000_000 * NS);
}
