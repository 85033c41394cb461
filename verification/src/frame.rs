//! The controller: it owns the surface configuration and the colour, takes
//! one window event at a time, and answers with what the shell has to do.

use crate::color::{
    lemma_normalized_bounded, lemma_normalized_in_window, normalized, normalized_spec, ClearColor,
    ColorState, FULL, SUBPIXEL, TOLERANCE, UNITS_PER_SUBPIXEL,
};
use crate::surface::{Recovery, RenderError, SurfaceConfig};
use vstd::prelude::*;

verus! {

/// Where the loop stands.
#[derive(Clone, Copy, Debug, PartialEq, Eq, Structural)]
pub enum Phase {
    /// No window has become available yet.
    Uninitialized,
    /// Waiting for events.
    Ready,
    /// A frame was handed out and its outcome is awaited.
    Rendering,
    /// The session is over; nothing is scheduled any more.
    Terminated,
}

/// The keys the loop tells apart.
#[derive(Clone, Copy, Debug, PartialEq, Eq, Structural)]
pub enum Key {
    Escape,
    Q,
    Other,
}

/// A window event, reduced to what the loop reads of it.
#[derive(Clone, Copy, Debug, PartialEq, Eq, Structural)]
pub enum Event {
    CloseRequested,
    Resized { width: u32, height: u32 },
    /// The cursor's position within the window, in thousandths of a pixel.
    CursorMoved { x: i64, y: i64 },
    MouseInput { left: bool, pressed: bool },
    KeyboardInput { key: Key, pressed: bool, synthetic: bool },
    RedrawRequested,
    Other,
}

/// What the shell has to do on the graphics side.
#[derive(Clone, Copy, Debug, PartialEq, Eq, Structural)]
pub enum Command {
    Nothing,
    /// Configure the surface with this configuration.
    Configure(SurfaceConfig),
    /// Clear a frame to this colour, present it, and report how it went.
    Render(ClearColor),
    /// Leave the event loop.
    Exit,
}

/// The answer to one event.
#[derive(Clone, Copy, Debug, PartialEq, Eq, Structural)]
pub struct Response {
    /// Whether a redraw is to be requested from the window.
    pub redraw: bool,
    pub command: Command,
}

/// Remembers the last update tick, in nanoseconds of a monotonic clock.
#[derive(Clone, Copy, Debug, PartialEq, Eq, Structural)]
pub struct FrameTimer {
    pub last_update: u64,
}

/// The loop's whole state.
#[derive(Clone, Copy, Debug, PartialEq, Eq, Structural)]
pub struct State {
    pub config: SurfaceConfig,
    pub mouse_down: bool,
    pub timer: FrameTimer,
    pub color_info: ColorState,
    pub phase: Phase,
}

/// The loop from before the first window to the end of the session.
#[derive(Clone, Copy, Debug, PartialEq, Eq, Structural)]
pub struct App {
    /// `None` until a window has become available.
    pub state: Option<State>,
}

impl FrameTimer {
    /// Nanoseconds from the last tick to `now`; zero where the clock seems
    /// to have gone back.
    pub open spec fn elapsed_spec(self, now: u64) -> u64 {
        if now >= self.last_update {
            (now - self.last_update) as u64
        } else {
            0
        }
    }

    /// A timer whose last tick is `now`.
    pub fn new(now: u64) -> (t: FrameTimer)
        ensures
            t.last_update == now,
    {
        FrameTimer { last_update: now }
    }

    /// Makes `now` the last tick.
    pub fn reset(&mut self, now: u64)
        ensures
            final(self).last_update == now,
    {
        self.last_update = now;
    }

    /// The time since the last tick.
    pub fn elapsed(&self, now: u64) -> (delta: u64)
        ensures
            delta == self.elapsed_spec(now),
    {
        if now >= self.last_update {
            now - self.last_update
        } else {
            0
        }
    }
}

impl Event {
    /// A request to close the window, or a real press of Escape or Q.
    pub open spec fn is_quit(self) -> bool {
        match self {
            Event::CloseRequested => true,
            Event::KeyboardInput { key, pressed, synthetic } => pressed && !synthetic && (key
                == Key::Escape || key == Key::Q),
            _ => false,
        }
    }

    /// Tells whether this event ends the session.
    pub fn quits(&self) -> (quit: bool)
        ensures
            quit == self.is_quit(),
    {
        match self {
            Event::CloseRequested => true,
            Event::KeyboardInput { key, pressed, synthetic } => {
                let quit_key: bool = match key {
                    Key::Escape => true,
                    Key::Q => true,
                    Key::Other => false,
                };
                *pressed && !*synthetic && quit_key
            },
            _ => false,
        }
    }
}

impl State {
    /// The state of a window that has just become available.
    pub open spec fn fresh(config: SurfaceConfig, now: u64) -> State {
        State {
            config,
            mouse_down: false,
            timer: FrameTimer { last_update: now },
            color_info: ColorState::initial(),
            phase: Phase::Ready,
        }
    }

    /// A state is well formed where its colour is.
    pub open spec fn wf(self) -> bool {
        self.color_info.wf()
    }

    /// The loop takes events while it is ready or a frame is under way.
    pub open spec fn live(self) -> bool {
        self.phase == Phase::Ready || self.phase == Phase::Rendering
    }

    /// The colour after the cursor has moved to `(x, y)`. In a window
    /// without extent the cursor has no relative position, and the colour
    /// stays.
    pub open spec fn cursor_color(self, x: i64, y: i64) -> ColorState {
        if self.config.width > 0 && self.config.height > 0 {
            self.color_info.with_cursor(
                normalized_spec(x as int, self.config.width as int) as i128,
                normalized_spec(y as int, self.config.height as int) as i128,
            )
        } else {
            self.color_info
        }
    }

    /// The state after blue has drifted for the time since the last tick.
    pub open spec fn after_cycle(self, now: u64) -> State {
        State {
            color_info: self.color_info.advanced(self.timer.elapsed_spec(now) as int),
            ..self
        }
    }

    /// The state after the event's own effect on colour and button.
    pub open spec fn after_own_effect(self, event: Event) -> State {
        match event {
            Event::CursorMoved { x, y } => State { color_info: self.cursor_color(x, y), ..self },
            Event::MouseInput { left, pressed } => if left {
                State { mouse_down: pressed, ..self }
            } else {
                self
            },
            _ => self,
        }
    }

    /// The state that `input` leaves: the event's own effect, then a blue
    /// step where the button is down. A loop that has ended takes no input.
    pub open spec fn after_input(self, event: Event, now: u64) -> State {
        if !self.live() {
            self
        } else if self.after_own_effect(event).mouse_down {
            self.after_own_effect(event).after_cycle(now)
        } else {
            self.after_own_effect(event)
        }
    }

    /// Whether `input` asks for a redraw: after a cursor move, and whenever
    /// the button is down.
    pub open spec fn wants_redraw(self, event: Event) -> bool {
        self.live() && (event is CursorMoved || self.after_own_effect(event).mouse_down)
    }

    /// The state that `handle` leaves.
    pub open spec fn after_event(self, event: Event, now: u64) -> State {
        let s = self.after_input(event, now);
        if !self.live() {
            self
        } else if event.is_quit() {
            State { phase: Phase::Terminated, ..s }
        } else {
            match event {
                Event::Resized { width, height } => State {
                    config: s.config.resized(width, height),
                    ..s
                },
                Event::RedrawRequested => if s.phase == Phase::Ready {
                    State { timer: FrameTimer { last_update: now }, phase: Phase::Rendering, ..s }
                } else {
                    s
                },
                _ => s,
            }
        }
    }

    /// The answer that `handle` gives.
    pub open spec fn response_to(self, event: Event, now: u64) -> Response {
        let s = self.after_input(event, now);
        if !self.live() {
            Response { redraw: false, command: Command::Nothing }
        } else if event.is_quit() {
            Response { redraw: false, command: Command::Exit }
        } else {
            match event {
                Event::Resized { width, height } => Response {
                    redraw: self.wants_redraw(event),
                    command: if width > 0 && height > 0 {
                        Command::Configure(s.config.resized(width, height))
                    } else {
                        Command::Nothing
                    },
                },
                Event::RedrawRequested => if s.phase == Phase::Ready {
                    Response { redraw: true, command: Command::Render(s.color_info.color) }
                } else {
                    Response { redraw: self.wants_redraw(event), command: Command::Nothing }
                },
                _ => Response { redraw: self.wants_redraw(event), command: Command::Nothing },
            }
        }
    }

    /// The state that `render_finished` leaves.
    pub open spec fn after_frame(self, outcome: Result<(), RenderError>) -> State {
        if self.phase != Phase::Rendering {
            self
        } else {
            match outcome {
                Ok(_) => State { phase: Phase::Ready, ..self },
                Err(e) => match e.recovery_spec() {
                    Recovery::Fatal => State { phase: Phase::Terminated, ..self },
                    _ => State { phase: Phase::Ready, ..self },
                },
            }
        }
    }

    /// The command that `render_finished` gives.
    pub open spec fn frame_command(self, outcome: Result<(), RenderError>) -> Command {
        if self.phase != Phase::Rendering {
            Command::Nothing
        } else {
            match outcome {
                Ok(_) => Command::Nothing,
                Err(e) => match e.recovery_spec() {
                    Recovery::Reconfigure => Command::Configure(self.config),
                    Recovery::Skip => Command::Nothing,
                    Recovery::Fatal => Command::Exit,
                },
            }
        }
    }

    /// The state of a window that has just become available: ready, button
    /// up, colour black, the first tick at `now`.
    pub fn new(config: SurfaceConfig, now: u64) -> (s: State)
        ensures
            s == State::fresh(config, now),
            s.wf(),
    {
        State {
            config,
            mouse_down: false,
            timer: FrameTimer::new(now),
            color_info: ColorState::new(),
            phase: Phase::Ready,
        }
    }

    /// Tells whether the state is well formed.
    pub fn is_well_formed(&self) -> (b: bool)
        ensures
            b == self.wf(),
    {
        self.color_info.is_well_formed()
    }

    /// Takes the window's new size; see `SurfaceConfig::resize`.
    pub fn resize(&mut self, width: u32, height: u32) -> (configure: bool)
        ensures
            *final(self) == (State { config: old(self).config.resized(width, height), ..*old(self) }),
            configure == (width > 0 && height > 0),
    {
        self.config.resize(width, height)
    }

    /// Starts a frame where the loop is ready for one, and gives the colour
    /// to clear it to.
    pub fn render(&mut self) -> (frame: Option<ClearColor>)
        ensures
            old(self).phase == Phase::Ready ==> frame == Some(old(self).color_info.color)
                && *final(self) == (State { phase: Phase::Rendering, ..*old(self) }),
            old(self).phase != Phase::Ready ==> frame.is_none() && *final(self) == *old(self),
    {
        match self.phase {
            Phase::Ready => {
                self.phase = Phase::Rendering;
                Some(self.color_info.color)
            },
            _ => None,
        }
    }

    /// Ends the frame that `render` started. A lost surface is configured
    /// again with the stored configuration, running out of memory ends the
    /// session, any other failure only costs the frame.
    pub fn render_finished(&mut self, outcome: Result<(), RenderError>) -> (command: Command)
        ensures
            *final(self) == old(self).after_frame(outcome),
            command == old(self).frame_command(outcome),
    {
        match self.phase {
            Phase::Rendering => {},
            _ => {
                return Command::Nothing;
            },
        }
        match outcome {
            Ok(_) => {
                self.phase = Phase::Ready;
                Command::Nothing
            },
            Err(e) => match e.recovery() {
                Recovery::Reconfigure => {
                    self.phase = Phase::Ready;
                    Command::Configure(self.config)
                },
                Recovery::Skip => {
                    self.phase = Phase::Ready;
                    Command::Nothing
                },
                Recovery::Fatal => {
                    self.phase = Phase::Terminated;
                    Command::Exit
                },
            },
        }
    }

    /// Marks the update tick.
    pub fn update(&mut self, now: u64)
        ensures
            *final(self) == (State { timer: FrameTimer { last_update: now }, ..*old(self) }),
    {
        self.timer.reset(now);
    }

    /// Lets blue drift for the time since the last update tick.
    pub fn cycle_blue(&mut self, now: u64)
        requires
            old(self).wf(),
        ensures
            *final(self) == old(self).after_cycle(now),
            final(self).wf(),
    {
        let delta: u64 = self.timer.elapsed(now);
        self.color_info.advance_blue(delta);
    }

    /// Applies an event to colour and button and tells whether the window
    /// has to be redrawn.
    pub fn input(&mut self, event: &Event, now: u64) -> (redraw: bool)
        requires
            old(self).wf(),
        ensures
            *final(self) == old(self).after_input(*event, now),
            redraw == old(self).wants_redraw(*event),
            final(self).wf(),
    {
        match self.phase {
            Phase::Ready => {},
            Phase::Rendering => {},
            _ => {
                return false;
            },
        }
        let mut moved: bool = false;
        match event {
            Event::CursorMoved { x, y } => {
                let norm_x: Option<i128> = normalized(*x, self.config.width);
                let norm_y: Option<i128> = normalized(*y, self.config.height);
                match (norm_x, norm_y) {
                    (Some(red), Some(green)) => {
                        self.color_info.update_from_cursor(red, green);
                    },
                    _ => {},
                }
                moved = true;
            },
            Event::MouseInput { left, pressed } => {
                if *left {
                    self.mouse_down = *pressed;
                }
            },
            _ => {},
        }
        if self.mouse_down {
            self.cycle_blue(now);
            return true;
        }
        moved
    }

    /// Handles one window event at the time `now` and says what the shell
    /// has to do.
    pub fn handle(&mut self, event: &Event, now: u64) -> (response: Response)
        requires
            old(self).wf(),
        ensures
            *final(self) == old(self).after_event(*event, now),
            response == old(self).response_to(*event, now),
            final(self).wf(),
    {
        match self.phase {
            Phase::Ready => {},
            Phase::Rendering => {},
            _ => {
                return Response { redraw: false, command: Command::Nothing };
            },
        }
        let redraw: bool = self.input(event, now);
        if event.quits() {
            self.phase = Phase::Terminated;
            return Response { redraw: false, command: Command::Exit };
        }
        match event {
            Event::Resized { width, height } => {
                if self.resize(*width, *height) {
                    Response { redraw, command: Command::Configure(self.config) }
                } else {
                    Response { redraw, command: Command::Nothing }
                }
            },
            Event::RedrawRequested => {
                match self.phase {
                    Phase::Ready => {
                        self.update(now);
                        match self.render() {
                            Some(color) => Response { redraw: true, command: Command::Render(color) },
                            None => Response { redraw, command: Command::Nothing },
                        }
                    },
                    _ => Response { redraw, command: Command::Nothing },
                }
            },
            _ => Response { redraw, command: Command::Nothing },
        }
    }
}

impl App {
    /// Before the first window there is nothing to go wrong; after it the
    /// state has to be well formed.
    pub open spec fn wf(self) -> bool {
        self.state matches Some(s) ==> s.wf()
    }

    /// Where the loop stands: uninitialised until a window is there, then
    /// wherever its state says.
    pub open spec fn phase_spec(self) -> Phase {
        match self.state {
            None => Phase::Uninitialized,
            Some(s) => s.phase,
        }
    }

    /// A loop that has no window yet.
    pub fn new() -> (app: App)
        ensures
            app.state.is_none(),
            app.phase_spec() == Phase::Uninitialized,
            app.wf(),
    {
        App { state: None }
    }

    /// Tells whether the loop's state, if there is one, is well formed.
    pub fn is_well_formed(&self) -> (b: bool)
        ensures
            b == self.wf(),
    {
        match self.state {
            None => true,
            Some(s) => s.is_well_formed(),
        }
    }

    /// Where the loop stands.
    pub fn phase(&self) -> (phase: Phase)
        ensures
            phase == self.phase_spec(),
    {
        match self.state {
            None => Phase::Uninitialized,
            Some(s) => s.phase,
        }
    }

    /// A window has become available. The first time, the loop becomes
    /// ready, the surface is to be configured with `config`, and a first
    /// redraw is asked for. Later activations change nothing.
    pub fn resumed(&mut self, config: SurfaceConfig, now: u64) -> (response: Response)
        requires
            old(self).wf(),
        ensures
            old(self).state.is_none() ==> final(self).state == Some(State::fresh(config, now))
                && response == (Response { redraw: true, command: Command::Configure(config) }),
            old(self).state.is_some() ==> *final(self) == *old(self) && response == (Response {
                redraw: false,
                command: Command::Nothing,
            }),
            final(self).wf(),
    {
        match self.state {
            None => {
                self.state = Some(State::new(config, now));
                Response { redraw: true, command: Command::Configure(config) }
            },
            Some(_) => Response { redraw: false, command: Command::Nothing },
        }
    }

    /// Hands a window event to the state. Before the first window there is
    /// nothing to do.
    pub fn window_event(&mut self, event: &Event, now: u64) -> (response: Response)
        requires
            old(self).wf(),
        ensures
            old(self).state.is_none() ==> *final(self) == *old(self) && response == (Response {
                redraw: false,
                command: Command::Nothing,
            }),
            old(self).state matches Some(s) ==> final(self).state == Some(s.after_event(*event, now))
                && response == s.response_to(*event, now),
            final(self).wf(),
    {
        match self.state {
            None => Response { redraw: false, command: Command::Nothing },
            Some(s) => {
                let mut state: State = s;
                let response: Response = state.handle(event, now);
                self.state = Some(state);
                response
            },
        }
    }

    /// Reports how the frame went that the last `Render` command asked for.
    pub fn frame_finished(&mut self, outcome: Result<(), RenderError>) -> (command: Command)
        requires
            old(self).wf(),
        ensures
            old(self).state.is_none() ==> *final(self) == *old(self) && command == Command::Nothing,
            old(self).state matches Some(s) ==> final(self).state == Some(s.after_frame(outcome))
                && command == s.frame_command(outcome),
            final(self).wf(),
    {
        match self.state {
            None => Command::Nothing,
            Some(s) => {
                let mut state: State = s;
                let command: Command = state.render_finished(outcome);
                self.state = Some(state);
                command
            },
        }
    }
}

/// Every event leaves a well-formed state well formed.
pub proof fn lemma_event_preserves_wf(s: State, event: Event, now: u64)
    requires
        s.wf(),
    ensures
        s.after_event(event, now).wf(),
        s.after_input(event, now).wf(),
{
}

/// No outcome of a frame touches the colour, the button, the timer or the
/// configuration.
pub proof fn lemma_frame_keeps_data(s: State, outcome: Result<(), RenderError>)
    ensures
        s.after_frame(outcome) == (State { phase: s.after_frame(outcome).phase, ..s }),
        s.wf() ==> s.after_frame(outcome).wf(),
{
}

/// After a cursor move inside a window with extent, red and green are the
/// cursor's relative position, the colour is opaque, and, with the button
/// up, blue is what it was.
pub proof fn lemma_cursor_sets_red_green(s: State, x: i64, y: i64, now: u64)
    requires
        s.live(),
        s.config.width > 0,
        s.config.height > 0,
    ensures
        ({
            let after = s.after_input(Event::CursorMoved { x, y }, now).color_info.color;
            &&& after.red == normalized_spec(x as int, s.config.width as int)
            &&& after.green == normalized_spec(y as int, s.config.height as int)
            &&& after.alpha == FULL
            &&& !s.mouse_down ==> after.blue == s.color_info.color.blue
        }),
        s.wants_redraw(Event::CursorMoved { x, y }),
{
    lemma_normalized_bounded(x as int, s.config.width as int);
    lemma_normalized_bounded(y as int, s.config.height as int);
}

/// With the cursor inside the window, red is the quotient of the cursor's
/// x and the width, and green that of its y and the height, each to within
/// the tolerance: `|red / FULL - x / (width * SUBPIXEL)| <= 1e-12`, with the
/// divisions multiplied out.
pub proof fn lemma_cursor_in_window_within_tolerance(s: State, x: i64, y: i64, now: u64)
    requires
        s.live(),
        s.config.width > 0,
        s.config.height > 0,
        0 <= x <= s.config.width * SUBPIXEL,
        0 <= y <= s.config.height * SUBPIXEL,
    ensures
        ({
            let after = s.after_input(Event::CursorMoved { x, y }, now).color_info.color;
            &&& 0 <= after.red <= FULL
            &&& 0 <= after.green <= FULL
            &&& 0 <= x * UNITS_PER_SUBPIXEL - after.red * s.config.width <= TOLERANCE
                * s.config.width
            &&& 0 <= y * UNITS_PER_SUBPIXEL - after.green * s.config.height <= TOLERANCE
                * s.config.height
        }),
{
    lemma_normalized_in_window(x as int, s.config.width as int);
    lemma_normalized_in_window(y as int, s.config.height as int);
}

/// While the button is down, every event moves blue by the time since the
/// last tick and asks for a redraw; red and green change on cursor moves
/// only.
pub proof fn lemma_held_button_drifts(s: State, event: Event, now: u64)
    requires
        s.live(),
        s.mouse_down,
        !(event is CursorMoved),
        !(event is MouseInput),
    ensures
        s.after_input(event, now).color_info == s.color_info.advanced(
            s.timer.elapsed_spec(now) as int,
        ),
        s.after_input(event, now).color_info.color.red == s.color_info.color.red,
        s.after_input(event, now).color_info.color.green == s.color_info.color.green,
        s.wants_redraw(event),
{
}

/// A redraw request in a ready loop marks the tick, hands out exactly the
/// colour that the event left, and asks for the next redraw at once.
pub proof fn lemma_redraw_renders_current_color(s: State, now: u64)
    requires
        s.phase == Phase::Ready,
    ensures
        s.response_to(Event::RedrawRequested, now) == (Response {
            redraw: true,
            command: Command::Render(
                s.after_event(Event::RedrawRequested, now).color_info.color,
            ),
        }),
        !s.mouse_down ==> s.after_event(Event::RedrawRequested, now).color_info == s.color_info,
        s.after_event(Event::RedrawRequested, now).phase == Phase::Rendering,
        s.after_event(Event::RedrawRequested, now).timer.last_update == now,
{
}

/// A close request or a real press of a quit key ends a live loop: it asks
/// for no redraw and tells the shell to leave.
pub proof fn lemma_quit_terminates(s: State, event: Event, now: u64)
    requires
        s.live(),
        event.is_quit(),
    ensures
        s.after_event(event, now).phase == Phase::Terminated,
        s.response_to(event, now) == (Response { redraw: false, command: Command::Exit }),
{
}

/// A released key, a synthetic press and any other key end nothing.
pub proof fn lemma_only_real_presses_quit(key: Key, pressed: bool, synthetic: bool)
    ensures
        (Event::KeyboardInput { key, pressed, synthetic }).is_quit() <==> (pressed && !synthetic
            && key != Key::Other),
{
}

/// Once the loop has ended it stays ended: no event and no frame changes it
/// or schedules anything.
pub proof fn lemma_terminated_is_final(
    s: State,
    event: Event,
    now: u64,
    outcome: Result<(), RenderError>,
)
    requires
        s.phase == Phase::Terminated,
    ensures
        s.after_event(event, now) == s,
        s.response_to(event, now) == (Response { redraw: false, command: Command::Nothing }),
        s.after_frame(outcome) == s,
        s.frame_command(outcome) == Command::Nothing,
{
}

/// Only a quit event or running out of memory ends the loop.
pub proof fn lemma_only_quit_or_fatal_terminates(
    s: State,
    event: Event,
    now: u64,
    outcome: Result<(), RenderError>,
)
    requires
        s.live(),
    ensures
        s.after_event(event, now).phase == Phase::Terminated <==> event.is_quit(),
        s.after_frame(outcome).phase == Phase::Terminated <==> (s.phase == Phase::Rendering
            && outcome == Err::<(), RenderError>(RenderError::OutOfMemory)),
{
}

/// A lost surface does not end the loop: the surface is to be configured
/// again with the stored configuration before any further frame, and the
/// loop is ready for that frame.
pub proof fn lemma_lost_surface_reconfigures(s: State)
    requires
        s.phase == Phase::Rendering,
    ensures
        s.frame_command(Err(RenderError::SurfaceLost)) == Command::Configure(s.config),
        s.after_frame(Err(RenderError::SurfaceLost)) == (State { phase: Phase::Ready, ..s }),
{
}

/// A frame that is outdated or timed out is skipped, and the loop goes on.
pub proof fn lemma_transient_failures_skip(s: State, e: RenderError)
    requires
        s.phase == Phase::Rendering,
        e == RenderError::Outdated || e == RenderError::Timeout,
    ensures
        s.frame_command(Err(e)) == Command::Nothing,
        s.after_frame(Err(e)) == (State { phase: Phase::Ready, ..s }),
{
}

/// A second resize to the same size leaves the configuration that the first
/// one left, and that configuration has the size asked for.
pub proof fn lemma_resize_event_idempotent(s: State, width: u32, height: u32, t1: u64, t2: u64)
    requires
        s.live(),
        width > 0,
        height > 0,
    ensures
        ({
            let once = s.after_event(Event::Resized { width, height }, t1);
            let twice = once.after_event(Event::Resized { width, height }, t2);
            &&& once.config.width == width
            &&& once.config.height == height
            &&& twice.config == once.config
            &&& twice.phase == s.phase
        }),
{
}

/// A resize with a zero dimension leaves the configuration untouched and
/// asks for no configuring.
pub proof fn lemma_resize_event_zero_guard(s: State, width: u32, height: u32, now: u64)
    requires
        width == 0 || height == 0,
    ensures
        s.after_event(Event::Resized { width, height }, now).config == s.config,
        s.response_to(Event::Resized { width, height }, now).command == Command::Nothing,
{
}

} // verus!
