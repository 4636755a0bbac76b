use vstd::prelude::*;

use crate::size::{physical_size_of, to_physical, PhysicalSize, ScalePolicy};
use crate::state::{
    frame_of, lemma_resize_to_current_size, resize_applies, resized, triangle, DrawCall, InputEvent, KeyCode, State, SurfaceError,
    SurfaceModel,
};

verus! {

/// Where the application is in its lifecycle.
#[derive(Clone, Copy, Debug, PartialEq, Eq, Structural)]
pub enum Phase {
    /// No window and no graphics context yet.
    Uninitialized,
    /// Window and graphics context both exist.
    Ready,
    /// The event loop has been told to stop; nothing more is processed.
    Exiting,
}

/// The window events the application reacts to.
#[derive(Clone, Copy, Debug, PartialEq, Eq, Structural)]
pub enum WindowEvent {
    CloseRequested,
    /// The window now has this physical size.
    Resized(PhysicalSize),
    /// The display's scale factor changed to `numerator / denominator`. The
    /// surface is resized to the application's logical window size in
    /// physical pixels at that factor, since some platforms deliver no resize
    /// along with it. A zero denominator names no factor; the event is then
    /// ignored.
    ScaleFactorChanged { numerator: u32, denominator: u32 },
    RedrawRequested,
    /// Keyboard and pointer input.
    Input(InputEvent),
    /// Any other event, which is ignored.
    Other,
}

/// Work the caller performs on the window, surface and event loop.
#[derive(Clone, Copy, Debug, PartialEq, Eq, Structural)]
pub enum Command {
    /// Apply a surface configuration of this width and height.
    Configure(PhysicalSize),
    /// Acquire the next surface texture and report the outcome through
    /// `App::frame_acquired`.
    AcquireFrame,
    /// Record one pass that clears the acquired texture and issues this draw,
    /// submit it, and present the texture.
    Draw(DrawCall),
    /// Ask the window for another redraw.
    RequestRedraw,
    /// Stop the event loop.
    Exit,
}

/// What an `App` holds.
pub struct AppModel {
    pub title: Seq<char>,
    pub width: u32,
    pub height: u32,
    pub phase: Phase,
    pub surface: Option<SurfaceModel>,
}

impl AppModel {
    /// A graphics context exists exactly once the window system is ready.
    pub open spec fn wf(self) -> bool {
        &&& (self.phase == Phase::Uninitialized <==> self.surface is None)
        &&& (self.surface matches Some(s) ==> s.wf())
    }

    pub open spec fn with_surface(self, s: SurfaceModel) -> AppModel {
        AppModel { surface: Some(s), ..self }
    }

    pub open spec fn with_phase(self, phase: Phase) -> AppModel {
        AppModel { phase, ..self }
    }
}

/// Events that stop the application: a close request, or the quit key
/// pressed.
pub open spec fn is_quit(e: WindowEvent) -> bool {
    ||| e == WindowEvent::CloseRequested
    ||| e == WindowEvent::Input(InputEvent::Keyboard { key: KeyCode::Escape, pressed: true })
}

/// The commands that follow a resize of `s` to `size`.
pub open spec fn resize_commands(s: SurfaceModel, size: PhysicalSize) -> Seq<Command> {
    if resize_applies(s.policy, size) {
        seq![Command::Configure(resized(s, size).config)]
    } else {
        seq![]
    }
}

/// The next model and the commands for a window event. Only a ready
/// application reacts; in any other phase the event is dropped.
pub open spec fn step_event(m: AppModel, e: WindowEvent) -> (AppModel, Seq<Command>) {
    if m.phase != Phase::Ready || m.surface is None {
        (m, seq![])
    } else {
        let s = m.surface.unwrap();
        if is_quit(e) {
            (m.with_phase(Phase::Exiting), seq![Command::Exit])
        } else {
            match e {
                WindowEvent::Resized(size) => (m.with_surface(resized(s, size)), resize_commands(s, size)),
                WindowEvent::ScaleFactorChanged { numerator, denominator } => if denominator == 0 {
                    (m, seq![])
                } else {
                    let size = physical_size_of(m.width, m.height, numerator, denominator);
                    (m.with_surface(resized(s, size)), resize_commands(s, size))
                },
                WindowEvent::RedrawRequested => if s.configured() {
                    (m, seq![Command::AcquireFrame])
                } else {
                    (m, seq![Command::RequestRedraw])
                },
                _ => (m, seq![]),
            }
        }
    }
}

/// The next model and the commands once a frame's texture acquisition has
/// an outcome: draw on success; reconfigure at the current size when the
/// surface was lost; stop when out of memory; otherwise wait for the next
/// frame. Every handled outcome ends with a redraw request.
pub open spec fn step_frame(m: AppModel, acquired: Result<(), SurfaceError>) -> (
    AppModel,
    Seq<Command>,
) {
    if m.phase != Phase::Ready || m.surface is None || !m.surface.unwrap().configured() {
        (m, seq![])
    } else {
        let s = m.surface.unwrap();
        match frame_of(acquired) {
            Ok(d) => (m, seq![Command::Draw(d), Command::RequestRedraw]),
            Err(SurfaceError::Lost) => (
                m.with_surface(resized(s, s.size)),
                resize_commands(s, s.size).push(Command::RequestRedraw),
            ),
            Err(SurfaceError::OutOfMemory) => (
                m.with_phase(Phase::Exiting),
                seq![Command::Exit, Command::RequestRedraw],
            ),
            Err(_) => (m, seq![Command::RequestRedraw]),
        }
    }
}

/// The next model and the commands when the window system becomes ready
/// with a window of physical size `size`. Only the first activation counts.
pub open spec fn step_resumed(m: AppModel, size: PhysicalSize, policy: ScalePolicy) -> (
    AppModel,
    Seq<Command>,
) {
    if m.phase != Phase::Uninitialized {
        (m, seq![])
    } else {
        let s = SurfaceModel { size, config: policy.extent_of(size), policy };
        (
            m.with_surface(s).with_phase(Phase::Ready),
            if s.configured() {
                seq![Command::Configure(s.config)]
            } else {
                seq![]
            },
        )
    }
}

/// The model and all commands after a sequence of window events, handled in
/// order.
pub open spec fn run_events(m: AppModel, es: Seq<WindowEvent>) -> (AppModel, Seq<Command>)
    decreases es.len(),
{
    if es.len() == 0 {
        (m, seq![])
    } else {
        let prev = run_events(m, es.drop_last());
        let next = step_event(prev.0, es.last());
        (next.0, prev.1 + next.1)
    }
}

/// Once exiting, no event and no frame outcome changes anything or yields a
/// command.
pub proof fn lemma_exiting_is_final(m: AppModel, e: WindowEvent, acquired: Result<(), SurfaceError>)
    requires
        m.phase == Phase::Exiting,
    ensures
        step_event(m, e) == (m, Seq::<Command>::empty()),
        step_frame(m, acquired) == (m, Seq::<Command>::empty()),
{
}

/// Once exiting, a whole sequence of events is dropped.
pub proof fn lemma_exiting_drops_events(m: AppModel, es: Seq<WindowEvent>)
    requires
        m.phase == Phase::Exiting,
    ensures
        run_events(m, es) == (m, Seq::<Command>::empty()),
    decreases es.len(),
{
    if es.len() > 0 {
        lemma_exiting_drops_events(m, es.drop_last());
        assert(Seq::<Command>::empty() + Seq::<Command>::empty() =~= Seq::<Command>::empty());
    }
}

/// Pressing the quit key while ready stops the application, and no event
/// dispatched afterwards (a queued resize, say) is processed.
pub proof fn lemma_quit_key_stops(m: AppModel, later: Seq<WindowEvent>)
    requires
        m.wf(),
        m.phase == Phase::Ready,
    ensures
        ({
            let (m1, cmds) = step_event(
                m,
                WindowEvent::Input(InputEvent::Keyboard { key: KeyCode::Escape, pressed: true }),
            );
            &&& m1.phase == Phase::Exiting
            &&& cmds == seq![Command::Exit]
            &&& run_events(m1, later) == (m1, Seq::<Command>::empty())
        }),
{
    let (m1, cmds) = step_event(
        m,
        WindowEvent::Input(InputEvent::Keyboard { key: KeyCode::Escape, pressed: true }),
    );
    lemma_exiting_drops_events(m1, later);
}

/// A lost surface is resized exactly once, to the current size, before the
/// next frame is asked for: the sizing state stays as it was, and the surface
/// is reconfigured with its current configuration whenever the current size
/// maps to a positive extent. The application neither draws nor exits.
pub proof fn lemma_lost_reconfigures_once(m: AppModel)
    requires
        m.wf(),
        m.phase == Phase::Ready,
        m.surface matches Some(s) && s.configured(),
    ensures
        ({
            let s = m.surface.unwrap();
            let (m1, cmds) = step_frame(m, Err(SurfaceError::Lost));
            &&& m1 == m
            &&& cmds == resize_commands(s, s.size).push(Command::RequestRedraw)
            &&& s.policy.extent_of(s.size).positive() ==> cmds == seq![
                Command::Configure(s.config),
                Command::RequestRedraw,
            ]
            &&& !s.policy.extent_of(s.size).positive() ==> cmds == seq![Command::RequestRedraw]
        }),
{
    let s = m.surface.unwrap();
    lemma_resize_to_current_size(s);
    assert(m.with_surface(s) == m);
    assert(resize_commands(s, s.size).push(Command::RequestRedraw) =~= if s.policy.extent_of(
        s.size,
    ).positive() {
        seq![Command::Configure(s.config), Command::RequestRedraw]
    } else {
        seq![Command::RequestRedraw]
    });
}

/// Running out of memory stops the application: it exits, draws nothing, and
/// afterwards no frame is acquired or drawn, whatever events follow.
pub proof fn lemma_out_of_memory_stops(m: AppModel, later: Seq<WindowEvent>)
    requires
        m.wf(),
        m.phase == Phase::Ready,
        m.surface matches Some(s) && s.configured(),
    ensures
        ({
            let (m1, cmds) = step_frame(m, Err(SurfaceError::OutOfMemory));
            &&& m1.phase == Phase::Exiting
            &&& cmds == seq![Command::Exit, Command::RequestRedraw]
            &&& run_events(m1, later) == (m1, Seq::<Command>::empty())
        }),
{
    let (m1, cmds) = step_frame(m, Err(SurfaceError::OutOfMemory));
    lemma_exiting_drops_events(m1, later);
}

/// A frame either draws the one triangle and presents it, or, when no
/// texture was acquired, submits no draw at all.
pub proof fn lemma_frame_all_or_nothing(m: AppModel, acquired: Result<(), SurfaceError>)
    requires
        m.wf(),
    ensures
        ({
            let cmds = step_frame(m, acquired).1;
            &&& (acquired is Ok && m.phase == Phase::Ready && m.surface.unwrap().configured())
                ==> cmds == seq![Command::Draw(triangle()), Command::RequestRedraw]
            &&& acquired is Err ==> forall|i: int| 0 <= i < cmds.len() ==> !(cmds[i] is Draw)
        }),
{
    let cmds = step_frame(m, acquired).1;
    if acquired is Err && m.phase == Phase::Ready && m.surface.unwrap().configured() {
        let s = m.surface.unwrap();
        if acquired == Err::<(), SurfaceError>(SurfaceError::Lost) {
            lemma_lost_reconfigures_once(m);
        }
    }
}

/// The application controller: turns window events into commands for the
/// window, the surface and the event loop.
pub struct App {
    title: String,
    width: u32,
    height: u32,
    phase: Phase,
    state: Option<State>,
}

impl View for App {
    type V = AppModel;

    closed spec fn view(&self) -> AppModel {
        AppModel {
            title: self.title@,
            width: self.width,
            height: self.height,
            phase: self.phase,
            surface: match self.state {
                Some(s) => Some(s@),
                None => None,
            },
        }
    }
}

impl App {
    pub open spec fn wf(&self) -> bool {
        self@.wf()
    }

    /// An application whose window gets this title and this logical size.
    pub fn new(title: String, width: u32, height: u32) -> (r: App)
        ensures
            r.wf(),
            r@.title == title@,
            r@.width == width,
            r@.height == height,
            r@.phase == Phase::Uninitialized,
            r@.surface is None,
    {
        App { title, width, height, phase: Phase::Uninitialized, state: None }
    }

    pub fn title(&self) -> (r: &String)
        ensures
            r@ == self@.title,
    {
        &self.title
    }

    pub fn width(&self) -> (r: u32)
        ensures
            r == self@.width,
    {
        self.width
    }

    pub fn height(&self) -> (r: u32)
        ensures
            r == self@.height,
    {
        self.height
    }

    pub fn phase(&self) -> (r: Phase)
        ensures
            r == self@.phase,
    {
        self.phase
    }

    /// The graphics context's sizing state, once it exists.
    pub fn state(&self) -> (r: Option<&State>)
        ensures
            match r {
                Some(s) => self@.surface == Some(s@),
                None => self@.surface is None,
            },
    {
        match &self.state {
            Some(s) => Some(s),
            None => None,
        }
    }

    /// The window system is ready and the graphics context for a window of
    /// physical size `size` exists: becomes ready, and configures the surface
    /// when the size allows it. Later activations change nothing.
    pub fn resumed(&mut self, size: PhysicalSize, policy: ScalePolicy) -> (r: Vec<Command>)
        requires
            old(self).wf(),
            policy.valid(),
        ensures
            final(self).wf(),
            (final(self)@, r@) == step_resumed(old(self)@, size, policy),
    {
        let mut cmds: Vec<Command> = Vec::new();
        if self.phase != Phase::Uninitialized {
            return cmds;
        }
        let state = State::new(size, policy);
        if state.is_configured() {
            cmds.push(Command::Configure(state.config_size()));
        }
        self.state = Some(state);
        self.phase = Phase::Ready;
        proof {
            assert(cmds@ =~= step_resumed(old(self)@, size, policy).1);
        }
        cmds
    }

    /// Handles one window event.
    pub fn window_event(&mut self, event: WindowEvent) -> (r: Vec<Command>)
        requires
            old(self).wf(),
        ensures
            final(self).wf(),
            (final(self)@, r@) == step_event(old(self)@, event),
    {
        let mut cmds: Vec<Command> = Vec::new();
        if self.phase != Phase::Ready {
            return cmds;
        }
        let mut state = match self.state.take() {
            Some(s) => s,
            None => {
                return cmds;
            },
        };
        let ghost s0 = state@;
        let quit = match event {
            WindowEvent::CloseRequested => true,
            WindowEvent::Input(InputEvent::Keyboard { key: KeyCode::Escape, pressed: true }) => true,
            _ => false,
        };
        if quit {
            self.phase = Phase::Exiting;
            cmds.push(Command::Exit);
        } else {
            match event {
                WindowEvent::Resized(size) => {
                    if state.resize(size) {
                        cmds.push(Command::Configure(state.config_size()));
                    }
                },
                WindowEvent::ScaleFactorChanged { numerator, denominator } => {
                    if denominator != 0 && state.resize(
                        to_physical(self.width, self.height, numerator, denominator),
                    ) {
                        cmds.push(Command::Configure(state.config_size()));
                    }
                },
                WindowEvent::RedrawRequested => {
                    if state.is_configured() {
                        state.update();
                        cmds.push(Command::AcquireFrame);
                    } else {
                        cmds.push(Command::RequestRedraw);
                    }
                },
                WindowEvent::Input(input) => {
                    let _consumed = state.input(&input);
                },
                _ => {},
            }
        }
        self.state = Some(state);
        proof {
            assert(cmds@ =~= step_event(old(self)@, event).1);
            assert(self@ == step_event(old(self)@, event).0);
        }
        cmds
    }

    /// Handles the outcome of acquiring the next surface texture for the
    /// frame that `Command::AcquireFrame` started.
    pub fn frame_acquired(&mut self, acquired: Result<(), SurfaceError>) -> (r: Vec<Command>)
        requires
            old(self).wf(),
        ensures
            final(self).wf(),
            (final(self)@, r@) == step_frame(old(self)@, acquired),
    {
        let mut cmds: Vec<Command> = Vec::new();
        if self.phase != Phase::Ready {
            return cmds;
        }
        let mut state = match self.state.take() {
            Some(s) => s,
            None => {
                return cmds;
            },
        };
        if !state.is_configured() {
            self.state = Some(state);
            return cmds;
        }
        let size = state.size();
        match state.render(acquired) {
            Ok(draw) => {
                cmds.push(Command::Draw(draw));
            },
            Err(SurfaceError::Lost) => {
                if state.resize(size) {
                    cmds.push(Command::Configure(state.config_size()));
                }
            },
            Err(SurfaceError::OutOfMemory) => {
                self.phase = Phase::Exiting;
                cmds.push(Command::Exit);
            },
            Err(_) => {},
        }
        cmds.push(Command::RequestRedraw);
        self.state = Some(state);
        proof {
            assert(cmds@ =~= step_frame(old(self)@, acquired).1);
            assert(self@ == step_frame(old(self)@, acquired).0);
        }
        cmds
    }
}

} // verus!
