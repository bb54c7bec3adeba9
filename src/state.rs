use vstd::prelude::*;
use crate::geometry::Mesh;
use crate::pipeline::IndexFormat;
use crate::surface::{initial_config, InitError, SurfaceConfig};

verus! {

/// A size in physical pixels.
#[derive(Clone, Copy, Debug, PartialEq, Eq, Structural)]
pub struct PhysicalSize {
    pub width: u32,
    pub height: u32,
}

/// The colour each frame is cleared to.
#[derive(Clone, Copy, Debug, PartialEq, Eq, Structural)]
pub enum ClearColor {
    /// The colour at start-up.
    Base,
    /// The colour after a left-button press.
    Alternate,
}

/// Whether a button or key went down or up.
#[derive(Clone, Copy, Debug, PartialEq, Eq, Structural)]
pub enum ElementState {
    Pressed,
    Released,
}

/// A pointer button.
#[derive(Clone, Copy, Debug, PartialEq, Eq, Structural)]
pub enum MouseButton {
    Left,
    Right,
    Middle,
    Back,
    Forward,
    Other(u16),
}

/// A logical key, as far as the renderer tells keys apart.
#[derive(Clone, Copy, Debug, PartialEq, Eq, Structural)]
pub enum Key {
    Escape,
    Other,
}

/// An event of the renderer's window.
#[derive(Clone, Copy, Debug, PartialEq, Eq, Structural)]
pub enum WindowEvent {
    Resized(PhysicalSize),
    CloseRequested,
    KeyboardInput { key: Key, state: ElementState },
    MouseInput { button: MouseButton, state: ElementState },
    RedrawRequested,
    Other,
}

/// An event delivered by the event loop.
#[derive(Clone, Copy, Debug, PartialEq, Eq, Structural)]
pub enum Event {
    /// An event of the renderer's own window.
    Window(WindowEvent),
    /// The loop is about to wait for new events.
    AboutToWait,
    /// Anything else, such as an event of another window.
    Other,
}

/// Why the next presentable image could not be acquired.
#[derive(Clone, Copy, Debug, PartialEq, Eq, Structural)]
pub enum SurfaceError {
    Timeout,
    Outdated,
    Lost,
    OutOfMemory,
}

/// What the event loop is to do next.
#[derive(Clone, Copy, Debug, PartialEq, Eq, Structural)]
pub enum LoopAction {
    Nothing,
    /// End the loop and the process.
    Exit,
    /// Ask the window for a redraw.
    RequestRedraw,
    /// Apply the state's surface configuration to the surface.
    Reconfigure,
    /// Acquire the next image and hand the outcome to `State::render`.
    Redraw,
    /// Report the error; the frame is dropped.
    Report(SurfaceError),
}

/// One indexed draw: an index range, a base vertex and an instance range.
#[derive(Clone, Copy, Debug, PartialEq, Eq, Structural)]
pub struct DrawIndexed {
    pub index_start: u32,
    pub index_end: u32,
    pub base_vertex: i32,
    pub instance_start: u32,
    pub instance_end: u32,
}

/// The one render pass of a frame, submitted once and then presented: clear
/// the acquired image, keep the result, bind the pipeline, the vertex buffer
/// at `vertex_slot` and the index buffer, and draw.
#[derive(Clone, Copy, Debug, PartialEq, Eq, Structural)]
pub struct FramePlan {
    pub clear: ClearColor,
    pub store: bool,
    pub vertex_slot: u32,
    pub index_format: IndexFormat,
    pub draw: DrawIndexed,
}

/// The renderer's state: the window size, the surface configuration, the
/// clear colour, the number of indices drawn, and whether exit was asked for.
#[derive(Clone, Copy, Debug)]
pub struct State {
    pub size: PhysicalSize,
    pub config: SurfaceConfig,
    pub clear_color: ClearColor,
    pub num_indices: u32,
    pub exit_requested: bool,
}

/// A left-button press.
pub open spec fn is_left_press(e: WindowEvent) -> bool {
    e == WindowEvent::MouseInput { button: MouseButton::Left, state: ElementState::Pressed }
}

/// A size with no zero side.
pub open spec fn has_area(s: PhysicalSize) -> bool {
    s.width > 0 && s.height > 0
}

/// A request to close the window: its close button or a press of Escape.
pub open spec fn is_close_request(e: WindowEvent) -> bool {
    e == WindowEvent::CloseRequested || e == WindowEvent::KeyboardInput {
        key: Key::Escape,
        state: ElementState::Pressed,
    }
}

impl State {
    /// The surface configuration has the window's size.
    pub open spec fn wf(&self) -> bool {
        self.config.width == self.size.width && self.config.height == self.size.height
    }

    /// The state after the input handler saw `e`.
    pub open spec fn after_input(self, e: WindowEvent) -> State {
        if is_left_press(e) {
            State { clear_color: ClearColor::Alternate, ..self }
        } else {
            self
        }
    }

    /// The state after a resize request to `s`: applied only to a size with area.
    pub open spec fn after_resize(self, s: PhysicalSize) -> State {
        if has_area(s) {
            State {
                size: s,
                config: SurfaceConfig { width: s.width, height: s.height, ..self.config },
                ..self
            }
        } else {
            self
        }
    }

    /// The one render pass of a frame: clear to the current colour, then draw
    /// all indices once from 16-bit index and slot-0 vertex buffers.
    pub open spec fn frame_plan(self) -> FramePlan {
        FramePlan {
            clear: self.clear_color,
            store: true,
            vertex_slot: 0,
            index_format: IndexFormat::Uint16,
            draw: DrawIndexed {
                index_start: 0,
                index_end: self.num_indices,
                base_vertex: 0,
                instance_start: 0,
                instance_end: 1,
            },
        }
    }

    /// The outcome of a frame whose image acquisition gave `acquired`.
    pub open spec fn render_spec(self, acquired: Result<(), SurfaceError>) -> Result<
        FramePlan,
        SurfaceError,
    > {
        match acquired {
            Ok(_) => Ok(self.frame_plan()),
            Err(e) => Err(e),
        }
    }

    /// The state and action after a failed acquisition: a lost surface is
    /// reconfigured at the current size, running out of memory ends the
    /// loop, and anything else is reported.
    pub open spec fn after_surface_error(self, e: SurfaceError) -> (State, LoopAction) {
        match e {
            SurfaceError::Lost => (
                self.after_resize(self.size),
                if has_area(self.size) {
                    LoopAction::Reconfigure
                } else {
                    LoopAction::Nothing
                },
            ),
            SurfaceError::OutOfMemory => (State { exit_requested: true, ..self }, LoopAction::Exit),
            _ => (self, LoopAction::Report(e)),
        }
    }

    /// The state and action after the event loop delivered `ev`. Once exit
    /// was asked for, nothing more happens. A window event goes first to the
    /// input handler, which never consumes it, and then to its own branch.
    pub open spec fn step(self, ev: Event) -> (State, LoopAction) {
        if self.exit_requested {
            (self, LoopAction::Nothing)
        } else {
            match ev {
                Event::Window(we) => {
                    let s = self.after_input(we);
                    match we {
                        WindowEvent::Resized(size) => (
                            s.after_resize(size),
                            if has_area(size) {
                                LoopAction::Reconfigure
                            } else {
                                LoopAction::Nothing
                            },
                        ),
                        WindowEvent::MouseInput { .. } => (s.after_input(we), LoopAction::RequestRedraw),
                        WindowEvent::RedrawRequested => (s, LoopAction::Redraw),
                        _ => if is_close_request(we) {
                            (State { exit_requested: true, ..s }, LoopAction::Exit)
                        } else {
                            (s, LoopAction::Nothing)
                        },
                    }
                },
                Event::AboutToWait => (self, LoopAction::RequestRedraw),
                Event::Other => (self, LoopAction::Nothing),
            }
        }
    }

    /// The state for a window of `size` drawing `mesh`: the surface
    /// configured for that size, the base clear colour, every index drawn.
    pub fn new(
        size: PhysicalSize,
        formats: &Vec<wgpu::TextureFormat>,
        alpha_modes: &Vec<wgpu::CompositeAlphaMode>,
        mesh: &Mesh,
    ) -> (r: Result<State, InitError>)
        requires
            mesh.wf(),
        ensures
            r is Ok <==> formats@.len() > 0 && alpha_modes@.len() > 0,
            r matches Err(e) ==> initial_config(formats@, alpha_modes@, size.width, size.height)
                == Err::<SurfaceConfig, InitError>(e),
            r matches Ok(s) ==> {
                &&& s.wf()
                &&& s.size == size
                &&& initial_config(formats@, alpha_modes@, size.width, size.height) == Ok::<
                    SurfaceConfig,
                    InitError,
                >(s.config)
                &&& s.clear_color == ClearColor::Base
                &&& s.num_indices == mesh.indices@.len()
                &&& !s.exit_requested
            },
    {
        let config = SurfaceConfig::new(formats, alpha_modes, size.width, size.height)?;
        Ok(
            State {
                size,
                config,
                clear_color: ClearColor::Base,
                num_indices: mesh.indices.len() as u32,
                exit_requested: false,
            },
        )
    }

    /// The frame to record once the next image was acquired: its one render
    /// pass, or the acquisition error, with nothing recorded or submitted.
    pub fn render(&self, acquired: Result<(), SurfaceError>) -> (r: Result<FramePlan, SurfaceError>)
        ensures
            r == self.render_spec(acquired),
    {
        match acquired {
            Ok(()) => Ok(
                FramePlan {
                    clear: self.clear_color,
                    store: true,
                    vertex_slot: 0,
                    index_format: IndexFormat::Uint16,
                    draw: DrawIndexed {
                        index_start: 0,
                        index_end: self.num_indices,
                        base_vertex: 0,
                        instance_start: 0,
                        instance_end: 1,
                    },
                },
            ),
            Err(e) => Err(e),
        }
    }

    /// Applies a new window size to the state and the surface configuration,
    /// unless a side is zero, in which case nothing changes. Returns whether
    /// the surface is to be reconfigured.
    pub fn resize(&mut self, new_size: PhysicalSize) -> (r: bool)
        ensures
            r == has_area(new_size),
            *final(self) == old(self).after_resize(new_size),
            old(self).wf() ==> final(self).wf(),
    {
        if new_size.width > 0 && new_size.height > 0 {
            self.size = new_size;
            self.config.width = new_size.width;
            self.config.height = new_size.height;
            true
        } else {
            false
        }
    }

    /// Reacts to input: a left-button press switches the clear colour to the
    /// alternate one. The event is never consumed: the result is always `false`.
    pub fn input(&mut self, event: &WindowEvent) -> (r: bool)
        ensures
            !r,
            *final(self) == old(self).after_input(*event),
            old(self).wf() ==> final(self).wf(),
    {
        match event {
            WindowEvent::MouseInput { button: MouseButton::Left, state: ElementState::Pressed } => {
                self.clear_color = ClearColor::Alternate;
            },
            _ => {},
        }
        false
    }

    /// The per-frame logic hook; it changes nothing.
    pub fn update(&mut self)
        ensures
            *final(self) == *old(self),
    {
    }

    /// Decides what follows a failed image acquisition.
    pub fn on_surface_error(&mut self, e: SurfaceError) -> (r: LoopAction)
        ensures
            (*final(self), r) == old(self).after_surface_error(e),
            old(self).wf() ==> final(self).wf(),
    {
        match e {
            SurfaceError::Lost => {
                let size = self.size;
                if self.resize(size) {
                    LoopAction::Reconfigure
                } else {
                    LoopAction::Nothing
                }
            },
            SurfaceError::OutOfMemory => {
                self.exit_requested = true;
                LoopAction::Exit
            },
            _ => LoopAction::Report(e),
        }
    }

    /// Decides what follows an event of the event loop.
    pub fn handle_event(&mut self, ev: &Event) -> (r: LoopAction)
        ensures
            (*final(self), r) == old(self).step(*ev),
            old(self).wf() ==> final(self).wf(),
    {
        if self.exit_requested {
            return LoopAction::Nothing;
        }
        match ev {
            Event::Window(we) => {
                let consumed = self.input(we);
                if consumed {
                    return LoopAction::Nothing;
                }
                match we {
                    WindowEvent::Resized(size) => {
                        if self.resize(*size) {
                            LoopAction::Reconfigure
                        } else {
                            LoopAction::Nothing
                        }
                    },
                    WindowEvent::CloseRequested | WindowEvent::KeyboardInput {
                        key: Key::Escape,
                        state: ElementState::Pressed,
                    } => {
                        self.exit_requested = true;
                        LoopAction::Exit
                    },
                    WindowEvent::MouseInput { .. } => {
                        self.input(we);
                        LoopAction::RequestRedraw
                    },
                    WindowEvent::RedrawRequested => LoopAction::Redraw,
                    _ => LoopAction::Nothing,
                }
            },
            Event::AboutToWait => LoopAction::RequestRedraw,
            Event::Other => LoopAction::Nothing,
        }
    }
}

/// The state and the actions after the event loop delivered `evs` in order.
pub open spec fn run_events(s: State, evs: Seq<Event>) -> (State, Seq<LoopAction>)
    decreases evs.len(),
{
    if evs.len() == 0 {
        (s, Seq::empty())
    } else {
        let (s1, a) = s.step(evs[0]);
        let (s2, rest) = run_events(s1, evs.drop_first());
        (s2, seq![a] + rest)
    }
}

/// A resize to a size with a zero side leaves the state, and so the surface
/// configuration, as it was; a resize to a size with area sets the
/// configuration's width and height to exactly that size. Either way, doing it
/// twice is doing it once.
pub proof fn lemma_resize(s: State, size: PhysicalSize)
    ensures
        !has_area(size) ==> s.after_resize(size) == s,
        has_area(size) ==> {
            &&& s.after_resize(size).config.width == size.width
            &&& s.after_resize(size).config.height == size.height
            &&& s.after_resize(size).size == size
            &&& s.after_resize(size).wf()
        },
        s.after_resize(size).after_resize(size) == s.after_resize(size),
{
}

/// Once a left-button press reached the input handler, every later frame
/// clears to the alternate colour, whatever events follow; the handler
/// reports the event as not consumed (see `State::input`).
pub proof fn lemma_alternate_color_persists(s: State, evs: Seq<Event>)
    ensures
        ({
            let pressed = WindowEvent::MouseInput {
                button: MouseButton::Left,
                state: ElementState::Pressed,
            };
            let t = s.after_input(pressed);
            &&& t.clear_color == ClearColor::Alternate
            &&& run_events(t, evs).0.clear_color == ClearColor::Alternate
            &&& run_events(t, evs).0.render_spec(Ok(())) matches Ok(plan)
                && plan.clear == ClearColor::Alternate
            &&& !s.exit_requested ==> s.step(Event::Window(pressed)).0.clear_color
                == ClearColor::Alternate
        }),
{
    let pressed = WindowEvent::MouseInput { button: MouseButton::Left, state: ElementState::Pressed };
    lemma_alternate_is_kept(s.after_input(pressed), evs);
}

proof fn lemma_alternate_is_kept(s: State, evs: Seq<Event>)
    requires
        s.clear_color == ClearColor::Alternate,
    ensures
        run_events(s, evs).0.clear_color == ClearColor::Alternate,
    decreases evs.len(),
{
    if evs.len() > 0 {
        lemma_alternate_is_kept(s.step(evs[0]).0, evs.drop_first());
    }
}

/// A frame whose acquisition found the surface lost records and submits
/// nothing, and leads to exactly one reconfiguration, with the configuration
/// at the current window size, which the state keeps.
pub proof fn lemma_lost_surface(s: State)
    requires
        s.wf(),
        has_area(s.size),
    ensures
        s.render_spec(Err(SurfaceError::Lost)) == Err::<FramePlan, SurfaceError>(SurfaceError::Lost),
        s.after_surface_error(SurfaceError::Lost) == (s, LoopAction::Reconfigure),
        s.config.width == s.size.width && s.config.height == s.size.height,
{
}

/// Running out of memory while acquiring an image ends the loop, and no
/// later event leads to anything more: no redraw, no frame, no other action.
pub proof fn lemma_out_of_memory_ends_rendering(s: State, evs: Seq<Event>)
    ensures
        s.after_surface_error(SurfaceError::OutOfMemory).1 == LoopAction::Exit,
        s.after_surface_error(SurfaceError::OutOfMemory).0.exit_requested,
        run_events(s.after_surface_error(SurfaceError::OutOfMemory).0, evs) == (
            s.after_surface_error(SurfaceError::OutOfMemory).0,
            Seq::new(evs.len(), |i: int| LoopAction::Nothing),
        ),
{
    lemma_exited_stays_idle(s.after_surface_error(SurfaceError::OutOfMemory).0, evs);
}

proof fn lemma_exited_stays_idle(s: State, evs: Seq<Event>)
    requires
        s.exit_requested,
    ensures
        run_events(s, evs) == (s, Seq::new(evs.len(), |i: int| LoopAction::Nothing)),
    decreases evs.len(),
{
    if evs.len() > 0 {
        lemma_exited_stays_idle(s, evs.drop_first());
        assert(seq![LoopAction::Nothing] + Seq::new(
            (evs.len() - 1) as nat,
            |i: int| LoopAction::Nothing,
        ) =~= Seq::new(evs.len(), |i: int| LoopAction::Nothing));
    }
}

} // verus!
