//! The frame loop: event handling, per-frame render commands, and the
//! Running/Closing state machine.
//!
//! Each iteration the shell drains the window's event queue, converts every
//! event to a plain value and hands the batch here. The loop state decides
//! what each event means — a framebuffer resize moves the viewport, the
//! designated cancel key closes the loop, everything else is ignored — and
//! emits the exact command sequence of one frame: clear, optional uniform
//! update, bind, draw, present. The shell executes commands; it decides
//! nothing.

use vstd::prelude::*;

use crate::color::ColorRgba;
use crate::mesh::Mesh;
use crate::shader::ProgramHandle;

verus! {

/// One window event, as the loop sees it: a framebuffer resize with its new
/// pixel dimensions, a press of the designated cancel key, or anything else.
#[derive(Clone, Copy, Debug, PartialEq, Eq, Structural)]
pub enum Event {
    FramebufferResize { width: i32, height: i32 },
    CancelKeyPress,
    Other,
}

/// The rectangle of pixels the driver rasterizes into.
#[derive(Clone, Copy, Debug, PartialEq, Eq, Structural)]
pub struct Viewport {
    pub x: i32,
    pub y: i32,
    pub width: i32,
    pub height: i32,
}

/// Whether the loop keeps drawing or exits. Closing is terminal: no event
/// brings the loop back to Running.
#[derive(Clone, Copy, Debug, PartialEq, Eq, Structural)]
pub enum Mode {
    Running,
    Closing,
}

/// The loop's whole mutable state: its mode and the active viewport.
#[derive(Clone, Copy, Debug, PartialEq, Eq, Structural)]
pub struct FrameState {
    pub mode: Mode,
    pub viewport: Viewport,
}

/// A side effect the shell must perform while events are drained.
#[derive(Clone, Copy, Debug, PartialEq, Eq, Structural)]
pub enum FrameAction {
    SetViewport(Viewport),
}

/// What one event does to the loop state: a resize moves the viewport to
/// exactly (0, 0, width, height), the cancel key switches the mode to
/// Closing, and any other event changes nothing.
pub open spec fn apply_event(state: FrameState, event: Event) -> FrameState {
    match event {
        Event::FramebufferResize { width, height } => FrameState {
            viewport: Viewport { x: 0, y: 0, width, height },
            ..state
        },
        Event::CancelKeyPress => FrameState { mode: Mode::Closing, ..state },
        Event::Other => state,
    }
}

/// The state after a whole event batch, applied in arrival order.
pub open spec fn drain_spec(state: FrameState, events: Seq<Event>) -> FrameState
    decreases events.len(),
{
    if events.len() == 0 {
        state
    } else {
        apply_event(drain_spec(state, events.drop_last()), events.last())
    }
}

/// The side effects a drained batch asks of the shell: one viewport move per
/// resize event, in arrival order, and nothing for any other event.
pub open spec fn drain_actions(events: Seq<Event>) -> Seq<FrameAction>
    decreases events.len(),
{
    if events.len() == 0 {
        seq![]
    } else {
        drain_actions(events.drop_last()) + (match events.last() {
            Event::FramebufferResize { width, height } => seq![
                FrameAction::SetViewport(Viewport { x: 0, y: 0, width, height }),
            ],
            _ => seq![],
        })
    }
}

impl FrameState {
    /// A fresh loop over a framebuffer of the given pixel dimensions.
    pub fn new(width: i32, height: i32) -> (s: Self)
        ensures
            s == (FrameState {
                mode: Mode::Running,
                viewport: Viewport { x: 0, y: 0, width, height },
            }),
    {
        FrameState { mode: Mode::Running, viewport: Viewport { x: 0, y: 0, width, height } }
    }

    /// Whether the loop is still in its Running mode.
    pub fn is_running(&self) -> (r: bool)
        ensures
            r <==> self.mode is Running,
    {
        match self.mode {
            Mode::Running => true,
            Mode::Closing => false,
        }
    }

    /// The context provider reported a close request: stop the loop.
    pub fn request_close(&mut self)
        ensures
            *final(self) == (FrameState { mode: Mode::Closing, ..*old(self) }),
    {
        self.mode = Mode::Closing;
    }

    /// Dispatch one event. A framebuffer resize with dimensions (W, H) moves
    /// the active viewport to exactly (0, 0, W, H) and asks the shell to apply
    /// it; the cancel key press switches the mode to Closing; any other event
    /// is ignored and asks for nothing.
    pub fn handle_event(&mut self, event: &Event) -> (action: Option<FrameAction>)
        ensures
            *final(self) == apply_event(*old(self), *event),
            *event matches Event::FramebufferResize { width, height } ==> action == Some(
                FrameAction::SetViewport(Viewport { x: 0, y: 0, width, height }),
            ),
            !(*event is FramebufferResize) ==> action is None,
    {
        match event {
            Event::FramebufferResize { width, height } => {
                let viewport = Viewport { x: 0, y: 0, width: *width, height: *height };
                self.viewport = viewport;
                Some(FrameAction::SetViewport(viewport))
            },
            Event::CancelKeyPress => {
                self.mode = Mode::Closing;
                None
            },
            Event::Other => None,
        }
    }

    /// Drain one frame's event batch in arrival order, returning the side
    /// effects the shell must perform, in the order they arose.
    pub fn drain_events(&mut self, events: &Vec<Event>) -> (actions: Vec<FrameAction>)
        ensures
            *final(self) == drain_spec(*old(self), events@),
            actions@ == drain_actions(events@),
    {
        let mut actions: Vec<FrameAction> = Vec::new();
        let mut i: usize = 0;
        while i < events.len()
            invariant
                i <= events@.len(),
                *self == drain_spec(*old(self), events@.take(i as int)),
                actions@ == drain_actions(events@.take(i as int)),
            decreases events@.len() - i,
        {
            if let Some(action) = self.handle_event(&events[i]) {
                actions.push(action);
            }
            i = i + 1;
            proof {
                assert(events@.take(i as int).drop_last() =~= events@.take(i - 1));
                assert(events@.take(i as int).last() == events@[i - 1]);
                assert(actions@ =~= drain_actions(events@.take(i as int)));
            }
        }
        proof {
            assert(events@.take(events@.len() as int) =~= events@);
        }
        actions
    }
}

/// A named, program-global shader input to set before drawing: the uniform's
/// resolved location and the color value to load into it.
#[derive(Clone, Copy, Debug, PartialEq, Eq, Structural)]
pub struct UniformUpdate {
    pub location: i32,
    pub value: ColorRgba,
}

/// The location the driver resolves an unknown uniform name to.
pub const UNIFORM_NOT_FOUND: i32 = -1;

/// Everything one frame draws: the linked program, the mesh, the background
/// color, and optionally one uniform update computed for this frame.
#[derive(Clone, Copy, Debug, PartialEq, Eq, Structural)]
pub struct Scene {
    pub program: ProgramHandle,
    pub mesh: Mesh,
    pub clear_color: ColorRgba,
    pub uniform: Option<UniformUpdate>,
}

/// One driver command of a frame, as data.
#[derive(Clone, Copy, Debug, PartialEq, Eq, Structural)]
pub enum RenderCommand {
    SetClearColor(ColorRgba),
    ClearColorBuffer,
    UseProgram(u32),
    SetUniformColor(UniformUpdate),
    BindVertexArray(u32),
    /// Draw this many consecutive vertices, from this first one, as a
    /// triangle list.
    DrawTriangles { first: usize, count: usize },
    Present,
}

/// The uniform update a frame performs: the scene's, unless the scene has
/// none or the location is the driver's "not found" answer. Loading a value
/// into the not-found location is deliberately skipped rather than attempted.
pub open spec fn uniform_command(scene: Scene) -> Seq<RenderCommand> {
    match scene.uniform {
        Some(u) => if u.location == UNIFORM_NOT_FOUND {
            seq![]
        } else {
            seq![RenderCommand::SetUniformColor(u)]
        },
        None => seq![],
    }
}

/// The exact command sequence of one drawn frame: set and clear the
/// background, bind the program, load the frame's uniform if it has one,
/// bind the vertex array, draw the mesh's vertices as triangles, present.
pub open spec fn render_spec(scene: Scene) -> Seq<RenderCommand> {
    seq![
        RenderCommand::SetClearColor(scene.clear_color),
        RenderCommand::ClearColorBuffer,
        RenderCommand::UseProgram(scene.program.raw),
    ] + uniform_command(scene) + seq![
        RenderCommand::BindVertexArray(scene.mesh.vertex_array.raw),
        RenderCommand::DrawTriangles { first: 0, count: scene.mesh.vertex_count },
        RenderCommand::Present,
    ]
}

/// The commands of one frame: exactly `render_spec` while the loop is
/// Running, and nothing at all once it is Closing — after the close
/// transition no draw call is issued.
pub fn frame_commands(state: &FrameState, scene: &Scene) -> (commands: Vec<RenderCommand>)
    ensures
        state.mode is Running ==> commands@ == render_spec(*scene),
        state.mode is Closing ==> commands@ == Seq::<RenderCommand>::empty(),
{
    let mut commands: Vec<RenderCommand> = Vec::new();
    match state.mode {
        Mode::Closing => commands,
        Mode::Running => {
            commands.push(RenderCommand::SetClearColor(scene.clear_color));
            commands.push(RenderCommand::ClearColorBuffer);
            commands.push(RenderCommand::UseProgram(scene.program.raw));
            if let Some(u) = scene.uniform {
                if u.location != UNIFORM_NOT_FOUND {
                    commands.push(RenderCommand::SetUniformColor(u));
                }
            }
            commands.push(RenderCommand::BindVertexArray(scene.mesh.vertex_array.raw));
            commands.push(RenderCommand::DrawTriangles {
                first: 0,
                count: scene.mesh.vertex_count,
            });
            commands.push(RenderCommand::Present);
            assert(commands@ =~= render_spec(*scene));
            commands
        },
    }
}

/// One whole loop iteration as a mathematical step: drain the events, then
/// emit a frame's commands if still Running, none if Closing.
pub open spec fn frame_step(state: FrameState, events: Seq<Event>, scene: Scene) -> (
    FrameState,
    Seq<RenderCommand>,
) {
    let drained = drain_spec(state, events);
    (
        drained,
        if drained.mode is Running {
            render_spec(scene)
        } else {
            Seq::<RenderCommand>::empty()
        },
    )
}

/// Run one loop iteration: drain this frame's event batch, then compute the
/// frame's commands from the resulting state. Together the new state, the
/// drain's side effects and the commands are exactly `frame_step`.
pub fn run_frame(state: &mut FrameState, events: &Vec<Event>, scene: &Scene) -> (r: (
    Vec<FrameAction>,
    Vec<RenderCommand>,
))
    ensures
        *final(state) == frame_step(*old(state), events@, *scene).0,
        r.0@ == drain_actions(events@),
        r.1@ == frame_step(*old(state), events@, *scene).1,
{
    let actions = state.drain_events(events);
    let commands = frame_commands(state, scene);
    (actions, commands)
}

/// A cancel key press anywhere in the drained batch stops the drawing: the
/// iteration that saw it, and every later one, issues no command — in
/// particular no draw call.
pub proof fn lemma_cancel_stops_drawing(state: FrameState, events: Seq<Event>, scene: Scene)
    requires
        events.contains(Event::CancelKeyPress),
    ensures
        frame_step(state, events, scene).1 == Seq::<RenderCommand>::empty(),
        frame_step(state, events, scene).0.mode is Closing,
{
    lemma_cancel_closes(state, events);
}

/// Drained of no events, the loop state stands still.
pub proof fn lemma_drain_empty(state: FrameState)
    ensures
        drain_spec(state, Seq::<Event>::empty()) == state,
{
}

/// Idempotence of an idle frame: with no events arriving and an unchanged
/// scene, two successive loop iterations emit identical command sequences —
/// so absent a time-varying uniform, they draw identical frames.
pub proof fn lemma_idle_frames_identical(state: FrameState, scene: Scene)
    ensures
        frame_step(frame_step(state, Seq::<Event>::empty(), scene).0, Seq::<Event>::empty(), scene).1
            == frame_step(state, Seq::<Event>::empty(), scene).1,
{
    lemma_drain_empty(state);
}

/// No event but a resize moves the viewport.
pub proof fn lemma_apply_preserves_viewport(state: FrameState, event: Event)
    requires
        !(event is FramebufferResize),
    ensures
        apply_event(state, event).viewport == state.viewport,
{
}

/// A framebuffer resize to (W, H) with no later resize in the batch leaves
/// the active viewport at exactly (0, 0, W, H) — so the viewport holds that
/// value before the next draw call.
pub proof fn lemma_resize_sets_viewport(
    state: FrameState,
    events: Seq<Event>,
    i: int,
    width: i32,
    height: i32,
)
    requires
        0 <= i < events.len(),
        events[i] == (Event::FramebufferResize { width, height }),
        forall|j: int| i < j < events.len() ==> !((#[trigger] events[j]) is FramebufferResize),
    ensures
        drain_spec(state, events).viewport == (Viewport { x: 0, y: 0, width, height }),
    decreases events.len(),
{
    if i == events.len() - 1 {
        assert(events.last() == (Event::FramebufferResize { width, height }));
    } else {
        assert(events.drop_last()[i] == events[i]);
        lemma_resize_sets_viewport(state, events.drop_last(), i, width, height);
        lemma_apply_preserves_viewport(drain_spec(state, events.drop_last()), events.last());
    }
}

/// Closing is terminal: no single event leaves it.
pub proof fn lemma_apply_preserves_closing(state: FrameState, event: Event)
    requires
        state.mode is Closing,
    ensures
        apply_event(state, event).mode is Closing,
{
}

/// Closing is terminal: no event batch leaves it.
pub proof fn lemma_drain_preserves_closing(state: FrameState, events: Seq<Event>)
    requires
        state.mode is Closing,
    ensures
        drain_spec(state, events).mode is Closing,
    decreases events.len(),
{
    if events.len() > 0 {
        lemma_drain_preserves_closing(state, events.drop_last());
    }
}

/// A cancel key press anywhere in a drained batch leaves the loop Closing:
/// the Running-to-Closing transition happens on the drain that sees the
/// press, whatever follows it in the queue.
pub proof fn lemma_cancel_closes(state: FrameState, events: Seq<Event>)
    requires
        events.contains(Event::CancelKeyPress),
    ensures
        drain_spec(state, events).mode is Closing,
    decreases events.len(),
{
    let i = choose|i: int| 0 <= i < events.len() && events[i] == Event::CancelKeyPress;
    if i == events.len() - 1 {
        assert(events.last() == Event::CancelKeyPress);
    } else {
        assert(events.drop_last()[i] == Event::CancelKeyPress);
        assert(events.drop_last().contains(Event::CancelKeyPress));
        lemma_cancel_closes(state, events.drop_last());
        lemma_apply_preserves_closing(drain_spec(state, events.drop_last()), events.last());
    }
}

} // verus!
