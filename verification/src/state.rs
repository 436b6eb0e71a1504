use vstd::prelude::*;
use crate::camera::{event_toggle, CameraController, Direction};
use crate::constants::{HEIGHT, INSTANCE_SLOT, LIGHT_STEP_DECIDEGREES, OBJECT_STEP_DECIDEGREES, WIDTH};
use crate::event::{ElementState, Event, KeyboardInput, PhysicalSize, SurfaceError, VirtualKeyCode, WindowEvent};
use crate::simple_pipeline::PipelineKind;

verus! {

/// The part of the surface configuration that changes while the scene runs.
#[derive(Clone, Copy, Debug, PartialEq, Eq, Structural)]
pub struct SurfaceConfiguration {
    pub width: u32,
    pub height: u32,
}

/// The camera's aspect ratio, `width / height`, kept as the two pixel counts
/// it was taken from.
#[derive(Clone, Copy, Debug, PartialEq, Eq, Structural)]
pub struct Aspect {
    pub width: u32,
    pub height: u32,
}

/// One step of the per-frame update, in the order in which the steps run.
#[derive(Clone, Copy, Debug, PartialEq, Eq, Structural)]
pub enum UpdateStep {
    /// Displace camera position and target by one move.
    MoveCamera(Direction),
    /// Recompute the view-projection matrix and upload it.
    UploadCamera,
    /// Turn the light's position about the vertical axis.
    RotateLight { decidegrees: u32 },
    /// Upload the light uniform.
    UploadLight,
    /// Turn the object's world transform about the vertical axis.
    RotateObject { decidegrees: u32 },
    /// Upload the object's transform record.
    UploadObject,
}

/// One command of a frame's render pass, in recording order.
#[derive(Clone, Copy, Debug, PartialEq, Eq, Structural)]
pub enum RenderCommand {
    /// Begin the pass: clear the color attachment, clear depth to the
    /// farthest value.
    BeginRenderPass,
    SetPipeline(PipelineKind),
    /// Draw the light marker with the camera and light bind groups.
    DrawLightModel,
    /// Bind the object's transform buffer to a vertex-stream slot.
    SetInstanceBuffer { slot: u32 },
    /// Draw the object with its texture and the camera and light bind groups.
    DrawModel,
    /// End the pass and submit what was recorded.
    Submit,
    /// Present the surface image.
    Present,
}

/// What the event loop does next.
#[derive(Clone, Copy, Debug, PartialEq, Eq, Structural)]
pub enum Action {
    /// Nothing.
    Wait,
    /// Run one frame: the update steps, then the render pass, then report how
    /// acquiring the surface image went.
    Frame,
    /// Configure the surface with the current configuration, recreate the
    /// depth attachment at that size, and recompute and upload the camera
    /// uniform with the current aspect.
    Reconfigure,
    /// Ask the window for another redraw.
    RequestRedraw,
    /// Report the error and skip this frame.
    Skip(SurfaceError),
    /// Leave the event loop.
    Exit,
}

/// The frame controller's own state: what it knows of the surface, the
/// camera's aspect, and the keys held down.
#[derive(Clone, Copy, Debug, PartialEq, Eq, Structural)]
pub struct State {
    /// The last size taken from the window.
    pub size: PhysicalSize,
    pub config: SurfaceConfiguration,
    pub aspect: Aspect,
    pub camera_controller: CameraController,
}

/// Whether a size can be drawn into: neither dimension is zero.
pub open spec fn drawable(size: PhysicalSize) -> bool {
    size.width > 0 && size.height > 0
}

/// Whether a window event asks the scene to quit: a close request, or Escape
/// going down.
pub open spec fn asks_exit(event: WindowEvent) -> bool {
    match event {
        WindowEvent::CloseRequested => true,
        WindowEvent::KeyboardInput {
            input: KeyboardInput {
                state: ElementState::Pressed,
                virtual_keycode: Some(VirtualKeyCode::Escape),
            },
        } => true,
        _ => false,
    }
}

/// The size a window event announces, if it announces one.
pub open spec fn announced_size(event: WindowEvent) -> Option<PhysicalSize> {
    match event {
        WindowEvent::Resized(size) => Some(size),
        WindowEvent::ScaleFactorChanged { new_inner_size } => Some(new_inner_size),
        _ => None,
    }
}

/// The update steps that follow the camera moves.
pub open spec fn animation_steps() -> Seq<UpdateStep> {
    seq![
        UpdateStep::UploadCamera,
        UpdateStep::RotateLight { decidegrees: LIGHT_STEP_DECIDEGREES },
        UpdateStep::UploadLight,
        UpdateStep::RotateObject { decidegrees: OBJECT_STEP_DECIDEGREES },
        UpdateStep::UploadObject,
    ]
}

/// The steps of one update with the given keys held: the camera moves, then
/// the animation steps.
pub open spec fn update_steps(c: CameraController) -> Seq<UpdateStep> {
    c.moves().map_values(|d: Direction| UpdateStep::MoveCamera(d)) + animation_steps()
}

/// The steps of a run of updates, one per tick, with the keys held at each
/// tick.
pub open spec fn run_steps(ticks: Seq<CameraController>) -> Seq<UpdateStep>
    decreases ticks.len(),
{
    if ticks.len() == 0 {
        Seq::empty()
    } else {
        run_steps(ticks.drop_last()) + update_steps(ticks.last())
    }
}

/// The angle by which a step turns the light, in tenths of a degree.
pub open spec fn light_turn_of(step: UpdateStep) -> int {
    match step {
        UpdateStep::RotateLight { decidegrees } => decidegrees as int,
        _ => 0,
    }
}

/// The angle by which a run of steps turns the light about the vertical
/// axis in all, in tenths of a degree.
pub open spec fn light_turn(steps: Seq<UpdateStep>) -> int
    decreases steps.len(),
{
    if steps.len() == 0 {
        0
    } else {
        light_turn(steps.drop_last()) + light_turn_of(steps.last())
    }
}

/// The commands of one frame once a surface image was acquired: the light
/// marker is drawn first, then the textured object.
pub open spec fn frame_commands() -> Seq<RenderCommand> {
    seq![
        RenderCommand::BeginRenderPass,
        RenderCommand::SetPipeline(PipelineKind::LightMarker),
        RenderCommand::DrawLightModel,
        RenderCommand::SetPipeline(PipelineKind::Object),
        RenderCommand::SetInstanceBuffer { slot: INSTANCE_SLOT },
        RenderCommand::DrawModel,
        RenderCommand::Submit,
        RenderCommand::Present,
    ]
}

impl State {
    /// The aspect always has a ratio: neither count is zero.
    pub open spec fn wf(self) -> bool {
        self.aspect.width > 0 && self.aspect.height > 0
    }

    /// The state after the window took the size `new_size`: a drawable size
    /// replaces size, configuration and aspect; any other changes nothing.
    pub open spec fn resized(self, new_size: PhysicalSize) -> State {
        if drawable(new_size) {
            State {
                size: new_size,
                config: SurfaceConfiguration { width: new_size.width, height: new_size.height },
                aspect: Aspect { width: new_size.width, height: new_size.height },
                camera_controller: self.camera_controller,
            }
        } else {
            self
        }
    }

    /// The state after a window event addressed to the scene's window.
    pub open spec fn after_window_event(self, event: WindowEvent) -> State {
        match event_toggle(event) {
            Some((d, pressed)) => State {
                camera_controller: self.camera_controller.with(d, pressed),
                ..self
            },
            None => match announced_size(event) {
                Some(size) => self.resized(size),
                None => self,
            },
        }
    }

    /// What the event loop does after a window event addressed to the
    /// scene's window. Keys that the camera controller consumes do nothing
    /// else.
    pub open spec fn window_event_action(event: WindowEvent) -> Action {
        if event_toggle(event).is_some() {
            Action::Wait
        } else if asks_exit(event) {
            Action::Exit
        } else {
            match announced_size(event) {
                Some(size) => if drawable(size) {
                    Action::Reconfigure
                } else {
                    Action::Wait
                },
                None => Action::Wait,
            }
        }
    }

    /// The state as the scene starts: the surface is configured at the
    /// window's size, the aspect is that of the start-up window, no key is
    /// held.
    pub fn new(size: PhysicalSize) -> (s: State)
        ensures
            s.wf(),
            s.size == size,
            s.config == (SurfaceConfiguration { width: size.width, height: size.height }),
            s.aspect == (Aspect { width: WIDTH, height: HEIGHT }),
            s.camera_controller == CameraController::released(),
    {
        State {
            size,
            config: SurfaceConfiguration { width: size.width, height: size.height },
            aspect: Aspect { width: WIDTH, height: HEIGHT },
            camera_controller: CameraController::new(),
        }
    }

    /// Takes a new window size. A size with a zero dimension changes
    /// nothing and yields `false`; any other becomes the size, the surface
    /// configuration and the camera's aspect, and yields `true`: the surface
    /// is then to be reconfigured.
    pub fn resize(&mut self, new_size: PhysicalSize) -> (reconfigure: bool)
        requires
            old(self).wf(),
        ensures
            final(self).wf(),
            *final(self) == old(self).resized(new_size),
            reconfigure == drawable(new_size),
            !drawable(new_size) ==> *final(self) == *old(self),
    {
        if new_size.width > 0 && new_size.height > 0 {
            self.size = new_size;
            self.config.width = new_size.width;
            self.config.height = new_size.height;
            self.aspect = Aspect { width: new_size.width, height: new_size.height };
            true
        } else {
            false
        }
    }

    /// Hands a window event to the camera controller; `true` if it was
    /// consumed.
    pub fn input(&mut self, event: &WindowEvent) -> (consumed: bool)
        ensures
            consumed == event_toggle(*event).is_some(),
            final(self).wf() == old(self).wf(),
            match event_toggle(*event) {
                Some((d, pressed)) => *final(self) == (State {
                    camera_controller: old(self).camera_controller.with(d, pressed),
                    ..*old(self)
                }),
                None => *final(self) == *old(self),
            },
    {
        self.camera_controller.process_events(event)
    }

    /// The steps of one update, in order: the camera moves of the held
    /// directions, the camera upload, the light's rotation and upload, the
    /// object's rotation and upload.
    pub fn update(&self) -> (steps: Vec<UpdateStep>)
        ensures
            steps@ == update_steps(self.camera_controller),
    {
        let moves = self.camera_controller.update_camera();
        let mut steps: Vec<UpdateStep> = Vec::new();
        let mut i: usize = 0;
        while i < moves.len()
            invariant
                i <= moves.len(),
                steps@ == moves@.take(i as int).map_values(|d: Direction| UpdateStep::MoveCamera(d)),
            decreases moves.len() - i,
        {
            steps.push(UpdateStep::MoveCamera(moves[i]));
            i += 1;
            assert(steps@ =~= moves@.take(i as int).map_values(|d: Direction| UpdateStep::MoveCamera(d)));
        }
        assert(moves@.take(i as int) =~= moves@);
        steps.push(UpdateStep::UploadCamera);
        steps.push(UpdateStep::RotateLight { decidegrees: LIGHT_STEP_DECIDEGREES });
        steps.push(UpdateStep::UploadLight);
        steps.push(UpdateStep::RotateObject { decidegrees: OBJECT_STEP_DECIDEGREES });
        steps.push(UpdateStep::UploadObject);
        assert(steps@ =~= update_steps(self.camera_controller));
        steps
    }

    /// The commands of one frame, given how acquiring the surface image
    /// went. With an image, the full pass in order; without, the error and
    /// no command at all.
    pub fn render(&self, acquired: Result<(), SurfaceError>) -> (commands: Result<Vec<RenderCommand>, SurfaceError>)
        ensures
            match acquired {
                Ok(_) => commands.is_ok() && commands.unwrap()@ == frame_commands(),
                Err(e) => commands == Err::<Vec<RenderCommand>, SurfaceError>(e),
            },
    {
        match acquired {
            Err(e) => Err(e),
            Ok(_) => {
                let mut commands: Vec<RenderCommand> = Vec::new();
                commands.push(RenderCommand::BeginRenderPass);
                commands.push(RenderCommand::SetPipeline(PipelineKind::LightMarker));
                commands.push(RenderCommand::DrawLightModel);
                commands.push(RenderCommand::SetPipeline(PipelineKind::Object));
                commands.push(RenderCommand::SetInstanceBuffer { slot: INSTANCE_SLOT });
                commands.push(RenderCommand::DrawModel);
                commands.push(RenderCommand::Submit);
                commands.push(RenderCommand::Present);
                assert(commands@ =~= frame_commands());
                Ok(commands)
            },
        }
    }

    /// Reacts to the outcome of a frame. A lost surface is resized to the
    /// last known size; out of memory ends the loop; any other error skips
    /// the frame; success needs nothing.
    pub fn on_render_result(&mut self, result: Result<(), SurfaceError>) -> (action: Action)
        requires
            old(self).wf(),
        ensures
            final(self).wf(),
            *final(self) == (if result == Err::<(), SurfaceError>(SurfaceError::Lost) {
                old(self).resized(old(self).size)
            } else {
                *old(self)
            }),
            action == (match result {
                Ok(_) => Action::Wait,
                Err(SurfaceError::Lost) => if drawable(old(self).size) {
                    Action::Reconfigure
                } else {
                    Action::Wait
                },
                Err(SurfaceError::OutOfMemory) => Action::Exit,
                Err(e) => Action::Skip(e),
            }),
    {
        match result {
            Ok(_) => Action::Wait,
            Err(SurfaceError::Lost) => {
                let size = self.size;
                if self.resize(size) {
                    Action::Reconfigure
                } else {
                    Action::Wait
                }
            },
            Err(SurfaceError::OutOfMemory) => Action::Exit,
            Err(e) => Action::Skip(e),
        }
    }

    /// Reacts to one event of the event loop. A redraw request for the
    /// scene's window starts a frame; a window event for it goes to the
    /// camera controller first and, if not consumed there, may end the loop
    /// or resize; the end of an event batch asks for the next redraw.
    /// Events for other windows do nothing.
    pub fn on_event(&mut self, event: &Event) -> (action: Action)
        requires
            old(self).wf(),
        ensures
            final(self).wf(),
            *final(self) == (match *event {
                Event::WindowEvent { same_window: true, event: e } => old(self).after_window_event(e),
                _ => *old(self),
            }),
            action == (match *event {
                Event::RedrawRequested { same_window: true } => Action::Frame,
                Event::WindowEvent { same_window: true, event: e } => Self::window_event_action(e),
                Event::MainEventsCleared => Action::RequestRedraw,
                _ => Action::Wait,
            }),
    {
        match event {
            Event::RedrawRequested { same_window: true } => Action::Frame,
            Event::WindowEvent { same_window: true, event: e } => {
                if self.input(e) {
                    Action::Wait
                } else {
                    match e {
                        WindowEvent::CloseRequested => Action::Exit,
                        WindowEvent::KeyboardInput {
                            input: KeyboardInput {
                                state: ElementState::Pressed,
                                virtual_keycode: Some(VirtualKeyCode::Escape),
                            },
                        } => Action::Exit,
                        WindowEvent::Resized(size) => {
                            if self.resize(*size) {
                                Action::Reconfigure
                            } else {
                                Action::Wait
                            }
                        },
                        WindowEvent::ScaleFactorChanged { new_inner_size } => {
                            if self.resize(*new_inner_size) {
                                Action::Reconfigure
                            } else {
                                Action::Wait
                            }
                        },
                        _ => Action::Wait,
                    }
                }
            },
            Event::MainEventsCleared => Action::RequestRedraw,
            _ => Action::Wait,
        }
    }
}

/// A resize to a size with a zero width or height leaves size, surface
/// configuration, aspect and held keys as they were.
pub proof fn lemma_degenerate_resize_is_noop(s: State, new_size: PhysicalSize)
    requires
        new_size.width == 0 || new_size.height == 0,
    ensures
        s.resized(new_size) == s,
        s.after_window_event(WindowEvent::Resized(new_size)) == s,
        State::window_event_action(WindowEvent::Resized(new_size)) == Action::Wait,
{
}

/// In every update the camera is uploaded after all of its moves, the light
/// after its rotation and the object after its own, whatever keys are held.
pub proof fn lemma_uploads_follow_mutations(c: CameraController)
    ensures
        ({
            let steps = update_steps(c);
            let n = c.moves().len() as int;
            &&& steps.len() == n + 5
            &&& forall|i: int| 0 <= i < steps.len() && steps[i] is MoveCamera ==> i < n
            &&& steps[n] == UpdateStep::UploadCamera
            &&& steps[n + 1] is RotateLight
            &&& steps[n + 2] == UpdateStep::UploadLight
            &&& steps[n + 3] is RotateObject
            &&& steps[n + 4] == UpdateStep::UploadObject
        }),
{
}

/// Resizing twice to the same size is resizing once.
pub proof fn lemma_resize_idempotent(s: State, new_size: PhysicalSize)
    ensures
        s.resized(new_size).resized(new_size) == s.resized(new_size),
{
}

/// The turns of consecutive runs of steps add up.
pub proof fn lemma_light_turn_concat(a: Seq<UpdateStep>, b: Seq<UpdateStep>)
    ensures
        light_turn(a + b) == light_turn(a) + light_turn(b),
    decreases b.len(),
{
    if b.len() == 0 {
        assert(a + b =~= a);
    } else {
        lemma_light_turn_concat(a, b.drop_last());
        assert((a + b).drop_last() =~= a + b.drop_last());
        assert((a + b).last() == b.last());
    }
}

/// Steps that do not rotate the light do not turn it.
proof fn lemma_light_turn_none(steps: Seq<UpdateStep>)
    requires
        forall|i: int| 0 <= i < steps.len() ==> !(#[trigger] steps[i] is RotateLight),
    ensures
        light_turn(steps) == 0,
    decreases steps.len(),
{
    if steps.len() > 0 {
        lemma_light_turn_none(steps.drop_last());
    }
}

/// One update turns the light by the fixed step, whatever keys are held.
pub proof fn lemma_light_turn_of_update(c: CameraController)
    ensures
        light_turn(update_steps(c)) == LIGHT_STEP_DECIDEGREES,
{
    let moves = c.moves().map_values(|d: Direction| UpdateStep::MoveCamera(d));
    let before = seq![UpdateStep::UploadCamera];
    let turn = seq![UpdateStep::RotateLight { decidegrees: LIGHT_STEP_DECIDEGREES }];
    let after = seq![
        UpdateStep::UploadLight,
        UpdateStep::RotateObject { decidegrees: OBJECT_STEP_DECIDEGREES },
        UpdateStep::UploadObject,
    ];
    assert(update_steps(c) =~= moves + before + turn + after);
    lemma_light_turn_none(moves);
    lemma_light_turn_none(before);
    lemma_light_turn_none(after);
    assert(turn.drop_last() =~= Seq::<UpdateStep>::empty());
    assert(light_turn(turn) == LIGHT_STEP_DECIDEGREES) by {
        assert(light_turn(turn.drop_last()) == 0);
    }
    lemma_light_turn_concat(moves, before);
    lemma_light_turn_concat(moves + before, turn);
    lemma_light_turn_concat(moves + before + turn, after);
}

/// After any number of ticks the light has been turned by that number of
/// fixed steps, whatever keys were held at each tick.
pub proof fn lemma_light_turn_after_ticks(ticks: Seq<CameraController>)
    ensures
        light_turn(run_steps(ticks)) == ticks.len() * LIGHT_STEP_DECIDEGREES,
    decreases ticks.len(),
{
    if ticks.len() > 0 {
        lemma_light_turn_after_ticks(ticks.drop_last());
        lemma_light_turn_of_update(ticks.last());
        lemma_light_turn_concat(run_steps(ticks.drop_last()), update_steps(ticks.last()));
        assert(ticks.len() * LIGHT_STEP_DECIDEGREES == (ticks.len() - 1) * LIGHT_STEP_DECIDEGREES
            + LIGHT_STEP_DECIDEGREES) by (nonlinear_arith);
    }
}

} // verus!
