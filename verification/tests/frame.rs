use render_state::camera::{CameraController, Direction};
use render_state::constants::{HEIGHT, WIDTH};
use render_state::event::{
    ElementState, Event, KeyboardInput, PhysicalSize, SurfaceError, VirtualKeyCode, WindowEvent,
};
use render_state::simple_pipeline::PipelineKind;
use render_state::state::{Action, Aspect, RenderCommand, State, SurfaceConfiguration, UpdateStep};

fn started() -> State {
    State::new(PhysicalSize { width: 1280, height: 720 })
}

fn pressed(code: VirtualKeyCode) -> WindowEvent {
    WindowEvent::KeyboardInput {
        input: KeyboardInput { state: ElementState::Pressed, virtual_keycode: Some(code) },
    }
}

#[test]
fn new_state_has_startup_aspect() {
    let s = State::new(PhysicalSize { width: 640, height: 480 });
    assert_eq!(s.size, PhysicalSize { width: 640, height: 480 });
    assert_eq!(s.config, SurfaceConfiguration { width: 640, height: 480 });
    assert_eq!(s.aspect, Aspect { width: WIDTH, height: HEIGHT });
    assert_eq!(s.aspect, Aspect { width: 1280, height: 720 });
    assert_eq!(s.camera_controller, CameraController::new());
}

#[test]
fn resize_takes_a_drawable_size() {
    let mut s = started();
    assert!(s.resize(PhysicalSize { width: 800, height: 600 }));
    assert_eq!(s.size, PhysicalSize { width: 800, height: 600 });
    assert_eq!(s.config, SurfaceConfiguration { width: 800, height: 600 });
    assert_eq!(s.aspect, Aspect { width: 800, height: 600 });
}

#[test]
fn resize_to_zero_width_or_height_is_a_no_op() {
    let mut s = started();
    s.resize(PhysicalSize { width: 800, height: 600 });
    let before = s;
    assert!(!s.resize(PhysicalSize { width: 0, height: 600 }));
    assert_eq!(s, before);
    assert!(!s.resize(PhysicalSize { width: 800, height: 0 }));
    assert_eq!(s, before);
    assert!(!s.resize(PhysicalSize { width: 0, height: 0 }));
    assert_eq!(s, before);
}

#[test]
fn lost_surface_is_resized_to_the_last_size() {
    let mut s = started();
    s.resize(PhysicalSize { width: 800, height: 600 });
    let before = s;
    assert_eq!(s.on_render_result(Err(SurfaceError::Lost)), Action::Reconfigure);
    assert_eq!(s, before);
}

#[test]
fn lost_surface_with_no_drawable_size_waits() {
    let mut s = State::new(PhysicalSize { width: 0, height: 0 });
    let before = s;
    assert_eq!(s.on_render_result(Err(SurfaceError::Lost)), Action::Wait);
    assert_eq!(s, before);
}

#[test]
fn out_of_memory_exits_and_draws_nothing() {
    let mut s = started();
    assert_eq!(s.render(Err(SurfaceError::OutOfMemory)), Err(SurfaceError::OutOfMemory));
    assert_eq!(s.on_render_result(Err(SurfaceError::OutOfMemory)), Action::Exit);
}

#[test]
fn other_errors_skip_the_frame() {
    let mut s = started();
    let before = s;
    assert_eq!(s.on_render_result(Err(SurfaceError::Timeout)), Action::Skip(SurfaceError::Timeout));
    assert_eq!(s.on_render_result(Err(SurfaceError::Outdated)), Action::Skip(SurfaceError::Outdated));
    assert_eq!(s.on_render_result(Ok(())), Action::Wait);
    assert_eq!(s, before);
}

#[test]
fn render_draws_the_light_marker_before_the_object() {
    let s = started();
    assert_eq!(
        s.render(Ok(())),
        Ok(vec![
            RenderCommand::BeginRenderPass,
            RenderCommand::SetPipeline(PipelineKind::LightMarker),
            RenderCommand::DrawLightModel,
            RenderCommand::SetPipeline(PipelineKind::Object),
            RenderCommand::SetInstanceBuffer { slot: 1 },
            RenderCommand::DrawModel,
            RenderCommand::Submit,
            RenderCommand::Present,
        ])
    );
    assert_eq!(s.render(Err(SurfaceError::Lost)), Err(SurfaceError::Lost));
}

#[test]
fn update_runs_camera_then_light_then_object() {
    let mut s = started();
    assert_eq!(
        s.update(),
        vec![
            UpdateStep::UploadCamera,
            UpdateStep::RotateLight { decidegrees: 10 },
            UpdateStep::UploadLight,
            UpdateStep::RotateObject { decidegrees: 2 },
            UpdateStep::UploadObject,
        ]
    );
    assert!(s.input(&pressed(VirtualKeyCode::W)));
    assert!(s.input(&pressed(VirtualKeyCode::Left)));
    assert_eq!(
        s.update(),
        vec![
            UpdateStep::MoveCamera(Direction::Forward),
            UpdateStep::MoveCamera(Direction::Left),
            UpdateStep::UploadCamera,
            UpdateStep::RotateLight { decidegrees: 10 },
            UpdateStep::UploadLight,
            UpdateStep::RotateObject { decidegrees: 2 },
            UpdateStep::UploadObject,
        ]
    );
}

#[test]
fn redraw_request_starts_a_frame() {
    let mut s = started();
    let before = s;
    assert_eq!(s.on_event(&Event::RedrawRequested { same_window: true }), Action::Frame);
    assert_eq!(s.on_event(&Event::RedrawRequested { same_window: false }), Action::Wait);
    assert_eq!(s.on_event(&Event::MainEventsCleared), Action::RequestRedraw);
    assert_eq!(s.on_event(&Event::Other), Action::Wait);
    assert_eq!(s, before);
}

#[test]
fn close_and_escape_exit() {
    let mut s = started();
    let close = Event::WindowEvent { same_window: true, event: WindowEvent::CloseRequested };
    assert_eq!(s.on_event(&close), Action::Exit);
    let escape = Event::WindowEvent { same_window: true, event: pressed(VirtualKeyCode::Escape) };
    assert_eq!(s.on_event(&escape), Action::Exit);
    let released = Event::WindowEvent {
        same_window: true,
        event: WindowEvent::KeyboardInput {
            input: KeyboardInput {
                state: ElementState::Released,
                virtual_keycode: Some(VirtualKeyCode::Escape),
            },
        },
    };
    assert_eq!(s.on_event(&released), Action::Wait);
    let elsewhere = Event::WindowEvent { same_window: false, event: WindowEvent::CloseRequested };
    assert_eq!(s.on_event(&elsewhere), Action::Wait);
}

#[test]
fn window_events_reach_controller_and_resize() {
    let mut s = started();
    let w = Event::WindowEvent { same_window: true, event: pressed(VirtualKeyCode::W) };
    assert_eq!(s.on_event(&w), Action::Wait);
    assert!(s.camera_controller.up_press);

    let resized = Event::WindowEvent {
        same_window: true,
        event: WindowEvent::Resized(PhysicalSize { width: 300, height: 200 }),
    };
    assert_eq!(s.on_event(&resized), Action::Reconfigure);
    assert_eq!(s.aspect, Aspect { width: 300, height: 200 });

    let scaled = Event::WindowEvent {
        same_window: true,
        event: WindowEvent::ScaleFactorChanged { new_inner_size: PhysicalSize { width: 600, height: 400 } },
    };
    assert_eq!(s.on_event(&scaled), Action::Reconfigure);
    assert_eq!(s.config, SurfaceConfiguration { width: 600, height: 400 });

    let before = s;
    let collapsed = Event::WindowEvent {
        same_window: true,
        event: WindowEvent::Resized(PhysicalSize { width: 0, height: 200 }),
    };
    assert_eq!(s.on_event(&collapsed), Action::Wait);
    assert_eq!(s, before);
}

#[test]
fn light_turns_by_one_step_per_tick_whatever_is_held() {
    let mut s = started();
    let mut turned: u32 = 0;
    let keys = [VirtualKeyCode::W, VirtualKeyCode::A, VirtualKeyCode::Down, VirtualKeyCode::Right];
    for tick in 0..7 {
        s.input(&pressed(keys[tick % keys.len()]));
        for step in s.update() {
            if let UpdateStep::RotateLight { decidegrees } = step {
                turned += decidegrees;
            }
        }
    }
    assert_eq!(turned, 70);
}
