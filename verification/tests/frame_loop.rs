use render_harness::color::ColorRgba;
use render_harness::config::{startup_config, uniform_name, window_title};
use render_harness::frame::{
    frame_commands, run_frame, Event, FrameAction, FrameState, Mode, RenderCommand, Scene,
    UniformUpdate, Viewport, UNIFORM_NOT_FOUND,
};
use render_harness::log_buffer::log_text;
use render_harness::mesh::{Mesh, VertexArrayHandle};
use render_harness::shader::ProgramHandle;

fn triangle_scene() -> Scene {
    Scene {
        program: ProgramHandle { raw: 4 },
        mesh: Mesh { vertex_array: VertexArrayHandle { raw: 5 }, vertex_count: 3 },
        clear_color: ColorRgba::background(),
        uniform: None,
    }
}

#[test]
fn resize_event_moves_the_viewport() {
    let mut state = FrameState::new(800, 600);
    let action = state.handle_event(&Event::FramebufferResize { width: 1024, height: 768 });
    assert_eq!(state.viewport, Viewport { x: 0, y: 0, width: 1024, height: 768 });
    assert_eq!(
        action,
        Some(FrameAction::SetViewport(Viewport { x: 0, y: 0, width: 1024, height: 768 }))
    );
    assert_eq!(state.mode, Mode::Running);
}

#[test]
fn cancel_key_closes_the_loop_and_stops_drawing() {
    let mut state = FrameState::new(800, 600);
    let action = state.handle_event(&Event::CancelKeyPress);
    assert_eq!(action, None);
    assert_eq!(state.mode, Mode::Closing);
    assert!(!state.is_running());
    // After the transition, a frame issues no commands at all.
    assert_eq!(frame_commands(&state, &triangle_scene()), vec![]);
}

#[test]
fn cancel_anywhere_in_a_batch_closes_the_loop() {
    let mut state = FrameState::new(800, 600);
    let events = vec![
        Event::Other,
        Event::CancelKeyPress,
        Event::FramebufferResize { width: 640, height: 480 },
    ];
    let actions = state.drain_events(&events);
    assert_eq!(state.mode, Mode::Closing);
    // The resize after the cancel press is still dispatched, in order.
    assert_eq!(state.viewport, Viewport { x: 0, y: 0, width: 640, height: 480 });
    assert_eq!(
        actions,
        vec![FrameAction::SetViewport(Viewport { x: 0, y: 0, width: 640, height: 480 })]
    );
}

#[test]
fn last_resize_in_a_batch_wins() {
    let mut state = FrameState::new(800, 600);
    let events = vec![
        Event::FramebufferResize { width: 100, height: 100 },
        Event::Other,
        Event::FramebufferResize { width: 640, height: 480 },
    ];
    let actions = state.drain_events(&events);
    assert_eq!(state.viewport, Viewport { x: 0, y: 0, width: 640, height: 480 });
    assert_eq!(
        actions,
        vec![
            FrameAction::SetViewport(Viewport { x: 0, y: 0, width: 100, height: 100 }),
            FrameAction::SetViewport(Viewport { x: 0, y: 0, width: 640, height: 480 }),
        ]
    );
}

#[test]
fn other_events_are_ignored() {
    let mut state = FrameState::new(800, 600);
    let before = state;
    let action = state.handle_event(&Event::Other);
    assert_eq!(action, None);
    assert_eq!(state, before);
}

#[test]
fn close_request_is_terminal() {
    let mut state = FrameState::new(800, 600);
    state.request_close();
    assert_eq!(state.mode, Mode::Closing);
    state.drain_events(&vec![Event::FramebufferResize { width: 10, height: 10 }, Event::Other]);
    assert_eq!(state.mode, Mode::Closing);
}

#[test]
fn running_frame_emits_the_exact_command_sequence() {
    let state = FrameState::new(800, 600);
    let commands = frame_commands(&state, &triangle_scene());
    assert_eq!(
        commands,
        vec![
            RenderCommand::SetClearColor(ColorRgba::background()),
            RenderCommand::ClearColorBuffer,
            RenderCommand::UseProgram(4),
            RenderCommand::BindVertexArray(5),
            RenderCommand::DrawTriangles { first: 0, count: 3 },
            RenderCommand::Present,
        ]
    );
}

#[test]
fn frame_with_uniform_loads_it_before_binding_the_mesh() {
    let state = FrameState::new(800, 600);
    let uniform = UniformUpdate {
        location: 2,
        value: ColorRgba::new(500, 250, 750, 1000),
    };
    let scene = Scene { uniform: Some(uniform), ..triangle_scene() };
    let commands = frame_commands(&state, &scene);
    assert_eq!(
        commands,
        vec![
            RenderCommand::SetClearColor(ColorRgba::background()),
            RenderCommand::ClearColorBuffer,
            RenderCommand::UseProgram(4),
            RenderCommand::SetUniformColor(uniform),
            RenderCommand::BindVertexArray(5),
            RenderCommand::DrawTriangles { first: 0, count: 3 },
            RenderCommand::Present,
        ]
    );
}

#[test]
fn unresolved_uniform_location_is_skipped() {
    let state = FrameState::new(800, 600);
    let scene = Scene {
        uniform: Some(UniformUpdate {
            location: UNIFORM_NOT_FOUND,
            value: ColorRgba::new(500, 250, 750, 1000),
        }),
        ..triangle_scene()
    };
    let commands = frame_commands(&state, &scene);
    assert!(!commands.iter().any(|c| matches!(c, RenderCommand::SetUniformColor(_))));
    assert_eq!(commands.len(), 6);
}

#[test]
fn idle_frames_are_identical() {
    // Two successive iterations with no events and an unchanged scene emit
    // bit-identical command sequences.
    let mut state = FrameState::new(800, 600);
    let scene = triangle_scene();
    let (first_actions, first_commands) = run_frame(&mut state, &vec![], &scene);
    let (second_actions, second_commands) = run_frame(&mut state, &vec![], &scene);
    assert_eq!(first_actions, vec![]);
    assert_eq!(second_actions, vec![]);
    assert_eq!(first_commands, second_commands);
    assert!(!first_commands.is_empty());
}

#[test]
fn run_frame_after_cancel_emits_nothing() {
    let mut state = FrameState::new(800, 600);
    let (_, commands) = run_frame(&mut state, &vec![Event::CancelKeyPress], &triangle_scene());
    assert_eq!(commands, vec![]);
    let (_, later) = run_frame(&mut state, &vec![], &triangle_scene());
    assert_eq!(later, vec![]);
}

#[test]
fn background_color_is_the_fixed_teal() {
    let c = ColorRgba::background();
    assert_eq!(c, ColorRgba { red: 200, green: 300, blue: 300, alpha: 1000 });
}

#[test]
fn startup_config_pins_the_window_parameters() {
    let c = startup_config();
    assert_eq!((c.width, c.height), (800, 600));
    assert_eq!((c.context_major, c.context_minor), (3, 3));
    assert!(c.core_profile);
    assert!(!c.resizable);
    assert!(c.forward_compat);
    assert_eq!(c.swap_interval, 1);
    assert_eq!(window_title(), "OpenGL playground");
    assert_eq!(uniform_name(), "albedo");
}

#[test]
fn log_text_stops_at_the_first_null() {
    let buffer = vec![b'o', b'o', b'p', b's', 0, b'x', b'y'];
    assert_eq!(log_text(&buffer), b"oops".to_vec());
}

#[test]
fn log_text_without_a_null_keeps_everything() {
    let buffer = b"whole log".to_vec();
    assert_eq!(log_text(&buffer), buffer);
}

#[test]
fn log_text_of_an_empty_buffer_is_empty() {
    assert_eq!(log_text(&Vec::new()), Vec::<u8>::new());
}

#[test]
fn log_text_of_a_leading_null_is_empty() {
    assert_eq!(log_text(&vec![0, b'a']), Vec::<u8>::new());
}
