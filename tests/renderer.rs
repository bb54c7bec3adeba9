use gpu_host::geometry::{Mesh, MeshError, Vertex, VERTEX_SIZE};
use gpu_host::layout::{VertexFormat, VertexStepMode};
use gpu_host::pipeline::{
    pipeline_descriptor, BlendMode, Face, FrontFace, IndexFormat, PolygonMode, PrimitiveTopology,
};
use gpu_host::state::{
    ClearColor, DrawIndexed, ElementState, Event, FramePlan, Key, LoopAction, MouseButton,
    PhysicalSize, State, SurfaceError, WindowEvent,
};
use gpu_host::surface::{
    choose_format_index, select_surface_format, InitError, PresentMode, SurfaceConfig,
};
use wgpu::{CompositeAlphaMode, TextureFormat};

fn vertex(position: [f32; 3], color: [f32; 3]) -> Vertex {
    Vertex {
        position: [position[0].to_bits(), position[1].to_bits(), position[2].to_bits()],
        color: [color[0].to_bits(), color[1].to_bits(), color[2].to_bits()],
    }
}

fn triangle() -> Mesh {
    let vertices = vec![
        vertex([0.0, 0.5, 0.0], [1.0, 0.0, 0.0]),
        vertex([-0.5, -0.5, 0.0], [0.0, 1.0, 0.0]),
        vertex([0.5, -0.5, 0.0], [0.0, 0.0, 1.0]),
    ];
    Mesh::new(vertices, vec![0, 1, 2]).unwrap()
}

fn pentagon() -> Mesh {
    let purple = [0.5, 0.0, 0.5];
    let vertices = vec![
        vertex([-0.0868241, 0.49240386, 0.0], purple),
        vertex([-0.49513406, 0.06958647, 0.0], purple),
        vertex([-0.21918549, -0.44939706, 0.0], purple),
        vertex([0.35966998, -0.3473291, 0.0], purple),
        vertex([0.44147372, 0.2347359, 0.0], purple),
    ];
    Mesh::new(vertices, vec![0, 1, 4, 1, 2, 4, 2, 3, 4]).unwrap()
}

fn state_for(mesh: &Mesh, width: u32, height: u32) -> State {
    let formats = vec![TextureFormat::Bgra8Unorm, TextureFormat::Bgra8UnormSrgb];
    let alpha_modes = vec![CompositeAlphaMode::Opaque, CompositeAlphaMode::PreMultiplied];
    State::new(PhysicalSize { width, height }, &formats, &alpha_modes, mesh).unwrap()
}

fn left_press() -> WindowEvent {
    WindowEvent::MouseInput { button: MouseButton::Left, state: ElementState::Pressed }
}

#[test]
fn comp_shader() {
    let desc = pipeline_descriptor(TextureFormat::Bgra8UnormSrgb);
    assert_eq!(desc.vertex_entry, "vs_main");
    assert_eq!(desc.fragment_entry, "fs_main");
}

#[test]
fn pipeline_state_is_fixed() {
    let desc = pipeline_descriptor(TextureFormat::Rgba8Unorm);
    assert_eq!(desc.color_format, TextureFormat::Rgba8Unorm);
    assert_eq!(desc.blend, BlendMode::Replace);
    assert!(desc.write_all_channels);
    assert_eq!(desc.topology, PrimitiveTopology::TriangleList);
    assert_eq!(desc.strip_index_format, None);
    assert_eq!(desc.front_face, FrontFace::Ccw);
    assert_eq!(desc.cull_mode, Some(Face::Back));
    assert!(!desc.unclipped_depth);
    assert_eq!(desc.polygon_mode, PolygonMode::Fill);
    assert!(!desc.conservative);
    assert!(!desc.depth_stencil);
    assert_eq!(desc.sample_count, 1);
    assert_eq!(desc.sample_mask, u64::MAX);
    assert!(!desc.alpha_to_coverage);
    assert_eq!(desc.multiview, None);
    assert_eq!(desc.vertex_layout.array_stride, 24);
}

#[test]
fn vertex_layout_stride_is_24() {
    let layout = Vertex::desc();
    assert_eq!(layout.array_stride, 24);
    assert_eq!(VERTEX_SIZE, 24);
    assert_eq!(layout.step_mode, VertexStepMode::Vertex);
    assert_eq!(layout.attributes.len(), 2);
    assert_eq!(layout.attributes[0].offset, 0);
    assert_eq!(layout.attributes[0].shader_location, 0);
    assert_eq!(layout.attributes[0].format, VertexFormat::Float32x3);
    assert_eq!(layout.attributes[1].offset, 12);
    assert_eq!(layout.attributes[1].shader_location, 1);
    assert_eq!(layout.attributes[1].format, VertexFormat::Float32x3);
    assert_eq!(VertexFormat::Float32x3.size(), 12);
    // The stride does not depend on what a mesh holds.
    let bytes = pentagon().buffer_contents().vertex_bytes;
    assert_eq!(bytes.len() as u64, layout.array_stride * 5);
}

#[test]
fn mesh_upload_counts_indices() {
    let mesh = pentagon();
    let buffers = mesh.buffer_contents();
    assert_eq!(buffers.index_count, 9);
    assert_eq!(buffers.index_bytes.len(), 18);
    assert_eq!(buffers.vertex_bytes.len(), 120);
}

#[test]
fn mesh_upload_encodes_in_memory_order() {
    let mesh = Mesh::new(vec![vertex([1.0, 0.0, 0.0], [0.0, 0.0, 0.0])], vec![0, 0, 0]).unwrap();
    let buffers = mesh.buffer_contents();
    let first = u32::from_ne_bytes([
        buffers.vertex_bytes[0],
        buffers.vertex_bytes[1],
        buffers.vertex_bytes[2],
        buffers.vertex_bytes[3],
    ]);
    assert_eq!(first, 1.0f32.to_bits());
    assert_eq!(buffers.vertex_bytes[4..].iter().filter(|b| **b != 0).count(), 0);
    assert_eq!(buffers.index_bytes, vec![0u8; 6]);

    let mesh = Mesh::new(vec![vertex([0.0; 3], [0.0; 3]); 0x103], vec![0x102, 1]).unwrap();
    let buffers = mesh.buffer_contents();
    assert_eq!(u16::from_ne_bytes([buffers.index_bytes[0], buffers.index_bytes[1]]), 0x102);
    assert_eq!(u16::from_ne_bytes([buffers.index_bytes[2], buffers.index_bytes[3]]), 1);
}

#[test]
fn mesh_rejects_out_of_range_index() {
    let vertices = vec![vertex([0.0; 3], [0.0; 3]); 3];
    let r = Mesh::new(vertices, vec![0, 1, 3, 7]);
    assert_eq!(r.unwrap_err(), MeshError::IndexOutOfRange { position: 2, index: 3 });
}

#[test]
fn empty_mesh_is_accepted() {
    let mesh = Mesh::new(vec![], vec![]).unwrap();
    let buffers = mesh.buffer_contents();
    assert_eq!(buffers.index_count, 0);
    assert!(buffers.vertex_bytes.is_empty());
    assert!(buffers.index_bytes.is_empty());
}

#[test]
fn format_choice_prefers_first_srgb() {
    assert_eq!(choose_format_index(&vec![false, true, true]), Some(1));
    assert_eq!(choose_format_index(&vec![false, false]), Some(0));
    assert_eq!(choose_format_index(&vec![true]), Some(0));
    assert_eq!(choose_format_index(&vec![]), None);
}

#[test]
fn surface_format_selection() {
    let formats = vec![
        TextureFormat::Bgra8Unorm,
        TextureFormat::Rgba8UnormSrgb,
        TextureFormat::Bgra8UnormSrgb,
    ];
    assert_eq!(select_surface_format(&formats), Some(TextureFormat::Rgba8UnormSrgb));
    let formats = vec![TextureFormat::Rgba16Float, TextureFormat::Bgra8Unorm];
    assert_eq!(select_surface_format(&formats), Some(TextureFormat::Rgba16Float));
    assert_eq!(select_surface_format(&vec![]), None);
}

#[test]
fn surface_config_errors_and_values() {
    let alpha = vec![CompositeAlphaMode::PostMultiplied, CompositeAlphaMode::Opaque];
    assert_eq!(
        SurfaceConfig::new(&vec![], &alpha, 800, 600).unwrap_err(),
        InitError::NoSurfaceFormat
    );
    let formats = vec![TextureFormat::Bgra8UnormSrgb];
    assert_eq!(
        SurfaceConfig::new(&formats, &vec![], 800, 600).unwrap_err(),
        InitError::NoAlphaMode
    );
    let config = SurfaceConfig::new(&formats, &alpha, 800, 600).unwrap();
    assert_eq!(config.format, TextureFormat::Bgra8UnormSrgb);
    assert_eq!(config.alpha_mode, CompositeAlphaMode::PostMultiplied);
    assert_eq!((config.width, config.height), (800, 600));
    assert_eq!(config.present_mode, PresentMode::AutoVsync);
}

#[test]
fn new_state_starts_at_base_color() {
    let state = state_for(&pentagon(), 640, 480);
    assert_eq!(state.size, PhysicalSize { width: 640, height: 480 });
    assert_eq!((state.config.width, state.config.height), (640, 480));
    assert_eq!(state.config.format, TextureFormat::Bgra8UnormSrgb);
    assert_eq!(state.clear_color, ClearColor::Base);
    assert_eq!(state.num_indices, 9);
    assert!(!state.exit_requested);
}

#[test]
fn zero_area_resize_is_ignored() {
    let mut state = state_for(&triangle(), 640, 480);
    assert!(!state.resize(PhysicalSize { width: 0, height: 300 }));
    assert!(!state.resize(PhysicalSize { width: 300, height: 0 }));
    assert_eq!((state.config.width, state.config.height), (640, 480));
    assert_eq!(state.size, PhysicalSize { width: 640, height: 480 });
    assert!(state.resize(PhysicalSize { width: 1024, height: 768 }));
    assert_eq!((state.config.width, state.config.height), (1024, 768));
    assert_eq!(state.size, PhysicalSize { width: 1024, height: 768 });
}

#[test]
fn left_press_switches_clear_color() {
    let mut state = state_for(&triangle(), 640, 480);
    let right = WindowEvent::MouseInput { button: MouseButton::Right, state: ElementState::Pressed };
    assert!(!state.input(&right));
    assert_eq!(state.render(Ok(())).unwrap().clear, ClearColor::Base);
    assert!(!state.input(&left_press()));
    assert_eq!(state.render(Ok(())).unwrap().clear, ClearColor::Alternate);
    state.resize(PhysicalSize { width: 10, height: 10 });
    state.handle_event(&Event::Window(WindowEvent::RedrawRequested));
    let released = WindowEvent::MouseInput { button: MouseButton::Left, state: ElementState::Released };
    state.handle_event(&Event::Window(released));
    assert_eq!(state.render(Ok(())).unwrap().clear, ClearColor::Alternate);
}

#[test]
fn lost_surface_reconfigures_once() {
    let mut state = state_for(&triangle(), 640, 480);
    assert_eq!(state.render(Err(SurfaceError::Lost)), Err(SurfaceError::Lost));
    assert_eq!(state.on_surface_error(SurfaceError::Lost), LoopAction::Reconfigure);
    assert_eq!((state.config.width, state.config.height), (640, 480));
    assert!(!state.exit_requested);
}

#[test]
fn out_of_memory_ends_the_loop() {
    let mut state = state_for(&triangle(), 640, 480);
    assert_eq!(state.render(Err(SurfaceError::OutOfMemory)), Err(SurfaceError::OutOfMemory));
    assert_eq!(state.on_surface_error(SurfaceError::OutOfMemory), LoopAction::Exit);
    assert!(state.exit_requested);
    assert_eq!(state.handle_event(&Event::Window(WindowEvent::RedrawRequested)), LoopAction::Nothing);
    assert_eq!(state.handle_event(&Event::AboutToWait), LoopAction::Nothing);
    assert_eq!(state.handle_event(&Event::Window(left_press())), LoopAction::Nothing);
    assert_eq!(state.clear_color, ClearColor::Base);
}

#[test]
fn other_surface_errors_are_reported() {
    let mut state = state_for(&triangle(), 640, 480);
    let before = (state.size, state.clear_color, state.exit_requested);
    assert_eq!(
        state.on_surface_error(SurfaceError::Timeout),
        LoopAction::Report(SurfaceError::Timeout)
    );
    assert_eq!(
        state.on_surface_error(SurfaceError::Outdated),
        LoopAction::Report(SurfaceError::Outdated)
    );
    assert_eq!((state.size, state.clear_color, state.exit_requested), before);
}

#[test]
fn triangle_renders_one_draw() {
    let mut state = state_for(&triangle(), 800, 600);
    state.update();
    assert_eq!(state.handle_event(&Event::Window(WindowEvent::RedrawRequested)), LoopAction::Redraw);
    let plan = state.render(Ok(())).unwrap();
    assert_eq!(
        plan,
        FramePlan {
            clear: ClearColor::Base,
            store: true,
            vertex_slot: 0,
            index_format: IndexFormat::Uint16,
            draw: DrawIndexed {
                index_start: 0,
                index_end: 3,
                base_vertex: 0,
                instance_start: 0,
                instance_end: 1,
            },
        }
    );
}

#[test]
fn event_dispatch() {
    let mut state = state_for(&triangle(), 800, 600);
    assert_eq!(state.handle_event(&Event::AboutToWait), LoopAction::RequestRedraw);
    assert_eq!(state.handle_event(&Event::Other), LoopAction::Nothing);
    assert_eq!(
        state.handle_event(&Event::Window(WindowEvent::Resized(PhysicalSize { width: 0, height: 0 }))),
        LoopAction::Nothing
    );
    assert_eq!(
        state.handle_event(&Event::Window(WindowEvent::Resized(PhysicalSize { width: 320, height: 200 }))),
        LoopAction::Reconfigure
    );
    assert_eq!((state.config.width, state.config.height), (320, 200));
    let other_key = WindowEvent::KeyboardInput { key: Key::Other, state: ElementState::Pressed };
    assert_eq!(state.handle_event(&Event::Window(other_key)), LoopAction::Nothing);
    let escape_up = WindowEvent::KeyboardInput { key: Key::Escape, state: ElementState::Released };
    assert_eq!(state.handle_event(&Event::Window(escape_up)), LoopAction::Nothing);
    assert_eq!(state.handle_event(&Event::Window(left_press())), LoopAction::RequestRedraw);
    assert_eq!(state.clear_color, ClearColor::Alternate);
    let escape = WindowEvent::KeyboardInput { key: Key::Escape, state: ElementState::Pressed };
    assert_eq!(state.handle_event(&Event::Window(escape)), LoopAction::Exit);
    assert!(state.exit_requested);

    let mut state = state_for(&triangle(), 800, 600);
    assert_eq!(state.handle_event(&Event::Window(WindowEvent::CloseRequested)), LoopAction::Exit);
    assert_eq!(state.handle_event(&Event::AboutToWait), LoopAction::Nothing);
}
