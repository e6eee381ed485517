use gfx_sandbox::app::App;
use gfx_sandbox::app::CompositeAlphaMode;
use gfx_sandbox::app::FrameAction;
use gfx_sandbox::app::PresentMode;
use gfx_sandbox::app::RenderError;
use gfx_sandbox::app::SetupError;
use gfx_sandbox::app::SurfaceCapabilities;
use gfx_sandbox::app::WindowEvent;
use gfx_sandbox::mesh::IndexFormat;
use gfx_sandbox::mesh::Mesh;
use gfx_sandbox::pipeline::Pipeline;
use gfx_sandbox::texture::AddressMode;
use gfx_sandbox::texture::FilterMode;
use gfx_sandbox::texture::Texture;
use gfx_sandbox::texture::TextureFormat;
use gfx_sandbox::texture::SHADER_STAGE_FRAGMENT;
use gfx_sandbox::texture::TEXTURE_USAGE_RENDER_ATTACHMENT;
use gfx_sandbox::vertex::VertexType;

fn caps() -> SurfaceCapabilities {
    SurfaceCapabilities {
        formats: vec![
            TextureFormat::Bgra8Unorm,
            TextureFormat::Bgra8UnormSrgb,
            TextureFormat::Rgba8UnormSrgb,
        ],
        present_modes: vec![PresentMode::Fifo, PresentMode::Immediate],
        alpha_modes: vec![CompositeAlphaMode::Opaque, CompositeAlphaMode::Auto],
    }
}

fn ppm(width: u32, height: u32, rgb: &[u8]) -> Vec<u8> {
    let mut bytes = format!("P6\n{} {}\n255\n", width, height).into_bytes();
    bytes.extend_from_slice(rgb);
    bytes
}

fn push_f32(bytes: &mut Vec<u8>, x: f32) {
    bytes.extend_from_slice(&x.to_le_bytes());
}

fn triangle_color_bytes() -> Vec<u8> {
    let vertices: [([f32; 3], [f32; 3]); 3] = [
        ([0.0, 0.5, 0.0], [1.0, 0.0, 0.0]),
        ([-0.5, -0.5, 0.0], [0.0, 1.0, 0.0]),
        ([0.5, -0.5, 0.0], [0.0, 0.0, 1.0]),
    ];
    let mut bytes = Vec::new();
    for (position, color) in vertices {
        for x in position {
            push_f32(&mut bytes, x);
        }
        for x in color {
            push_f32(&mut bytes, x);
        }
    }
    bytes
}

fn square_uv_bytes() -> Vec<u8> {
    let vertices: [([f32; 3], [f32; 2]); 4] = [
        ([-0.5, 0.5, 0.0], [0.0, 0.0]),
        ([0.5, 0.5, 0.0], [1.0, 0.0]),
        ([-0.5, -0.5, 0.0], [0.0, 1.0]),
        ([0.5, -0.5, 0.0], [1.0, 1.0]),
    ];
    let mut bytes = Vec::new();
    for (position, uv) in vertices {
        for x in position {
            push_f32(&mut bytes, x);
        }
        for x in uv {
            push_f32(&mut bytes, x);
        }
    }
    bytes
}

/// Build the demo scene: one texture, the color triangle and the UV square,
/// and the two pipelines, as the sandbox registers them at startup.
fn demo_app(width: u32, height: u32) -> App {
    let mut app = App::new(width, height, &caps()).unwrap();
    let image = ppm(2, 2, &[255, 0, 0, 0, 255, 0, 0, 0, 255, 1, 2, 3]);
    let texture =
        Texture::new(&image, FilterMode::Nearest, AddressMode::Repeat, SHADER_STAGE_FRAGMENT)
            .unwrap();
    let uv_layout = texture.bind_group_layout().clone();
    app.add_textures(vec![texture]);
    app.add_meshes(vec![
        Mesh::new(triangle_color_bytes(), VertexType::VertexColor, vec![0, 1, 2]),
        Mesh::new(square_uv_bytes(), VertexType::VertexUV, vec![1, 0, 2, 1, 2, 3]),
    ]);
    let color_pipeline = Pipeline::new(&app, vec![], VertexType::VertexColor);
    let uv_pipeline = Pipeline::new(&app, vec![uv_layout], VertexType::VertexUV);
    app.add_pipelines(vec![color_pipeline, uv_pipeline]);
    app
}

#[test]
fn new_picks_first_srgb_format_and_first_modes() {
    let app = App::new(800, 600, &caps()).unwrap();
    let config = app.config();
    assert_eq!(config.format, TextureFormat::Bgra8UnormSrgb);
    assert_eq!(config.usage, TEXTURE_USAGE_RENDER_ATTACHMENT);
    assert_eq!(config.width, 800);
    assert_eq!(config.height, 600);
    assert_eq!(config.present_mode, PresentMode::Fifo);
    assert_eq!(config.alpha_mode, CompositeAlphaMode::Opaque);
    assert_eq!(config.desired_maximum_frame_latency, 2);
    assert_eq!(app.size(), (800, 600));
}

#[test]
fn new_fails_without_srgb_format() {
    let no_srgb = SurfaceCapabilities {
        formats: vec![TextureFormat::Bgra8Unorm, TextureFormat::Rgba8Unorm],
        present_modes: vec![PresentMode::Fifo],
        alpha_modes: vec![CompositeAlphaMode::Auto],
    };
    assert!(matches!(App::new(800, 600, &no_srgb), Err(SetupError::NoSrgbFormat)));
}

#[test]
fn resize_with_positive_dimensions_updates_configuration() {
    let mut app = App::new(800, 600, &caps()).unwrap();
    app.resize(400, 300);
    assert_eq!(app.config().width, 400);
    assert_eq!(app.config().height, 300);
    assert_eq!(app.size(), (400, 300));
    assert_eq!(app.config().format, TextureFormat::Bgra8UnormSrgb);
    app.resize(1, 1);
    assert_eq!(app.size(), (1, 1));
}

#[test]
fn resize_with_a_zero_dimension_is_a_no_op() {
    let mut app = App::new(800, 600, &caps()).unwrap();
    app.resize(0, 300);
    assert_eq!((app.config().width, app.config().height), (800, 600));
    app.resize(400, 0);
    assert_eq!((app.config().width, app.config().height), (800, 600));
    app.resize(0, 0);
    assert_eq!((app.config().width, app.config().height), (800, 600));
    assert_eq!(app.size(), (800, 600));
}

#[test]
fn render_rejects_out_of_range_indices() {
    let app = demo_app(800, 600);
    assert!(matches!(app.render(2, 1), Err(RenderError::PipelineOutOfRange)));
    assert!(matches!(app.render(1, 2), Err(RenderError::MeshOutOfRange)));
    assert!(matches!(app.render(9, 9), Err(RenderError::PipelineOutOfRange)));
}

#[test]
fn render_plans_the_frame() {
    let app = demo_app(800, 600);
    let frame = app.render(1, 1).unwrap();
    assert_eq!(
        (
            frame.clear_color.r_milli,
            frame.clear_color.g_milli,
            frame.clear_color.b_milli,
            frame.clear_color.a_milli,
        ),
        (10, 10, 10, 1000)
    );
    assert_eq!(frame.pipeline_index, 1);
    assert_eq!(frame.bind_group_slots, vec![0]);
    assert_eq!(frame.vertex_buffer_slot, 0);
    assert_eq!(frame.mesh_index, 1);
    assert_eq!(frame.index_format, IndexFormat::Uint16);
    assert_eq!(frame.index_count, 6);
    assert_eq!(frame.base_vertex, 0);
    assert_eq!(frame.instance_count, 1);
}

#[test]
fn render_covers_the_triangle_mesh_too() {
    let app = demo_app(800, 600);
    let frame = app.render(0, 0).unwrap();
    assert_eq!(frame.pipeline_index, 0);
    assert_eq!(frame.mesh_index, 0);
    assert_eq!(frame.index_count, 3);
}

#[test]
fn close_event_exits_and_other_events_continue() {
    let mut app = demo_app(800, 600);
    assert!(matches!(app.handle_event(WindowEvent::CloseRequested, 1, 1), FrameAction::Exit));
    assert!(matches!(app.handle_event(WindowEvent::Other, 1, 1), FrameAction::Continue));
    assert_eq!(app.size(), (800, 600));
}

#[test]
fn resize_event_reconfigures() {
    let mut app = demo_app(800, 600);
    let action = app.handle_event(WindowEvent::Resized { width: 640, height: 480 }, 1, 1);
    assert!(matches!(action, FrameAction::Continue));
    assert_eq!((app.config().width, app.config().height), (640, 480));
}

#[test]
fn resize_event_with_zero_dimension_keeps_configuration() {
    let mut app = demo_app(800, 600);
    let action = app.handle_event(WindowEvent::Resized { width: 0, height: 0 }, 1, 1);
    assert!(matches!(action, FrameAction::Continue));
    assert_eq!((app.config().width, app.config().height), (800, 600));
}

#[test]
fn update_hook_is_a_no_op() {
    let mut app = demo_app(800, 600);
    app.update();
    assert_eq!(app.size(), (800, 600));
    assert_eq!(app.config().format, TextureFormat::Bgra8UnormSrgb);
    assert_eq!(app.meshes().len(), 2);
    assert_eq!(app.pipelines().len(), 2);
    assert_eq!(app.textures().len(), 1);
}

#[test]
fn redraw_event_with_missing_pipeline_fails() {
    let mut app = App::new(800, 600, &caps()).unwrap();
    let action = app.handle_event(WindowEvent::RedrawRequested, 1, 1);
    assert!(matches!(action, FrameAction::Failed(RenderError::PipelineOutOfRange)));
}

#[test]
fn offscreen_scenario_resize_then_render_uv_square() {
    let mut app = demo_app(800, 600);
    app.resize(400, 300);
    let action = app.handle_event(WindowEvent::RedrawRequested, 1, 1);
    match action {
        FrameAction::Present(frame) => {
            assert_eq!((app.config().width, app.config().height), (400, 300));
            assert_eq!(app.size(), (400, 300));
            assert_eq!(
                (
                    frame.clear_color.r_milli,
                    frame.clear_color.g_milli,
                    frame.clear_color.b_milli,
                    frame.clear_color.a_milli,
                ),
                (10, 10, 10, 1000)
            );
            assert_eq!(frame.pipeline_index, 1);
            assert_eq!(frame.mesh_index, 1);
            assert_eq!(frame.index_count, 6);
            assert_eq!(frame.bind_group_slots, vec![0]);
        }
        _ => panic!("expected a frame plan"),
    }
}
