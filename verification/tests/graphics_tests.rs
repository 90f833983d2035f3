use gameboy_dmg_emulator::graphics::opengl::OpenGLRenderer;
use gameboy_dmg_emulator::graphics::renderer::{
    create_texture_data, FilterMode, RenderConfig, Renderer, ShaderSource,
};
use gameboy_dmg_emulator::graphics::webgl::WebGLRenderer;
use gameboy_dmg_emulator::EmulatorError;

#[test]
fn test_render_config_default() {
    let config = RenderConfig::default();
    assert_eq!(config.width, 160);
    assert_eq!(config.height, 144);
    assert_eq!(config.scale, 4);
    assert!(config.vsync);
    assert_eq!(config.filter, FilterMode::Nearest);
}

#[test]
fn test_create_texture_data_shades() {
    let frame = vec![0u8, 1, 2, 3, 7];
    let texture = create_texture_data(&frame);
    assert_eq!(texture, vec![255u8, 192, 96, 0, 0]);
}

#[test]
fn test_opengl_renderer_lifecycle() {
    let mut renderer = OpenGLRenderer::new(RenderConfig::default());
    let frame = vec![0u8; 160 * 144];
    // Rendering before initialization fails.
    assert!(matches!(
        renderer.render(&frame),
        Err(EmulatorError::GraphicsError(_))
    ));
    assert!(renderer.init().is_ok());
    assert!(renderer.render(&frame).is_ok());
    renderer.clear();
    renderer.present();
    assert_eq!(renderer.get_viewport(), (640, 576));
    renderer.set_viewport(320, 288);
    assert_eq!(renderer.get_viewport(), (1280, 1152));
}

#[test]
fn test_webgl_renderer_lifecycle() {
    let mut renderer = WebGLRenderer::new(RenderConfig::default());
    let frame = vec![0u8; 160 * 144];
    assert!(renderer.render(&frame).is_err());
    assert!(renderer.init().is_ok());
    assert!(renderer.render(&frame).is_ok());
    assert_eq!(renderer.get_viewport(), (640, 576));
}

#[test]
fn test_shader_source_holds_stages() {
    let source = ShaderSource { vertex: "vertex stage", fragment: "fragment stage" };
    assert_eq!(source.vertex, "vertex stage");
    assert_eq!(source.fragment, "fragment stage");
}
