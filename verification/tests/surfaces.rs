use cat_render::render::command::GpuCommand;
use cat_render::render::surface::{
    choose_format, CatSurface, CompositeAlphaMode, PresentMode, SurfaceCapabilities,
    SurfaceConfiguration, SurfaceId,
};
use cat_render::render::texture::{TextureFormat, TextureUsages, TEXTURE_RENDER_ATTACHMENT};
use cat_render::render::Renderer;
use cat_render::window::{PhysicalSize, Window, WindowId};

fn caps(formats: Vec<TextureFormat>) -> SurfaceCapabilities {
    SurfaceCapabilities {
        formats,
        present_modes: vec![PresentMode::Fifo, PresentMode::Mailbox],
        alpha_modes: vec![CompositeAlphaMode::Opaque, CompositeAlphaMode::Auto],
    }
}

fn window(id: u64, width: u32, height: u32) -> Window {
    Window {
        id: WindowId(id),
        size: PhysicalSize::new(width, height),
        capabilities: caps(vec![TextureFormat::new(1, false), TextureFormat::new(2, true)]),
    }
}

fn config(format: TextureFormat, width: u32, height: u32) -> SurfaceConfiguration {
    SurfaceConfiguration {
        usage: TextureUsages { bits: TEXTURE_RENDER_ATTACHMENT },
        format,
        width,
        height,
        present_mode: PresentMode::Fifo,
        alpha_mode: CompositeAlphaMode::Opaque,
        desired_maximum_frame_latency: 2,
    }
}

#[test]
fn the_first_srgb_format_is_preferred() {
    let formats = vec![
        TextureFormat::new(1, false),
        TextureFormat::new(2, true),
        TextureFormat::new(3, true),
    ];
    assert_eq!(choose_format(&formats), TextureFormat::new(2, true));
}

#[test]
fn without_an_srgb_format_the_first_format_is_taken() {
    let formats = vec![TextureFormat::new(4, false), TextureFormat::new(5, false)];
    assert_eq!(choose_format(&formats), TextureFormat::new(4, false));
}

#[test]
fn a_single_format_is_taken_as_it_is() {
    assert_eq!(choose_format(&vec![TextureFormat::new(8, true)]), TextureFormat::new(8, true));
    assert_eq!(choose_format(&vec![TextureFormat::new(8, false)]), TextureFormat::new(8, false));
}

#[test]
fn capabilities_with_an_empty_list_are_not_usable() {
    assert!(caps(vec![TextureFormat::new(1, false)]).is_usable());
    assert!(!caps(vec![]).is_usable());
    let mut no_modes = caps(vec![TextureFormat::new(1, false)]);
    no_modes.present_modes.clear();
    assert!(!no_modes.is_usable());
    let mut no_alpha = caps(vec![TextureFormat::new(1, false)]);
    no_alpha.alpha_modes.clear();
    assert!(!no_alpha.is_usable());
}

#[test]
fn binding_configures_the_surface_to_the_window() {
    let mut renderer = Renderer::new();
    let id = renderer.create_surface(&window(10, 800, 600));
    assert_eq!(id, SurfaceId(0));
    assert!(renderer.exists_surface(id));
    let expected = config(TextureFormat::new(2, true), 800, 600);
    assert_eq!(
        *renderer.get_surface(id),
        CatSurface {
            id,
            window: WindowId(10),
            size: PhysicalSize::new(800, 600),
            config: expected,
        }
    );
    assert_eq!(
        renderer.commands().as_slice(),
        &[GpuCommand::CreateSurface { surface: id, window: WindowId(10), config: expected }]
    );
    assert_eq!(renderer.surface_of_window(&WindowId(10)), Some(id));
    assert_eq!(renderer.surface_of_window(&WindowId(11)), None);
}

#[test]
fn surfaces_are_numbered_in_rising_order_and_never_again() {
    let mut renderer = Renderer::new();
    assert_eq!(renderer.next_surface_id(), 0);
    let a = renderer.create_surface(&window(1, 10, 10));
    let b = renderer.create_surface(&window(2, 10, 10));
    assert_eq!((a, b), (SurfaceId(0), SurfaceId(1)));
    assert_eq!(renderer.next_surface_id(), 2);
    renderer.delete_surface(a);
    assert_eq!(renderer.next_surface_id(), 2);
    let c = renderer.create_surface(&window(3, 10, 10));
    assert_eq!(c, SurfaceId(2));
    assert!(!renderer.exists_surface(a));
    assert!(renderer.exists_surface(b));
    assert!(renderer.exists_surface(c));
}

#[test]
fn a_window_has_one_surface_at_a_time() {
    let mut renderer = Renderer::new();
    let first = renderer.create_surface(&window(1, 10, 10));
    renderer.take_commands();
    let second = renderer.create_surface(&window(1, 20, 20));
    assert_ne!(first, second);
    assert!(!renderer.exists_surface(first));
    assert!(renderer.exists_surface(second));
    assert_eq!(renderer.surface_of_window(&WindowId(1)), Some(second));
    assert_eq!(
        renderer.commands().as_slice(),
        &[
            GpuCommand::DestroySurface { surface: first },
            GpuCommand::CreateSurface {
                surface: second,
                window: WindowId(1),
                config: config(TextureFormat::new(2, true), 20, 20),
            },
        ]
    );
}

#[test]
fn a_resize_to_no_pixels_changes_nothing() {
    let mut renderer = Renderer::new();
    let id = renderer.create_surface(&window(1, 640, 480));
    renderer.take_commands();
    let before = *renderer.get_surface(id);
    for (w, h) in [(0, 0), (0, 300), (300, 0)] {
        renderer.on_resize(&WindowId(1), PhysicalSize::new(w, h));
        assert_eq!(*renderer.get_surface(id), before);
        assert!(renderer.commands().is_empty());
    }
    assert_eq!(renderer.get_surface(id).size, PhysicalSize::new(640, 480));
}

#[test]
fn a_resize_reconfigures_the_surface_in_place() {
    let mut renderer = Renderer::new();
    let id = renderer.create_surface(&window(1, 640, 480));
    renderer.take_commands();
    renderer.on_resize(&WindowId(1), PhysicalSize::new(1024, 768));
    let surface = *renderer.get_surface(id);
    assert_eq!(surface.size, PhysicalSize::new(1024, 768));
    assert_eq!(surface.config, config(TextureFormat::new(2, true), 1024, 768));
    assert_eq!(surface.window, WindowId(1));
    assert_eq!(
        renderer.commands().as_slice(),
        &[GpuCommand::ConfigureSurface { surface: id, config: surface.config }]
    );
}

#[test]
fn a_resize_of_a_window_without_surface_changes_nothing() {
    let mut renderer = Renderer::new();
    let id = renderer.create_surface(&window(1, 640, 480));
    renderer.take_commands();
    renderer.on_resize(&WindowId(2), PhysicalSize::new(100, 100));
    assert_eq!(renderer.get_surface(id).size, PhysicalSize::new(640, 480));
    assert!(renderer.commands().is_empty());
}

#[test]
fn a_resize_touches_only_the_surface_of_its_window() {
    let mut renderer = Renderer::new();
    let a = renderer.create_surface(&window(1, 10, 10));
    let b = renderer.create_surface(&window(2, 20, 20));
    renderer.on_resize(&WindowId(2), PhysicalSize::new(30, 40));
    assert_eq!(renderer.get_surface(a).size, PhysicalSize::new(10, 10));
    assert_eq!(renderer.get_surface(b).size, PhysicalSize::new(30, 40));
}

#[test]
fn unbinding_removes_the_surface_and_the_way_from_its_window() {
    let mut renderer = Renderer::new();
    let id = renderer.create_surface(&window(1, 10, 10));
    renderer.take_commands();
    renderer.delete_surface(id);
    assert!(!renderer.exists_surface(id));
    assert_eq!(renderer.surface_of_window(&WindowId(1)), None);
    assert_eq!(renderer.commands().as_slice(), &[GpuCommand::DestroySurface { surface: id }]);
    renderer.take_commands();
    renderer.on_resize(&WindowId(1), PhysicalSize::new(50, 50));
    assert!(renderer.commands().is_empty());
}

#[test]
fn unbinding_an_unknown_surface_changes_nothing() {
    let mut renderer = Renderer::new();
    let id = renderer.create_surface(&window(1, 10, 10));
    renderer.take_commands();
    renderer.delete_surface(SurfaceId(99));
    assert!(renderer.exists_surface(id));
    assert!(renderer.commands().is_empty());
}

#[test]
fn closing_a_window_unbinds_its_surface() {
    let mut renderer = Renderer::new();
    let a = renderer.create_surface(&window(1, 10, 10));
    let b = renderer.create_surface(&window(2, 10, 10));
    renderer.take_commands();
    renderer.on_close(&WindowId(1));
    assert!(!renderer.exists_surface(a));
    assert!(renderer.exists_surface(b));
    assert_eq!(renderer.commands().as_slice(), &[GpuCommand::DestroySurface { surface: a }]);
    renderer.take_commands();
    renderer.on_close(&WindowId(1));
    assert!(renderer.commands().is_empty());
}
