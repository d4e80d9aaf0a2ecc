use cat_render::app::{AppConfig, LoopType};
use cat_render::context::{AppContext, Resources, StaticContext};
use cat_render::render::command::GpuCommand;
use cat_render::render::render_pipeline::PipelineOptions;
use cat_render::render::surface::{CompositeAlphaMode, PresentMode, SurfaceCapabilities, SurfaceId};
use cat_render::render::texture::TextureFormat;
use cat_render::window::{CatWindow, PhysicalSize, Window, WindowId, Windows};

fn window(id: u64, width: u32, height: u32) -> Window {
    Window {
        id: WindowId(id),
        size: PhysicalSize::new(width, height),
        capabilities: SurfaceCapabilities {
            formats: vec![TextureFormat::new(1, false), TextureFormat::new(2, true)],
            present_modes: vec![PresentMode::Mailbox],
            alpha_modes: vec![CompositeAlphaMode::PreMultiplied],
        },
    }
}

fn context() -> AppContext<String> {
    AppContext::new(StaticContext::new())
}

#[test]
fn defaults_poll_without_pause() {
    assert_eq!(LoopType::default(), LoopType::Active);
    assert_eq!(AppConfig::default(), AppConfig { loop_type: LoopType::Active });
}

#[test]
fn sizes_and_windows_say_what_they_are() {
    assert_eq!(PhysicalSize::new(3, 4), PhysicalSize { width: 3, height: 4 });
    assert!(window(1, 0, 0).is_presentable());
    let mut unusable = window(1, 10, 10);
    unusable.capabilities.formats.clear();
    assert!(!unusable.is_presentable());
}

#[test]
fn resources_are_kept_under_their_keys() {
    let mut resources: Resources<&str> = Resources::new();
    assert!(!resources.contains(1));
    assert_eq!(resources.get(1), None);
    resources.insert(1, "one");
    resources.insert(2, "two");
    assert!(resources.contains(1));
    assert!(resources.contains(2));
    assert!(!resources.contains(3));
    assert_eq!(resources.get(1), Some(&"one"));
    assert_eq!(resources.get(2), Some(&"two"));
    assert_eq!(resources.get(3), None);
}

#[test]
fn a_resource_replaces_the_one_under_its_key() {
    let mut resources: Resources<u32> = Resources::new();
    resources.insert(7, 1);
    resources.insert(8, 2);
    resources.insert(7, 3);
    assert_eq!(resources.get(7), Some(&3));
    assert_eq!(resources.get(8), Some(&2));
}

#[test]
fn a_resource_can_be_changed_in_place() {
    let mut resources: Resources<Vec<u8>> = Resources::new();
    resources.insert(u64::MAX, vec![1]);
    resources.insert(0, vec![9]);
    resources.get_mut(u64::MAX).unwrap().push(2);
    assert_eq!(resources.get(u64::MAX), Some(&vec![1, 2]));
    assert_eq!(resources.get(0), Some(&vec![9]));
    assert!(resources.get_mut(5).is_none());
}

#[test]
fn windows_are_registered_and_forgotten() {
    let mut windows = Windows::new();
    assert_eq!(windows.len(), 0);
    assert_eq!(windows.request_redraw(), None);
    let a = windows.create(window(10, 100, 100));
    let b = windows.create(window(20, 200, 200));
    assert_eq!(a, CatWindow { id: WindowId(10) });
    assert!(windows.contains(&a));
    assert!(windows.contains(&b));
    assert!(!windows.contains(&CatWindow { id: WindowId(30) }));
    assert_eq!(windows.get(&b).unwrap().size, PhysicalSize::new(200, 200));
    assert!(windows.get(&CatWindow { id: WindowId(30) }).is_none());
    assert_eq!(windows.request_redraw(), Some(WindowId(10)));
    windows.delete(a);
    assert!(!windows.contains(&a));
    assert!(windows.contains(&b));
    assert_eq!(windows.request_redraw(), Some(WindowId(20)));
    windows.delete(a);
    assert_eq!(windows.len(), 1);
}

#[test]
fn a_window_registered_again_keeps_its_place() {
    let mut windows = Windows::new();
    windows.create(window(1, 10, 10));
    windows.create(window(2, 20, 20));
    windows.create(window(1, 30, 30));
    assert_eq!(windows.len(), 2);
    assert_eq!(windows.request_redraw(), Some(WindowId(1)));
    assert_eq!(windows.get(&CatWindow { id: WindowId(1) }).unwrap().size, PhysicalSize::new(30, 30));
}

#[test]
fn a_window_record_follows_its_size() {
    let mut windows = Windows::new();
    let a = windows.create(window(1, 10, 10));
    windows.resize(WindowId(1), PhysicalSize::new(0, 0));
    assert_eq!(windows.get(&a).unwrap().size, PhysicalSize::new(0, 0));
    windows.resize(WindowId(2), PhysicalSize::new(5, 5));
    assert_eq!(windows.len(), 1);
    assert_eq!(windows.get(&a).unwrap().capabilities, window(1, 1, 1).capabilities);
}

#[test]
fn a_fresh_context_asks_for_nothing() {
    let context = context();
    assert!(!context.exit_requested());
    assert_eq!(context.requested_loop_type(), None);
    assert_eq!(context.fps(), 0);
    assert_eq!(context.redraw_target(), None);
    assert!(context.get_renderer().commands().is_empty());
    assert!(!context.contains_resource(0));
}

#[test]
fn requests_are_noted_in_the_context() {
    let mut context = context();
    context.set_fps(60);
    assert_eq!(context.fps(), 60);
    context.change_loop_type(LoopType::Waiting);
    assert_eq!(context.requested_loop_type(), Some(LoopType::Waiting));
    context.change_loop_type(LoopType::Active);
    assert_eq!(context.requested_loop_type(), Some(LoopType::Active));
    assert!(!context.exit_requested());
    context.exit();
    assert!(context.exit_requested());
    let base = context.into_base();
    assert_eq!(base.fps, 60);
    let next = AppContext::new(base);
    assert!(!next.exit_requested());
    assert_eq!(next.requested_loop_type(), None);
    assert_eq!(next.fps(), 60);
}

#[test]
fn a_surface_is_bound_to_a_registered_window_only() {
    let mut context = context();
    let stranger = CatWindow { id: WindowId(5) };
    assert!(!context.exists_window(&stranger));
    assert_eq!(context.create_surface_for_window(&stranger), None);
    assert!(context.get_renderer().commands().is_empty());
    let handle = context.create_window(window(5, 300, 200));
    assert_eq!(handle, stranger);
    assert!(context.exists_window(&handle));
    assert_eq!(context.window(&handle).unwrap().size, PhysicalSize::new(300, 200));
    let surface = context.create_surface_for_window(&handle);
    assert_eq!(surface, Some(SurfaceId(0)));
    let bound = *context.get_renderer().get_surface(SurfaceId(0));
    assert_eq!(bound.window, WindowId(5));
    assert_eq!(bound.size, PhysicalSize::new(300, 200));
    assert_eq!(bound.config.format, TextureFormat::new(2, true));
    assert_eq!(bound.config.present_mode, PresentMode::Mailbox);
    assert_eq!(bound.config.alpha_mode, CompositeAlphaMode::PreMultiplied);
    assert_eq!((bound.config.width, bound.config.height), (300, 200));
    assert_eq!(bound.config.desired_maximum_frame_latency, 2);
}

#[test]
fn destroying_a_window_unbinds_its_surface() {
    let mut context = context();
    let a = context.create_window(window(1, 10, 10));
    let b = context.create_window(window(2, 10, 10));
    let sa = context.create_surface_for_window(&a).unwrap();
    let sb = context.create_surface_for_window(&b).unwrap();
    context.get_mut_renderer().take_commands();
    context.destroy_window(a);
    assert!(!context.exists_window(&a));
    assert!(context.exists_window(&b));
    assert!(!context.get_renderer().exists_surface(sa));
    assert!(context.get_renderer().exists_surface(sb));
    assert_eq!(
        context.get_renderer().commands().as_slice(),
        &[GpuCommand::DestroySurface { surface: sa }]
    );
    context.destroy_window(a);
    assert_eq!(context.get_renderer().commands().len(), 1);
}

#[test]
fn a_resize_reaches_the_window_and_its_surface() {
    let mut context = context();
    let a = context.create_window(window(1, 10, 10));
    let surface = context.create_surface_for_window(&a).unwrap();
    context.window_resized(&WindowId(1), PhysicalSize::new(64, 32));
    assert_eq!(context.window(&a).unwrap().size, PhysicalSize::new(64, 32));
    assert_eq!(context.get_renderer().get_surface(surface).size, PhysicalSize::new(64, 32));
    context.window_resized(&WindowId(1), PhysicalSize::new(0, 32));
    assert_eq!(context.window(&a).unwrap().size, PhysicalSize::new(0, 32));
    assert_eq!(context.get_renderer().get_surface(surface).size, PhysicalSize::new(64, 32));
}

#[test]
fn the_renderer_of_a_context_can_be_changed() {
    let mut context = context();
    let id = context.get_mut_renderer().create_pipeline(PipelineOptions::default());
    assert_eq!(context.get_renderer().pipeline_count(), 1);
    assert!(context.get_renderer().pipeline(id).is_some());
    let base = context.into_base();
    assert_eq!(base.renderer.pipeline_count(), 1);
}

#[test]
fn resources_of_a_context_are_kept_under_their_keys() {
    let mut context = context();
    context.insert_resource(3, "three".to_string());
    assert!(context.contains_resource(3));
    assert!(!context.contains_resource(4));
    assert_eq!(context.get_resource(3), Some(&"three".to_string()));
    assert_eq!(context.get_resource(4), None);
    context.get_mut_resource(3).unwrap().push('!');
    assert_eq!(context.get_resource(3).map(|s| s.as_str()), Some("three!"));
    assert!(context.get_mut_resource(4).is_none());
    let base = context.into_base();
    assert_eq!(base.resources.get(3).map(|s| s.as_str()), Some("three!"));
}
