use cat_render::app::{AppConfig, CatApp, LoopType};
use cat_render::context::AppContext;
use cat_render::event_loop::{exit_after, TickOutcome, WindowEventKind, AppRunner};
use cat_render::render::render_pipeline::PipelineOptions;
use cat_render::render::surface::{CompositeAlphaMode, PresentMode, SurfaceCapabilities, SurfaceId};
use cat_render::render::texture::TextureFormat;
use cat_render::render::{Renderer, SurfaceAcquire};
use cat_render::window::{CatWindow, PhysicalSize, Window, WindowId};

fn window(id: u64) -> Window {
    Window {
        id: WindowId(id),
        size: PhysicalSize::new(100, 100),
        capabilities: SurfaceCapabilities {
            formats: vec![TextureFormat::new(1, true)],
            present_modes: vec![PresentMode::Fifo],
            alpha_modes: vec![CompositeAlphaMode::Auto],
        },
    }
}

#[derive(Debug, PartialEq, Clone)]
enum Call {
    Update,
    Event(&'static str, WindowId),
    Render,
}

#[derive(Clone, Copy, PartialEq)]
enum Wish {
    Nothing,
    Exit,
    Wait,
    Fps(u32),
    Starve,
}

struct Recorder {
    calls: Vec<Call>,
    surface: SurfaceId,
}

impl CatApp for Recorder {
    type Resource = u32;
    type Event = (&'static str, Wish);

    fn config() -> AppConfig {
        AppConfig { loop_type: LoopType::Waiting }
    }

    fn new(context: &mut AppContext<u32>) -> Self {
        let first = context.create_window(window(1));
        context.create_window(window(2));
        let surface = context.create_surface_for_window(&first).unwrap();
        context.get_mut_renderer().create_pipeline(PipelineOptions::default());
        context.insert_resource(0, 0);
        Recorder { calls: Vec::new(), surface }
    }

    fn update(&mut self, context: &mut AppContext<u32>) {
        self.calls.push(Call::Update);
        *context.get_mut_resource(0).unwrap() += 1;
    }

    fn window_event(&mut self, event: Self::Event, context: &mut AppContext<u32>, window: CatWindow) {
        self.calls.push(Call::Event(event.0, window.id));
        match event.1 {
            Wish::Nothing => {}
            Wish::Exit => context.exit(),
            Wish::Wait => context.change_loop_type(LoopType::Waiting),
            Wish::Fps(fps) => context.set_fps(fps),
            Wish::Starve => context.insert_resource(1, 1),
        }
    }

    fn render(&mut self, render: &mut Renderer) {
        self.calls.push(Call::Render);
        render.start_render_for_surface(
            self.surface,
            None,
            |_| SurfaceAcquire::Acquired {
                size: PhysicalSize::new(100, 100),
                format: TextureFormat::new(1, true),
            },
            |pass| pass.draw(0..3, 0..1),
        );
    }
}

struct Starving {
    starve: bool,
}

impl CatApp for Starving {
    type Resource = ();
    type Event = bool;

    fn config() -> AppConfig {
        AppConfig::default()
    }

    fn new(context: &mut AppContext<()>) -> Self {
        let first = context.create_window(window(1));
        context.create_surface_for_window(&first);
        context.set_fps(10);
        context.change_loop_type(LoopType::Waiting);
        context.exit();
        Starving { starve: false }
    }

    fn update(&mut self, _context: &mut AppContext<()>) {}

    fn window_event(&mut self, event: bool, _context: &mut AppContext<()>, _window: CatWindow) {
        self.starve = event;
    }

    fn render(&mut self, render: &mut Renderer) {
        let starve = self.starve;
        render.start_render_for_surface(
            SurfaceId(0),
            None,
            |_| if starve { SurfaceAcquire::OutOfMemory } else { SurfaceAcquire::Lost },
            |_| {},
        );
    }
}

fn calls(runner: &AppRunner<Recorder>) -> usize {
    *runner.context().unwrap().resources.get(0).unwrap() as usize
}

#[test]
fn the_event_loop_ends_when_asked_or_when_a_frame_starved() {
    assert!(exit_after(true, false, false));
    assert!(exit_after(true, true, true));
    assert!(exit_after(false, true, true));
    assert!(!exit_after(false, false, true));
    assert!(!exit_after(false, true, false));
    assert!(!exit_after(false, false, false));
}

#[test]
fn resuming_makes_the_application_on_a_fresh_context() {
    let mut runner: AppRunner<Recorder> = AppRunner::default();
    assert!(runner.context().is_none());
    let outcome = runner.resumed(1_000);
    assert_eq!(
        outcome,
        TickOutcome { redraw: None, rendered: false, exit: false, loop_type: Some(LoopType::Waiting) }
    );
    let context = runner.context().unwrap();
    assert_eq!(context.windows.len(), 2);
    assert_eq!(context.renderer.pipeline_count(), 1);
    assert!(context.renderer.exists_surface(SurfaceId(0)));
    assert_eq!(context.fps, 0);
}

#[test]
fn what_the_application_asks_while_it_is_made_is_passed_on() {
    let mut runner: AppRunner<Starving> = AppRunner::default();
    let outcome = runner.resumed(0);
    assert_eq!(
        outcome,
        TickOutcome { redraw: None, rendered: false, exit: true, loop_type: Some(LoopType::Waiting) }
    );
    assert_eq!(runner.context().unwrap().fps, 10);
    let early = runner.window_event(WindowId(1), WindowEventKind::RedrawRequested, false, 99_999_999);
    assert!(!early.rendered);
    let due = runner.window_event(WindowId(1), WindowEventKind::RedrawRequested, false, 100_000_000);
    assert!(due.rendered);
}

#[test]
fn a_frame_updates_then_hands_the_event_on_then_renders() {
    let mut runner: AppRunner<Recorder> = AppRunner::default();
    runner.resumed(0);
    runner.context_mut().unwrap().renderer.take_commands();
    let outcome =
        runner.window_event(WindowId(2), WindowEventKind::RedrawRequested, ("redraw", Wish::Nothing), 5);
    assert_eq!(
        outcome,
        TickOutcome { redraw: Some(WindowId(1)), rendered: true, exit: false, loop_type: None }
    );
    assert_eq!(calls(&runner), 1);
    let commands = runner.context_mut().unwrap().renderer.take_commands();
    assert_eq!(commands.len(), 2);
}

#[test]
fn other_events_reach_the_application_without_a_frame() {
    let mut runner: AppRunner<Recorder> = AppRunner::default();
    runner.resumed(0);
    runner.context_mut().unwrap().renderer.take_commands();
    let outcome = runner.window_event(WindowId(1), WindowEventKind::Other, ("key", Wish::Wait), 5);
    assert_eq!(
        outcome,
        TickOutcome { redraw: None, rendered: false, exit: false, loop_type: Some(LoopType::Waiting) }
    );
    assert_eq!(calls(&runner), 0);
    assert!(runner.context().unwrap().renderer.commands().is_empty());
    let outcome = runner.window_event(WindowId(1), WindowEventKind::Other, ("close", Wish::Exit), 6);
    assert!(outcome.exit);
    assert!(!outcome.rendered);
    let outcome = runner.window_event(WindowId(1), WindowEventKind::Other, ("key", Wish::Nothing), 7);
    assert!(!outcome.exit);
}

#[test]
fn the_frame_rate_skips_renders_but_not_events() {
    let mut runner: AppRunner<Recorder> = AppRunner::default();
    runner.resumed(0);
    let set = runner.window_event(WindowId(1), WindowEventKind::Other, ("rate", Wish::Fps(100)), 1);
    assert!(!set.rendered);
    let redraw = WindowEventKind::RedrawRequested;
    let early = runner.window_event(WindowId(1), redraw, ("a", Wish::Nothing), 9_999_999);
    assert!(!early.rendered);
    assert_eq!(early.redraw, Some(WindowId(1)));
    assert_eq!(calls(&runner), 0);
    let due = runner.window_event(WindowId(1), redraw, ("b", Wish::Nothing), 10_000_000);
    assert!(due.rendered);
    assert_eq!(calls(&runner), 1);
    let again = runner.window_event(WindowId(1), redraw, ("c", Wish::Nothing), 19_999_999);
    assert!(!again.rendered);
    let later = runner.window_event(WindowId(1), redraw, ("d", Wish::Nothing), 20_000_000);
    assert!(later.rendered);
    assert_eq!(calls(&runner), 2);
    runner.window_event(WindowId(1), WindowEventKind::Other, ("rate", Wish::Fps(0)), 20_000_001);
    let unlimited = runner.window_event(WindowId(1), redraw, ("e", Wish::Nothing), 20_000_002);
    assert!(unlimited.rendered);
}

#[test]
fn a_resize_reaches_the_registries_before_the_application() {
    let mut runner: AppRunner<Recorder> = AppRunner::default();
    runner.resumed(0);
    let size = PhysicalSize::new(50, 60);
    let outcome =
        runner.window_event(WindowId(1), WindowEventKind::Resized(size), ("size", Wish::Nothing), 1);
    assert!(!outcome.rendered);
    assert_eq!(outcome.redraw, None);
    let context = runner.context().unwrap();
    assert_eq!(context.renderer.get_surface(SurfaceId(0)).size, size);
    assert_eq!(context.windows.get(&CatWindow { id: WindowId(1) }).unwrap().size, size);
    let empty = PhysicalSize::new(0, 0);
    runner.window_event(WindowId(1), WindowEventKind::Resized(empty), ("size", Wish::Nothing), 2);
    let context = runner.context().unwrap();
    assert_eq!(context.renderer.get_surface(SurfaceId(0)).size, size);
    assert_eq!(context.windows.get(&CatWindow { id: WindowId(1) }).unwrap().size, empty);
}

#[test]
fn a_starved_frame_ends_the_event_loop() {
    let mut runner: AppRunner<Starving> = AppRunner::default();
    runner.resumed(0);
    let fine = runner.window_event(WindowId(1), WindowEventKind::RedrawRequested, false, 100_000_000);
    assert!(fine.rendered);
    assert!(!fine.exit);
    let starved =
        runner.window_event(WindowId(1), WindowEventKind::RedrawRequested, true, 200_000_000);
    assert!(starved.rendered);
    assert!(starved.exit);
    assert!(runner.context().unwrap().renderer.needs_exit());
}

struct Ordered {
    surface: SurfaceId,
}

impl CatApp for Ordered {
    type Resource = Vec<&'static str>;
    type Event = ();

    fn config() -> AppConfig {
        AppConfig::default()
    }

    fn new(context: &mut AppContext<Vec<&'static str>>) -> Self {
        let first = context.create_window(window(1));
        let surface = context.create_surface_for_window(&first).unwrap();
        context.insert_resource(0, Vec::new());
        Ordered { surface }
    }

    fn update(&mut self, context: &mut AppContext<Vec<&'static str>>) {
        context.get_mut_resource(0).unwrap().push("update");
    }

    fn window_event(
        &mut self,
        _event: (),
        context: &mut AppContext<Vec<&'static str>>,
        _window: CatWindow,
    ) {
        let submitted = context
            .get_renderer()
            .commands()
            .iter()
            .any(|c| matches!(c, cat_render::render::command::GpuCommand::Submit { .. }));
        context.get_mut_resource(0).unwrap().push(if submitted {
            "event after render"
        } else {
            "event before render"
        });
    }

    fn render(&mut self, render: &mut Renderer) {
        render.start_render_for_surface(
            self.surface,
            None,
            |_| SurfaceAcquire::Acquired {
                size: PhysicalSize::new(100, 100),
                format: TextureFormat::new(1, true),
            },
            |_| {},
        );
    }
}

#[test]
fn in_a_frame_the_event_comes_after_the_update_and_before_the_render() {
    let mut runner: AppRunner<Ordered> = AppRunner::default();
    runner.resumed(0);
    runner.context_mut().unwrap().renderer.take_commands();
    let outcome = runner.window_event(WindowId(1), WindowEventKind::RedrawRequested, (), 1);
    assert!(outcome.rendered);
    let context = runner.context().unwrap();
    assert_eq!(context.resources.get(0).unwrap(), &vec!["update", "event before render"]);
    assert_eq!(context.renderer.commands().len(), 2);
}

#[test]
fn the_calls_of_a_frame_come_in_their_order() {
    let mut context: AppContext<u32> = AppContext::new(cat_render::context::StaticContext::new());
    let mut app = Recorder::new(&mut context);
    app.update(&mut context);
    app.window_event(("x", Wish::Starve), &mut context, CatWindow { id: WindowId(1) });
    app.render(context.get_mut_renderer());
    assert_eq!(app.calls, vec![Call::Update, Call::Event("x", WindowId(1)), Call::Render]);
    assert!(context.contains_resource(1));
    assert_eq!(Recorder::config().loop_type, LoopType::Waiting);
}
