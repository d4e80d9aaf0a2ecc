//! What the framework decides between the events of the windowing layer:
//! when the application is updated and rendered, where a resize goes, and
//! what is asked of the event loop afterwards.

use vstd::prelude::*;
use crate::app::{CatApp, LoopType};
use crate::context::{AppContext, AppContextView, StaticContext};
use crate::utils::timer::{frame_period, spec_frame_period, Timer};
use crate::window::{redraw_target, CatWindow, PhysicalSize, WindowId};

verus! {

/// The kinds of event that the framework itself acts on.
#[derive(Clone, Copy, PartialEq, Eq, Structural, Debug)]
pub enum WindowEventKind {
    /// A window is to be drawn anew.
    RedrawRequested,
    /// A window took a new size.
    Resized(PhysicalSize),
    /// Any other event.
    Other,
}

/// What the framework asks of the event loop after an event.
#[derive(Clone, Copy, PartialEq, Eq, Structural, Debug)]
pub struct TickOutcome {
    /// The window to ask for a redraw, if any.
    pub redraw: Option<WindowId>,
    /// Whether the application was updated and rendered.
    pub rendered: bool,
    /// Whether the event loop is to end.
    pub exit: bool,
    /// The way of waiting to change to, if any.
    pub loop_type: Option<LoopType>,
}

/// Whether the event loop is to end after an event: the application asked
/// for it, or the device context did while a frame was rendered.
pub open spec fn spec_exit_after(asked: bool, rendered: bool, needs_exit: bool) -> bool {
    asked || (rendered && needs_exit)
}

/// Whether the event loop is to end after an event.
#[verifier::when_used_as_spec(spec_exit_after)]
pub fn exit_after(asked: bool, rendered: bool, needs_exit: bool) -> (exit: bool)
    ensures
        exit == spec_exit_after(asked, rendered, needs_exit),
{
    asked || (rendered && needs_exit)
}

/// Whether an event of the kind `kind` at the time `now` is a frame: a
/// request to redraw that comes when the timer has ended.
pub open spec fn is_frame(kind: WindowEventKind, timer: Timer, now: u64) -> bool {
    kind is RedrawRequested && timer.ended_at(now)
}

/// The context as the application's handler finds it: after a resize the
/// registries have followed the window to its new size.
pub open spec fn before_handler<R>(
    context: AppContextView<R>,
    id: WindowId,
    kind: WindowEventKind,
) -> AppContextView<R> {
    match kind {
        WindowEventKind::Resized(size) => context.resized(id, size),
        _ => context,
    }
}

/// Whether handling `event` of the window `id` can take the application
/// `app` on `context` to `app_after` on `context_after`. In a frame the
/// application is updated first. Then the event is handed to it once, with
/// the handle of the window, on the context that has followed a resize.
/// In a frame the application renders last, on the device context that the
/// handler left.
pub open spec fn ticked<A: CatApp>(
    app: A,
    context: AppContextView<A::Resource>,
    id: WindowId,
    kind: WindowEventKind,
    event: A::Event,
    frame: bool,
    app_after: A,
    context_after: AppContextView<A::Resource>,
) -> bool {
    exists|
        app_updated: A,
        updated: AppContextView<A::Resource>,
        app_handled: A,
        handled: AppContextView<A::Resource>,
    |
        #![trigger A::handled(
            app_updated,
            event,
            CatWindow { id },
            before_handler(updated, id, kind),
            app_handled,
            handled,
        )]
        {
            &&& if frame {
                A::updated(app, context, app_updated, updated)
            } else {
                app_updated == app && updated == context
            }
            &&& A::handled(
                app_updated,
                event,
                CatWindow { id },
                before_handler(updated, id, kind),
                app_handled,
                handled,
            )
            &&& if frame {
                &&& A::rendered(app_handled, handled.renderer, app_after, context_after.renderer)
                &&& context_after == handled.with_renderer(context_after.renderer)
            } else {
                app_after == app_handled && context_after == handled
            }
        }
}

/// The application with what lives as long as it does, and the timer that
/// spaces its frames.
pub struct AppRunner<A: CatApp> {
    app: Option<A>,
    context: Option<StaticContext<A::Resource>>,
    fps_timer: Option<Timer>,
}

impl<A: CatApp> Default for AppRunner<A> {
    fn default() -> (runner: Self)
        ensures
            !runner.wf(),
    {
        Self { app: None, context: None, fps_timer: None }
    }
}

impl<A: CatApp> AppRunner<A> {
    /// The invariant once the application was made: the application, its
    /// context and its timer are there, and the context is well formed.
    pub closed spec fn wf(&self) -> bool {
        &&& self.app is Some
        &&& self.fps_timer is Some
        &&& self.context matches Some(context) && context.wf()
    }

    /// The application.
    pub closed spec fn app(&self) -> A {
        self.app->0
    }

    /// What lives as long as the application, as the application finds it
    /// at the next event.
    pub closed spec fn state(&self) -> AppContextView<A::Resource> {
        self.context->0@
    }

    /// The timer that spaces the frames.
    pub closed spec fn timer(&self) -> Timer {
        self.fps_timer->0
    }

    /// What lives as long as the application, once the application was
    /// made.
    pub fn context(&self) -> (context: Option<&StaticContext<A::Resource>>)
        ensures
            self.wf() ==> (context matches Some(c) && c.wf() && c@ == self.state()),
    {
        self.context.as_ref()
    }

    /// What lives as long as the application, to change it: to take the
    /// recorded commands out, or to register a window.
    pub fn context_mut(&mut self) -> (context: Option<&mut StaticContext<A::Resource>>)
        ensures
            old(self).wf() ==> (context matches Some(c) && c.wf() && c@ == old(self).state() && (
            final(c).wf() ==> final(self).wf()) && final(self).state() == final(c)@),
            final(self).timer() == old(self).timer(),
            final(self).app() == old(self).app(),
    {
        self.context.as_mut()
    }

    /// Makes the application, on a fresh context, and starts the timer that
    /// spaces its frames at the time `now`, with the period of the frame
    /// rate that the application asked for. The event loop is asked to end
    /// where the application asked for it while it was made, and to wait
    /// as the application said then, or else as its configuration says.
    pub fn resumed(&mut self, now: u64) -> (outcome: TickOutcome)
        ensures
            final(self).wf(),
            final(self).timer() == (Timer {
                start: now,
                dur: spec_frame_period(final(self).state().fps),
            }),
            outcome.redraw is None,
            !outcome.rendered,
            exists|after: AppContextView<A::Resource>|
                {
                    &&& #[trigger] A::made(AppContextView::fresh(), final(self).app(), after)
                    &&& final(self).state() == after.settled()
                    &&& outcome.exit == after.exit
                    &&& outcome.loop_type == Some(
                        match after.loop_type {
                            Some(loop_type) => loop_type,
                            None => A::configured().loop_type,
                        },
                    )
                },
    {
        let mut app_context = AppContext::new(StaticContext::new());
        let app = A::new(&mut app_context);
        let ghost after = app_context@;
        let exit = app_context.exit_requested();
        let asked = app_context.requested_loop_type();
        let context = app_context.into_base();
        self.fps_timer = Some(Timer::new(now, frame_period(context.fps)));
        self.app = Some(app);
        self.context = Some(context);
        let loop_type = match asked {
            Some(loop_type) => loop_type,
            None => A::config().loop_type,
        };
        proof {
            assert(A::made(AppContextView::fresh(), self.app(), after));
        }
        TickOutcome { redraw: None, rendered: false, exit, loop_type: Some(loop_type) }
    }

    /// Handles an event of the window `id` at the time `now`. A request to
    /// redraw asks the first registered window for the next redraw, and is
    /// a frame where the timer has ended. In a frame the application is
    /// updated before the event reaches it and renders after. A resize goes
    /// to the registries before the event reaches the application. The
    /// event reaches the application once, whether there is a frame or not.
    /// Afterwards the timer follows a change of the frame rate, and starts
    /// anew after a frame. The event loop is asked to end exactly where the
    /// application asked for it, or the device context asks for it after a
    /// frame, and to wait as the application asked, if it asked.
    pub fn window_event(&mut self, id: WindowId, kind: WindowEventKind, event: A::Event, now: u64)
        -> (outcome: TickOutcome)
        requires
            old(self).wf(),
        ensures
            final(self).wf(),
            outcome.redraw == if kind is RedrawRequested {
                redraw_target(old(self).state().windows)
            } else {
                None
            },
            outcome.rendered == is_frame(kind, old(self).timer(), now),
            final(self).timer() == old(self).timer().after_tick(
                old(self).state().fps,
                final(self).state().fps,
                outcome.rendered,
                now,
            ),
            exists|after: AppContextView<A::Resource>|
                {
                    &&& #[trigger] ticked::<A>(
                        old(self).app(),
                        old(self).state(),
                        id,
                        kind,
                        event,
                        outcome.rendered,
                        final(self).app(),
                        after,
                    )
                    &&& final(self).state() == after.settled()
                    &&& outcome.exit == spec_exit_after(
                        after.exit,
                        outcome.rendered,
                        after.renderer.needs_exit,
                    )
                    &&& outcome.loop_type == after.loop_type
                },
    {
        let mut redraw: Option<WindowId> = None;
        let mut rendered = false;
        let mut needs_exit = false;
        let base = match self.context.take() {
            Some(base) => base,
            None => StaticContext::new(),
        };
        let timer = match self.fps_timer {
            Some(timer) => timer,
            None => Timer::new(now, 0),
        };
        let fps = base.fps;
        let ghost event_seen = event;
        let ghost start = base@;
        let ghost mut app_updated = old(self).app();
        let ghost mut updated = start;
        let ghost mut app_handled = old(self).app();
        let ghost mut handled = start;
        let mut app_context = AppContext::new(base);
        match &mut self.app {
            Some(app) => {
                let frame = match kind {
                    WindowEventKind::RedrawRequested => {
                        redraw = app_context.redraw_target();
                        timer.is_ended(now)
                    },
                    _ => false,
                };
                if frame {
                    app.update(&mut app_context);
                }
                proof {
                    app_updated = *app;
                    updated = app_context@;
                }
                match kind {
                    WindowEventKind::Resized(physical_size) => {
                        app_context.window_resized(&id, physical_size);
                    },
                    _ => {},
                }
                app.window_event(event, &mut app_context, CatWindow { id });
                proof {
                    app_handled = *app;
                    handled = app_context@;
                }
                if frame {
                    app.render(app_context.get_mut_renderer());
                    needs_exit = app_context.get_renderer().needs_exit();
                    rendered = true;
                }
            },
            None => {},
        }
        let ghost after = app_context@;
        let exit = exit_after(app_context.exit_requested(), rendered, needs_exit);
        let loop_type = app_context.requested_loop_type();
        let context = app_context.into_base();
        self.fps_timer = Some(timer.next_tick(fps, context.fps, rendered, now));
        self.context = Some(context);
        proof {
            assert(A::handled(
                app_updated,
                event_seen,
                CatWindow { id },
                before_handler(updated, id, kind),
                app_handled,
                handled,
            ));
            assert(ticked::<A>(
                old(self).app(),
                start,
                id,
                kind,
                event_seen,
                rendered,
                self.app(),
                after,
            ));
        }
        let outcome = TickOutcome { redraw, rendered, exit, loop_type };
        proof {
            assert(ticked::<A>(
                old(self).app(),
                old(self).state(),
                id,
                kind,
                event,
                outcome.rendered,
                self.app(),
                after,
            ));
        }
        outcome
    }
}

} // verus!
