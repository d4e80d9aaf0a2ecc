//! The interface between the framework and the application that it hosts.

use vstd::prelude::*;
use crate::context::{AppContext, AppContextView};
use crate::render::{Renderer, RendererView};
use crate::window::CatWindow;

verus! {

/// How the event loop waits for the next event.
#[derive(Clone, Copy, PartialEq, Eq, Structural, Debug)]
pub enum LoopType {
    /// Poll without pause.
    Active,
    /// Block until the next event from outside.
    Waiting,
}

impl Default for LoopType {
    fn default() -> (loop_type: Self)
        ensures
            loop_type == LoopType::Active,
    {
        LoopType::Active
    }
}

/// How an application wants to be run.
#[derive(Clone, Copy, PartialEq, Eq, Structural, Debug)]
pub struct AppConfig {
    pub loop_type: LoopType,
}

impl Default for AppConfig {
    fn default() -> (config: Self)
        ensures
            config == (AppConfig { loop_type: LoopType::Active }),
    {
        AppConfig { loop_type: LoopType::Active }
    }
}

/// An application that the framework hosts. The framework makes it once,
/// and then calls it for every event. In every call the application keeps
/// what it is handed well formed; whatever it does through the operations
/// of the context and of the device context does so.
///
/// What a call does is the application's own business. It is named by a
/// relation between what was before the call and what is after it, one for
/// each operation, so that the framework can say which calls it made, on
/// what, and in which order. An application that says nothing of an
/// operation may do anything in it.
pub trait CatApp: Sized {
    /// The type of the application's resources.
    type Resource;

    /// What the windowing layer tells of an event, handed to the
    /// application as it came.
    type Event;

    /// How the application wants to be run.
    open spec fn configured() -> AppConfig {
        arbitrary()
    }

    /// Whether making the application on `context` can give `app` and
    /// leave `after`.
    open spec fn made(
        context: AppContextView<Self::Resource>,
        app: Self,
        after: AppContextView<Self::Resource>,
    ) -> bool {
        true
    }

    /// Whether an update of `before` on `context` can leave `after` and
    /// `context_after`.
    open spec fn updated(
        before: Self,
        context: AppContextView<Self::Resource>,
        after: Self,
        context_after: AppContextView<Self::Resource>,
    ) -> bool {
        true
    }

    /// Whether handing `event` of `window` to `before` on `context` can
    /// leave `after` and `context_after`.
    open spec fn handled(
        before: Self,
        event: Self::Event,
        window: CatWindow,
        context: AppContextView<Self::Resource>,
        after: Self,
        context_after: AppContextView<Self::Resource>,
    ) -> bool {
        true
    }

    /// Whether rendering `before` on `renderer` can leave `after` and
    /// `renderer_after`.
    open spec fn rendered(
        before: Self,
        renderer: RendererView,
        after: Self,
        renderer_after: RendererView,
    ) -> bool {
        true
    }

    /// How the application wants to be run.
    fn config() -> (config: AppConfig)
        ensures
            config == Self::configured(),
    ;

    /// Lets the application advance by one frame.
    fn update(&mut self, context: &mut AppContext<Self::Resource>)
        requires
            old(context).wf(),
        ensures
            final(context).wf(),
            Self::updated(*old(self), old(context)@, *final(self), final(context)@),
    ;

    /// Makes the application.
    fn new(context: &mut AppContext<Self::Resource>) -> (app: Self)
        requires
            old(context).wf(),
        ensures
            final(context).wf(),
            Self::made(old(context)@, app, final(context)@),
    ;

    /// Hands the application an event of a window.
    fn window_event(
        &mut self,
        event: Self::Event,
        context: &mut AppContext<Self::Resource>,
        window: CatWindow,
    )
        requires
            old(context).wf(),
        ensures
            final(context).wf(),
            Self::handled(*old(self), event, window, old(context)@, *final(self), final(context)@),
    ;

    /// Lets the application render a frame.
    fn render(&mut self, render: &mut Renderer)
        requires
            old(render).wf(),
        ensures
            final(render).wf(),
            Self::rendered(*old(self), old(render)@, *final(self), final(render)@),
    ;
}

} // verus!
