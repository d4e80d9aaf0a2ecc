//! What an application works with between two events: the windows, the
//! device context, the frame rate, its own resources, and its requests to
//! the event loop.

use vstd::prelude::*;
use crate::app::LoopType;
use crate::render::surface::{
    initial_config,
    release_commands,
    resize_commands,
    resized,
    surface_of_window,
    without_window,
    SurfaceId,
};
use crate::render::command::GpuCommandView;
use crate::render::{Renderer, RendererView};
use crate::window::{
    is_registered,
    redraw_target,
    registered,
    with_window,
    with_window_size,
    without_id,
    CatWindow,
    PhysicalSize,
    Window,
    WindowId,
    Windows,
};

verus! {

/// Whether a resource of `slots` has the key `key`.
pub open spec fn has_key<R>(slots: Seq<(u64, R)>, key: u64) -> bool {
    exists|i: int| 0 <= i < slots.len() && (#[trigger] slots[i]).0 == key
}

/// The place of the resource with the key `key`.
pub open spec fn index_of_key<R>(slots: Seq<(u64, R)>, key: u64) -> int {
    choose|i: int| 0 <= i < slots.len() && (#[trigger] slots[i]).0 == key
}

/// The resources of `slots`, each under its key.
pub open spec fn keyed<R>(slots: Seq<(u64, R)>) -> Map<u64, R> {
    Map::new(|key: u64| has_key(slots, key), |key: u64| slots[index_of_key(slots, key)].1)
}

/// Whether no key occurs twice among `slots`.
pub open spec fn distinct_keys<R>(slots: Seq<(u64, R)>) -> bool {
    forall|i: int, j: int|
        0 <= i < slots.len() && 0 <= j < slots.len() && i != j ==> (#[trigger] slots[i]).0 != (
        #[trigger] slots[j]).0
}

/// Where no key occurs twice, the resource at a place is the one under its
/// key.
proof fn lemma_keyed_at<R>(slots: Seq<(u64, R)>, i: int)
    requires
        distinct_keys(slots),
        0 <= i < slots.len(),
    ensures
        has_key(slots, slots[i].0),
        index_of_key(slots, slots[i].0) == i,
        keyed(slots).contains_key(slots[i].0),
        keyed(slots)[slots[i].0] == slots[i].1,
{
    let key = slots[i].0;
    assert(has_key(slots, key));
    let k = index_of_key(slots, key);
    assert(slots[k].0 == key);
    assert(k == i);
}

/// Replacing the resource at a place replaces the resource under its key.
proof fn lemma_keyed_update<R>(slots: Seq<(u64, R)>, i: int, value: R)
    requires
        distinct_keys(slots),
        0 <= i < slots.len(),
    ensures
        distinct_keys(slots.update(i, (slots[i].0, value))),
        keyed(slots.update(i, (slots[i].0, value))) == keyed(slots).insert(slots[i].0, value),
{
    let key = slots[i].0;
    let after = slots.update(i, (key, value));
    assert(distinct_keys(after)) by {
        assert forall|a: int, b: int|
            0 <= a < after.len() && 0 <= b < after.len() && a != b implies (#[trigger] after[a]).0
            != (#[trigger] after[b]).0 by {
            assert(after[a].0 == slots[a].0);
            assert(after[b].0 == slots[b].0);
        }
    }
    assert forall|k: u64| has_key(after, k) <==> (has_key(slots, k) || k == key) by {
        if has_key(after, k) {
            let a = index_of_key(after, k);
            assert(slots[a].0 == k);
        }
        if has_key(slots, k) {
            let a = index_of_key(slots, k);
            assert(after[a].0 == k);
        }
        if k == key {
            assert(after[i].0 == k);
        }
    }
    assert forall|k: u64| has_key(after, k) implies #[trigger] keyed(after)[k] == keyed(
        slots,
    ).insert(key, value)[k] by {
        let a = index_of_key(after, k);
        lemma_keyed_at(after, a);
        if k != key {
            assert(slots[a].0 == k);
            lemma_keyed_at(slots, a);
        } else {
            assert(after[i].0 == key);
            assert(a == i);
        }
    }
    assert(keyed(after) =~= keyed(slots).insert(key, value));
}

/// Adding a resource under a new key adds it to the map.
proof fn lemma_keyed_push<R>(slots: Seq<(u64, R)>, key: u64, value: R)
    requires
        distinct_keys(slots),
        !has_key(slots, key),
    ensures
        distinct_keys(slots.push((key, value))),
        keyed(slots.push((key, value))) == keyed(slots).insert(key, value),
{
    let after = slots.push((key, value));
    let n = slots.len() as int;
    assert(distinct_keys(after)) by {
        assert forall|a: int, b: int|
            0 <= a < after.len() && 0 <= b < after.len() && a != b implies (#[trigger] after[a]).0
            != (#[trigger] after[b]).0 by {
            if a < n && b < n {
                assert(after[a] == slots[a]);
                assert(after[b] == slots[b]);
            } else if a < n {
                assert(after[a] == slots[a]);
                assert(slots[a].0 != key);
            } else {
                assert(after[b] == slots[b]);
                assert(slots[b].0 != key);
            }
        }
    }
    assert forall|k: u64| has_key(after, k) <==> (has_key(slots, k) || k == key) by {
        if has_key(after, k) {
            let a = index_of_key(after, k);
            if a < n {
                assert(slots[a].0 == k);
            }
        }
        if has_key(slots, k) {
            let a = index_of_key(slots, k);
            assert(after[a].0 == k);
        }
        if k == key {
            assert(after[n].0 == k);
        }
    }
    assert forall|k: u64| has_key(after, k) implies #[trigger] keyed(after)[k] == keyed(
        slots,
    ).insert(key, value)[k] by {
        let a = index_of_key(after, k);
        lemma_keyed_at(after, a);
        if k != key {
            assert(a < n);
            assert(slots[a].0 == k);
            lemma_keyed_at(slots, a);
        } else {
            assert(after[n].0 == key);
            assert(a == n);
        }
    }
    assert(keyed(after) =~= keyed(slots).insert(key, value));
}

/// The resources of an application, each under a key of the application's
/// choosing. The application picks one type for all of them; where it needs
/// resources of several kinds, that type is a sum of the kinds.
pub struct Resources<R> {
    resources: Vec<(u64, R)>,
}

impl<R> View for Resources<R> {
    type V = Map<u64, R>;

    closed spec fn view(&self) -> Map<u64, R> {
        keyed(self.resources@)
    }
}

impl<R> Resources<R> {
    /// The invariant of the resources: no key is stored twice.
    pub closed spec fn wf(&self) -> bool {
        distinct_keys(self.resources@)
    }

    /// The place of the resource with the key `key`.
    fn find(&self, key: u64) -> (found: Option<usize>)
        requires
            self.wf(),
        ensures
            match found {
                Some(i) => {
                    &&& i < self.resources@.len()
                    &&& self.resources@[i as int].0 == key
                    &&& self@.contains_key(key)
                    &&& self@[key] == self.resources@[i as int].1
                },
                None => !self@.contains_key(key) && !has_key(self.resources@, key),
            },
    {
        let mut i: usize = 0;
        while i < self.resources.len()
            invariant
                self.wf(),
                i <= self.resources@.len(),
                forall|j: int| 0 <= j < i ==> (#[trigger] self.resources@[j]).0 != key,
            decreases self.resources@.len() - i,
        {
            if self.resources[i].0 == key {
                proof {
                    lemma_keyed_at(self.resources@, i as int);
                }
                return Some(i);
            }
            i = i + 1;
        }
        None
    }

    /// No resources.
    pub fn new() -> (resources: Self)
        ensures
            resources.wf(),
            resources@ == Map::<u64, R>::empty(),
    {
        let resources = Resources { resources: Vec::new() };
        assert(resources@ =~= Map::<u64, R>::empty());
        resources
    }

    /// Stores a resource under `key`, in place of the one that was there.
    pub fn insert(&mut self, key: u64, res: R)
        requires
            old(self).wf(),
        ensures
            final(self).wf(),
            final(self)@ == old(self)@.insert(key, res),
    {
        match self.find(key) {
            Some(i) => {
                proof {
                    lemma_keyed_update(self.resources@, i as int, res);
                }
                self.resources.set(i, (key, res));
            },
            None => {
                proof {
                    lemma_keyed_push(self.resources@, key, res);
                }
                self.resources.push((key, res));
            },
        }
    }

    /// Whether a resource is stored under `key`.
    pub fn contains(&self, key: u64) -> (r: bool)
        requires
            self.wf(),
        ensures
            r == self@.contains_key(key),
    {
        self.find(key).is_some()
    }

    /// The resource stored under `key`, if there is one.
    pub fn get(&self, key: u64) -> (res: Option<&R>)
        requires
            self.wf(),
        ensures
            match res {
                Some(r) => self@.contains_key(key) && *r == self@[key],
                None => !self@.contains_key(key),
            },
    {
        match self.find(key) {
            Some(i) => Some(&self.resources[i].1),
            None => None,
        }
    }

    /// The resource stored under `key`, if there is one, to change it in
    /// place.
    pub fn get_mut(&mut self, key: u64) -> (res: Option<&mut R>)
        requires
            old(self).wf(),
        ensures
            final(self).wf(),
            match res {
                Some(r) => {
                    &&& old(self)@.contains_key(key)
                    &&& *r == old(self)@[key]
                    &&& final(self)@ == old(self)@.insert(key, *final(r))
                },
                None => !old(self)@.contains_key(key) && final(self)@ == old(self)@,
            },
    {
        match self.find(key) {
            Some(i) => {
                proof {
                    assert forall|value: R|
                        #![trigger old(self).resources@.update(i as int, (key, value))]
                        distinct_keys(old(self).resources@.update(i as int, (key, value)))
                            && keyed(old(self).resources@.update(i as int, (key, value))) == old(
                            self,
                        )@.insert(key, value) by {
                        lemma_keyed_update(old(self).resources@, i as int, value);
                    }
                }
                let entry = &mut self.resources[i];
                Some(&mut entry.1)
            },
            None => None,
        }
    }
}

/// What lives as long as the application: the windows, the device context,
/// the frame rate that the application asks for (zero for no limit), and
/// the application's resources.
pub struct StaticContext<R> {
    pub windows: Windows,
    pub renderer: Renderer,
    pub fps: u32,
    pub resources: Resources<R>,
}

impl<R> View for StaticContext<R> {
    type V = AppContextView<R>;

    /// What the context holds, as an application finds it at the next
    /// event: with no request made yet.
    open spec fn view(&self) -> AppContextView<R> {
        AppContextView {
            windows: self.windows@,
            renderer: self.renderer@,
            fps: self.fps,
            resources: self.resources@,
            exit: false,
            loop_type: None,
        }
    }
}

impl<R> StaticContext<R> {
    /// The invariant of the context: that of its parts.
    pub open spec fn wf(&self) -> bool {
        &&& self.windows.wf()
        &&& self.renderer.wf()
        &&& self.resources.wf()
    }

    /// A context with no window, an empty device context, no limit on the
    /// frame rate and no resources.
    pub fn new() -> (context: Self)
        ensures
            context.wf(),
            context@ == AppContextView::<R>::fresh(),
    {
        StaticContext {
            fps: 0,
            windows: Windows::new(),
            renderer: Renderer::new(),
            resources: Resources::new(),
        }
    }
}

/// What an application works with while it handles one event.
pub struct AppContext<R> {
    base: StaticContext<R>,
    exit: bool,
    loop_type: Option<LoopType>,
}

/// What an [`AppContext`] holds.
pub struct AppContextView<R> {
    /// The registered windows, in the order in which they were first
    /// registered.
    pub windows: Seq<Window>,
    pub renderer: RendererView,
    /// The frame rate that the application asks for; zero for no limit.
    pub fps: u32,
    pub resources: Map<u64, R>,
    /// Whether the application asked to end.
    pub exit: bool,
    /// The way of waiting that the application asked for last, if it asked.
    pub loop_type: Option<LoopType>,
}

impl<R> AppContextView<R> {
    /// The context on which an application is made: no window, an empty
    /// device context, no limit on the frame rate, no resources, and no
    /// request.
    pub open spec fn fresh() -> AppContextView<R> {
        AppContextView {
            windows: Seq::empty(),
            renderer: RendererView::empty(),
            fps: 0,
            resources: Map::empty(),
            exit: false,
            loop_type: None,
        }
    }

    /// The context for the next event: what lives on, with no request made
    /// yet.
    pub open spec fn settled(self) -> AppContextView<R> {
        AppContextView { exit: false, loop_type: None, ..self }
    }

    /// The context with another device context.
    pub open spec fn with_renderer(self, renderer: RendererView) -> AppContextView<R> {
        AppContextView { renderer, ..self }
    }

    /// The context after the window `window_id` took the size `new_size`:
    /// the window's record has the size, and the window's surface has it
    /// where it covers at least one pixel, with one configuration recorded.
    pub open spec fn resized(self, window_id: WindowId, new_size: PhysicalSize) -> AppContextView<
        R,
    > {
        AppContextView {
            windows: with_window_size(self.windows, window_id, new_size),
            renderer: RendererView {
                surfaces: resized(self.renderer.surfaces, window_id, new_size),
                commands: self.renderer.commands + resize_commands(
                    self.renderer.surfaces,
                    window_id,
                    new_size,
                ),
                ..self.renderer
            },
            ..self
        }
    }
}

impl<R> View for AppContext<R> {
    type V = AppContextView<R>;

    closed spec fn view(&self) -> AppContextView<R> {
        AppContextView {
            windows: self.base.windows@,
            renderer: self.base.renderer@,
            fps: self.base.fps,
            resources: self.base.resources@,
            exit: self.exit,
            loop_type: self.loop_type,
        }
    }
}

impl<R> AppContext<R> {
    /// The invariant of the context: that of what it holds.
    pub closed spec fn wf(&self) -> bool {
        self.base.wf()
    }

    /// The context for one event, with no request made yet.
    pub fn new(base: StaticContext<R>) -> (context: Self)
        ensures
            context.wf() == base.wf(),
            context@ == base@,
    {
        Self { base, exit: false, loop_type: None }
    }

    /// Gives back what lives on after the event.
    pub fn into_base(self) -> (base: StaticContext<R>)
        ensures
            base.wf() == self.wf(),
            base@ == self@.settled(),
    {
        self.base
    }

    /// Whether the application asked to end.
    pub fn exit_requested(&self) -> (r: bool)
        ensures
            r == self@.exit,
    {
        self.exit
    }

    /// The way of waiting that the application asked for last, if it asked.
    pub fn requested_loop_type(&self) -> (r: Option<LoopType>)
        ensures
            r == self@.loop_type,
    {
        self.loop_type
    }

    /// The frame rate that the application asks for; zero for no limit.
    pub fn fps(&self) -> (fps: u32)
        ensures
            fps == self@.fps,
    {
        self.base.fps
    }

    /// Asks for a frame rate; zero for no limit.
    pub fn set_fps(&mut self, fps: u32)
        ensures
            final(self).wf() == old(self).wf(),
            final(self)@ == (AppContextView { fps, ..old(self)@ }),
    {
        self.base.fps = fps;
    }

    /// Asks to end the application.
    pub fn exit(&mut self)
        ensures
            final(self).wf() == old(self).wf(),
            final(self)@ == (AppContextView { exit: true, ..old(self)@ }),
    {
        self.exit = true;
    }

    /// Asks the event loop to wait in another way from now on.
    pub fn change_loop_type(&mut self, loop_type: LoopType)
        ensures
            final(self).wf() == old(self).wf(),
            final(self)@ == (AppContextView { loop_type: Some(loop_type), ..old(self)@ }),
    {
        self.loop_type = Some(loop_type);
    }

    /// Registers a window that the windowing layer has created, and returns
    /// the handle by which the application names it.
    pub fn create_window(&mut self, window: Window) -> (handle: CatWindow)
        requires
            old(self).wf(),
            window.presentable(),
        ensures
            final(self).wf(),
            handle.id == window.id,
            registered(final(self)@.windows, window.id) == Some(window),
            final(self)@ == (AppContextView {
                windows: with_window(old(self)@.windows, window),
                ..old(self)@
            }),
    {
        self.base.windows.create(window)
    }

    /// Forgets a window that was closed, and unbinds its surface.
    pub fn destroy_window(&mut self, window: CatWindow)
        requires
            old(self).wf(),
        ensures
            final(self).wf(),
            !is_registered(final(self)@.windows, window.id),
            final(self)@ == (AppContextView {
                windows: without_id(old(self)@.windows, window.id),
                renderer: RendererView {
                    surfaces: without_window(old(self)@.renderer.surfaces, window.id),
                    commands: old(self)@.renderer.commands + release_commands(
                        surface_of_window(old(self)@.renderer.surfaces, window.id),
                    ),
                    ..old(self)@.renderer
                },
                ..old(self)@
            }),
    {
        self.base.windows.delete(window);
        self.base.renderer.on_close(&window.id);
    }

    /// Whether `window` names a registered window.
    pub fn exists_window(&self, window: &CatWindow) -> (r: bool)
        requires
            self.wf(),
        ensures
            r == is_registered(self@.windows, window.id),
    {
        self.base.windows.contains(window)
    }

    /// The registered window that `window` names, if there is one.
    pub fn window(&self, window: &CatWindow) -> (found: Option<&Window>)
        requires
            self.wf(),
        ensures
            match found {
                Some(w) => registered(self@.windows, window.id) == Some(*w),
                None => registered(self@.windows, window.id) is None,
            },
    {
        self.base.windows.get(window)
    }

    /// The device context, to change it.
    pub fn get_mut_renderer(&mut self) -> (renderer: &mut Renderer)
        ensures
            renderer@ == old(self)@.renderer,
            old(self).wf() ==> renderer.wf(),
            final(self)@ == (AppContextView { renderer: final(renderer)@, ..old(self)@ }),
            old(self).wf() && final(renderer).wf() ==> final(self).wf(),
    {
        &mut self.base.renderer
    }

    /// The device context.
    pub fn get_renderer(&self) -> (renderer: &Renderer)
        ensures
            renderer@ == self@.renderer,
            self.wf() ==> renderer.wf(),
    {
        &self.base.renderer
    }

    /// Binds a surface to a registered window, as
    /// [`Renderer::create_surface`] says. A window that is not registered
    /// gets no surface, and nothing changes.
    pub fn create_surface_for_window(&mut self, window: &CatWindow) -> (id: Option<SurfaceId>)
        requires
            old(self).wf(),
            old(self)@.renderer.last_surface_id < u32::MAX,
        ensures
            final(self).wf(),
            match registered(old(self)@.windows, window.id) {
                None => id is None && final(self)@ == old(self)@,
                Some(w) => {
                    let surfaces = final(self)@.renderer.surfaces;
                    &&& id == Some(SurfaceId(old(self)@.renderer.last_surface_id))
                    &&& surfaces.len() == without_window(
                        old(self)@.renderer.surfaces,
                        window.id,
                    ).len() + 1
                    &&& surfaces.drop_last() == without_window(
                        old(self)@.renderer.surfaces,
                        window.id,
                    )
                    &&& surfaces.last().id == id->0
                    &&& surfaces.last().window == window.id
                    &&& surfaces.last().size == w.size
                    &&& initial_config(&w, surfaces.last().config)
                    &&& final(self)@ == (AppContextView {
                        renderer: RendererView {
                            surfaces,
                            last_surface_id: (old(self)@.renderer.last_surface_id + 1) as u32,
                            commands: old(self)@.renderer.commands + release_commands(
                                surface_of_window(old(self)@.renderer.surfaces, window.id),
                            ) + seq![
                                GpuCommandView::CreateSurface {
                                    surface: id->0,
                                    window: window.id,
                                    config: surfaces.last().config,
                                },
                            ],
                            ..old(self)@.renderer
                        },
                        ..old(self)@
                    })
                },
            },
    {
        match self.base.windows.get(window) {
            Some(w) => Some(self.base.renderer.create_surface(w)),
            None => None,
        }
    }

    /// The window to ask for a redraw, if any window is registered: the one
    /// registered first.
    pub fn redraw_target(&self) -> (target: Option<WindowId>)
        ensures
            target == redraw_target(self@.windows),
    {
        self.base.windows.request_redraw()
    }

    /// Follows a window to its new size: the window's record takes the
    /// size, and so does the window's surface, as [`Renderer::on_resize`]
    /// says.
    pub fn window_resized(&mut self, window_id: &WindowId, new_size: PhysicalSize)
        requires
            old(self).wf(),
        ensures
            final(self).wf(),
            final(self)@ == old(self)@.resized(*window_id, new_size),
    {
        self.base.windows.resize(*window_id, new_size);
        self.base.renderer.on_resize(window_id, new_size);
    }

    /// Stores a resource under `key`, in place of the one that was there.
    pub fn insert_resource(&mut self, key: u64, res: R)
        requires
            old(self).wf(),
        ensures
            final(self).wf(),
            final(self)@ == (AppContextView {
                resources: old(self)@.resources.insert(key, res),
                ..old(self)@
            }),
    {
        self.base.resources.insert(key, res);
    }

    /// Whether a resource is stored under `key`.
    pub fn contains_resource(&self, key: u64) -> (r: bool)
        requires
            self.wf(),
        ensures
            r == self@.resources.contains_key(key),
    {
        self.base.resources.contains(key)
    }

    /// The resource stored under `key`, if there is one.
    pub fn get_resource(&self, key: u64) -> (res: Option<&R>)
        requires
            self.wf(),
        ensures
            match res {
                Some(r) => self@.resources.contains_key(key) && *r == self@.resources[key],
                None => !self@.resources.contains_key(key),
            },
    {
        self.base.resources.get(key)
    }

    /// The resource stored under `key`, if there is one, to change it in
    /// place.
    pub fn get_mut_resource(&mut self, key: u64) -> (res: Option<&mut R>)
        requires
            old(self).wf(),
        ensures
            final(self).wf(),
            match res {
                Some(r) => {
                    &&& old(self)@.resources.contains_key(key)
                    &&& *r == old(self)@.resources[key]
                    &&& final(self)@ == (AppContextView {
                        resources: old(self)@.resources.insert(key, *final(r)),
                        ..old(self)@
                    })
                },
                None => !old(self)@.resources.contains_key(key) && final(self)@ == old(self)@,
            },
    {
        self.base.resources.get_mut(key)
    }
}

} // verus!
