//! Rendering surfaces and the registry that binds them to windows.

use vstd::prelude::*;
use crate::render::command::{CommandQueue, GpuCommand, GpuCommandView};
use crate::render::texture::{TextureFormat, TextureUsages, TEXTURE_RENDER_ATTACHMENT};
use crate::window::{PhysicalSize, Window, WindowId};

verus! {

/// When a presented image reaches the screen.
#[derive(Clone, Copy, PartialEq, Eq, Structural, Hash, Debug)]
pub enum PresentMode {
    AutoVsync,
    AutoNoVsync,
    Fifo,
    FifoRelaxed,
    Immediate,
    Mailbox,
}

/// How the alpha channel of a presented image is composed.
#[derive(Clone, Copy, PartialEq, Eq, Structural, Hash, Debug)]
pub enum CompositeAlphaMode {
    Auto,
    Opaque,
    PreMultiplied,
    PostMultiplied,
    Inherit,
}

/// How a device can present to a window, most preferred first.
#[derive(Clone, Debug, PartialEq, Eq)]
pub struct SurfaceCapabilities {
    pub formats: Vec<TextureFormat>,
    pub present_modes: Vec<PresentMode>,
    pub alpha_modes: Vec<CompositeAlphaMode>,
}

impl SurfaceCapabilities {
    /// Capabilities from which a configuration can be chosen: each list
    /// offers at least one choice.
    pub open spec fn usable(&self) -> bool {
        &&& self.formats@.len() > 0
        &&& self.present_modes@.len() > 0
        &&& self.alpha_modes@.len() > 0
    }

    /// Whether a configuration can be chosen from these capabilities.
    pub fn is_usable(&self) -> (r: bool)
        ensures
            r == self.usable(),
    {
        self.formats.len() > 0 && self.present_modes.len() > 0 && self.alpha_modes.len() > 0
    }
}

/// The configuration of a rendering surface.
#[derive(Clone, Copy, PartialEq, Eq, Structural, Hash, Debug)]
pub struct SurfaceConfiguration {
    pub usage: TextureUsages,
    pub format: TextureFormat,
    pub width: u32,
    pub height: u32,
    pub present_mode: PresentMode,
    pub alpha_mode: CompositeAlphaMode,
    pub desired_maximum_frame_latency: u32,
}

/// The identity of a rendering surface.
#[derive(Clone, Copy, PartialEq, Eq, Structural, Hash, Debug)]
pub struct SurfaceId(pub u32);

/// A rendering surface bound to a window.
#[derive(Clone, Copy, PartialEq, Eq, Structural, Hash, Debug)]
pub struct CatSurface {
    pub id: SurfaceId,
    pub window: WindowId,
    pub size: PhysicalSize,
    pub config: SurfaceConfiguration,
}

/// Whether `i` is the place of the first sRGB format of `formats`.
pub open spec fn first_srgb_at(formats: Seq<TextureFormat>, i: int) -> bool {
    &&& 0 <= i < formats.len()
    &&& formats[i].srgb
    &&& forall|j: int| 0 <= j < i ==> !(#[trigger] formats[j]).srgb
}

/// Whether `format` is the one to present in: the first sRGB format of
/// `formats`, or the very first format where none is sRGB.
pub open spec fn preferred_format(formats: Seq<TextureFormat>, format: TextureFormat) -> bool {
    if exists|i: int| 0 <= i < formats.len() && (#[trigger] formats[i]).srgb {
        exists|i: int| first_srgb_at(formats, i) && formats[i] == format
    } else {
        formats.len() > 0 && format == formats[0]
    }
}

/// Picks the format to present in: the first sRGB format on offer, or the
/// very first format where none is sRGB.
pub fn choose_format(formats: &Vec<TextureFormat>) -> (format: TextureFormat)
    requires
        formats@.len() > 0,
    ensures
        preferred_format(formats@, format),
{
    let mut i: usize = 0;
    while i < formats.len()
        invariant
            i <= formats@.len(),
            forall|j: int| 0 <= j < i ==> !(#[trigger] formats@[j]).srgb,
        decreases formats@.len() - i,
    {
        if formats[i].srgb {
            assert(first_srgb_at(formats@, i as int));
            return formats[i];
        }
        i = i + 1;
    }
    formats[0]
}

/// The configuration that a surface gets when it is bound to `window`: the
/// preferred format, the window's size, the first present mode and the first
/// alpha mode on offer.
pub open spec fn initial_config(window: &Window, config: SurfaceConfiguration) -> bool {
    &&& config.usage == (TextureUsages { bits: TEXTURE_RENDER_ATTACHMENT })
    &&& preferred_format(window.capabilities.formats@, config.format)
    &&& config.width == window.size.width
    &&& config.height == window.size.height
    &&& config.present_mode == window.capabilities.present_modes@[0]
    &&& config.alpha_mode == window.capabilities.alpha_modes@[0]
    &&& config.desired_maximum_frame_latency == 2
}

/// Whether a surface of `surfaces` has the identity `id`.
pub open spec fn has_surface(surfaces: Seq<CatSurface>, id: SurfaceId) -> bool {
    exists|i: int| 0 <= i < surfaces.len() && (#[trigger] surfaces[i]).id == id
}

/// Whether a surface of `surfaces` is bound to `window`.
pub open spec fn has_window(surfaces: Seq<CatSurface>, window: WindowId) -> bool {
    exists|i: int| 0 <= i < surfaces.len() && (#[trigger] surfaces[i]).window == window
}

/// The place of the surface with the identity `id`.
pub open spec fn index_of_surface(surfaces: Seq<CatSurface>, id: SurfaceId) -> int {
    choose|i: int| 0 <= i < surfaces.len() && (#[trigger] surfaces[i]).id == id
}

/// The place of the surface bound to `window`.
pub open spec fn index_of_window(surfaces: Seq<CatSurface>, window: WindowId) -> int {
    choose|i: int| 0 <= i < surfaces.len() && (#[trigger] surfaces[i]).window == window
}

/// The surface with the identity `id`, if there is one.
pub open spec fn surface_entry(surfaces: Seq<CatSurface>, id: SurfaceId) -> Option<CatSurface> {
    if has_surface(surfaces, id) {
        Some(surfaces[index_of_surface(surfaces, id)])
    } else {
        None
    }
}

/// The surface bound to `window`, if there is one.
pub open spec fn surface_of_window(surfaces: Seq<CatSurface>, window: WindowId) -> Option<
    CatSurface,
> {
    if has_window(surfaces, window) {
        Some(surfaces[index_of_window(surfaces, window)])
    } else {
        None
    }
}

/// The surfaces without the one bound to `window`.
pub open spec fn without_window(surfaces: Seq<CatSurface>, window: WindowId) -> Seq<CatSurface> {
    if has_window(surfaces, window) {
        surfaces.remove(index_of_window(surfaces, window))
    } else {
        surfaces
    }
}

/// The surfaces without the one with the identity `id`.
pub open spec fn without_surface(surfaces: Seq<CatSurface>, id: SurfaceId) -> Seq<CatSurface> {
    if has_surface(surfaces, id) {
        surfaces.remove(index_of_surface(surfaces, id))
    } else {
        surfaces
    }
}

/// The command that releases `surface`, where there is such a surface.
pub open spec fn release_commands(surface: Option<CatSurface>) -> Seq<GpuCommandView> {
    match surface {
        Some(s) => seq![GpuCommandView::DestroySurface { surface: s.id }],
        None => Seq::empty(),
    }
}

/// A surface after its window took the size `size`.
pub open spec fn with_size(surface: CatSurface, size: PhysicalSize) -> CatSurface {
    CatSurface {
        id: surface.id,
        window: surface.window,
        size,
        config: SurfaceConfiguration {
            usage: surface.config.usage,
            format: surface.config.format,
            width: size.width,
            height: size.height,
            present_mode: surface.config.present_mode,
            alpha_mode: surface.config.alpha_mode,
            desired_maximum_frame_latency: surface.config.desired_maximum_frame_latency,
        },
    }
}

/// Whether a resize of `window` to `size` takes effect: the window has a
/// surface and the size covers at least one pixel.
pub open spec fn resize_applies(
    surfaces: Seq<CatSurface>,
    window: WindowId,
    size: PhysicalSize,
) -> bool {
    has_window(surfaces, window) && !size.is_empty()
}

/// The surfaces after `window` took the size `size`.
pub open spec fn resized(surfaces: Seq<CatSurface>, window: WindowId, size: PhysicalSize) -> Seq<
    CatSurface,
> {
    if resize_applies(surfaces, window, size) {
        let i = index_of_window(surfaces, window);
        surfaces.update(i, with_size(surfaces[i], size))
    } else {
        surfaces
    }
}

/// The commands that a resize of `window` to `size` records: one
/// configuration of the window's surface where the resize takes effect.
pub open spec fn resize_commands(
    surfaces: Seq<CatSurface>,
    window: WindowId,
    size: PhysicalSize,
) -> Seq<GpuCommandView> {
    if resize_applies(surfaces, window, size) {
        let surface = with_size(surfaces[index_of_window(surfaces, window)], size);
        seq![GpuCommandView::ConfigureSurface { surface: surface.id, config: surface.config }]
    } else {
        Seq::empty()
    }
}

/// The invariant of a registry that holds `surfaces` and hands out `last_id`
/// next: no identity and no window occurs twice, every identity was handed
/// out, and every surface is configured to its size.
pub open spec fn surfaces_wf(surfaces: Seq<CatSurface>, last_id: u32) -> bool {
    &&& forall|i: int|
        0 <= i < surfaces.len() ==> {
            &&& (#[trigger] surfaces[i]).id.0 < last_id
            &&& surfaces[i].config.width == surfaces[i].size.width
            &&& surfaces[i].config.height == surfaces[i].size.height
        }
    &&& forall|i: int, j: int|
        0 <= i < surfaces.len() && 0 <= j < surfaces.len() && i != j ==> {
            &&& (#[trigger] surfaces[i]).id != (#[trigger] surfaces[j]).id
            &&& surfaces[i].window != surfaces[j].window
        }
}

/// The registry of rendering surfaces: at most one per window. Identities
/// are handed out in rising order and never again.
pub struct Surfaces {
    surfaces: Vec<CatSurface>,
    last_id: u32,
}

impl View for Surfaces {
    type V = Seq<CatSurface>;

    closed spec fn view(&self) -> Seq<CatSurface> {
        self.surfaces@
    }
}

impl Surfaces {
    /// The identity that the next bound surface gets.
    pub closed spec fn last_id(&self) -> u32 {
        self.last_id
    }

    /// The registry's invariant.
    pub open spec fn wf(&self) -> bool {
        surfaces_wf(self@, self.last_id())
    }

    /// The place of the surface with the identity `id`.
    fn find_surface(&self, id: SurfaceId) -> (found: Option<usize>)
        requires
            self.wf(),
        ensures
            match found {
                Some(i) => has_surface(self@, id) && i == index_of_surface(self@, id) && i
                    < self@.len(),
                None => !has_surface(self@, id),
            },
    {
        let mut i: usize = 0;
        while i < self.surfaces.len()
            invariant
                self.wf(),
                i <= self.surfaces@.len(),
                forall|j: int| 0 <= j < i ==> (#[trigger] self.surfaces@[j]).id != id,
            decreases self.surfaces@.len() - i,
        {
            if self.surfaces[i].id == id {
                proof {
                    assert(self@[i as int].id == id);
                    let k = index_of_surface(self@, id);
                    assert(self@[k].id == id);
                    assert(k == i);
                }
                return Some(i);
            }
            i = i + 1;
        }
        None
    }

    /// The place of the surface bound to `window`.
    fn find_window(&self, window: WindowId) -> (found: Option<usize>)
        requires
            self.wf(),
        ensures
            match found {
                Some(i) => has_window(self@, window) && i == index_of_window(self@, window) && i
                    < self@.len(),
                None => !has_window(self@, window),
            },
    {
        let mut i: usize = 0;
        while i < self.surfaces.len()
            invariant
                self.wf(),
                i <= self.surfaces@.len(),
                forall|j: int| 0 <= j < i ==> (#[trigger] self.surfaces@[j]).window != window,
            decreases self.surfaces@.len() - i,
        {
            if self.surfaces[i].window == window {
                proof {
                    assert(self@[i as int].window == window);
                    let k = index_of_window(self@, window);
                    assert(self@[k].window == window);
                    assert(k == i);
                }
                return Some(i);
            }
            i = i + 1;
        }
        None
    }

    /// Whether `id` names a bound surface.
    pub fn contains(&self, id: SurfaceId) -> (r: bool)
        requires
            self.wf(),
        ensures
            r == has_surface(self@, id),
    {
        self.find_surface(id).is_some()
    }

    /// An empty registry.
    pub fn new() -> (surfaces: Self)
        ensures
            surfaces.wf(),
            surfaces@ == Seq::<CatSurface>::empty(),
            surfaces.last_id() == 0,
    {
        Surfaces { surfaces: Vec::new(), last_id: 0 }
    }

    /// The number of bound surfaces.
    pub fn len(&self) -> (n: usize)
        ensures
            n == self@.len(),
    {
        self.surfaces.len()
    }

    /// The identity that the next bound surface gets.
    pub fn next_id(&self) -> (id: u32)
        ensures
            id == self.last_id(),
    {
        self.last_id
    }

    /// The identity of the surface bound to `window`, if there is one.
    pub fn get_surface_id_from_window(&self, window: &WindowId) -> (id: Option<SurfaceId>)
        requires
            self.wf(),
        ensures
            id == match surface_of_window(self@, *window) {
                Some(s) => Some(s.id),
                None => None,
            },
    {
        match self.find_window(*window) {
            Some(i) => Some(self.surfaces[i].id),
            None => None,
        }
    }

    /// Unbinds a surface: its entry goes, and with it the way from its window
    /// to it. An identity that names no surface changes nothing.
    pub fn delete_surface(&mut self, queue: &mut CommandQueue, surface: SurfaceId)
        requires
            old(self).wf(),
        ensures
            final(self).wf(),
            final(self).last_id() == old(self).last_id(),
            final(self)@ == without_surface(old(self)@, surface),
            !has_surface(final(self)@, surface),
            final(queue).commands() == old(queue).commands() + release_commands(
                surface_entry(old(self)@, surface),
            ),
            final(queue).next_handle() == old(queue).next_handle(),
    {
        match self.find_surface(surface) {
            Some(i) => {
                let removed = self.surfaces.remove(i);
                queue.push(GpuCommand::DestroySurface { surface });
                proof {
                    assert(queue.commands() =~= old(queue).commands() + release_commands(
                        surface_entry(old(self)@, surface),
                    ));
                    assert forall|j: int| 0 <= j < self@.len() implies (#[trigger] self@[j]).id
                        != surface by {
                        if j < i {
                            assert(self@[j] == old(self)@[j]);
                        } else {
                            assert(self@[j] == old(self)@[j + 1]);
                        }
                    }
                }
            },
            None => {
                proof {
                    assert(queue.commands() =~= old(queue).commands() + release_commands(
                        surface_entry(old(self)@, surface),
                    ));
                }
            },
        }
    }

    /// Unbinds the surface of a window. A window that has no surface
    /// changes nothing.
    pub fn delete_window_surface(&mut self, queue: &mut CommandQueue, window: &WindowId)
        requires
            old(self).wf(),
        ensures
            final(self).wf(),
            final(self).last_id() == old(self).last_id(),
            final(self)@ == without_window(old(self)@, *window),
            !has_window(final(self)@, *window),
            final(queue).commands() == old(queue).commands() + release_commands(
                surface_of_window(old(self)@, *window),
            ),
            final(queue).next_handle() == old(queue).next_handle(),
    {
        match self.find_window(*window) {
            Some(i) => {
                let removed = self.surfaces.remove(i);
                queue.push(GpuCommand::DestroySurface { surface: removed.id });
                proof {
                    assert(queue.commands() =~= old(queue).commands() + release_commands(
                        surface_of_window(old(self)@, *window),
                    ));
                    assert forall|j: int| 0 <= j < self@.len() implies (#[trigger] self@[j]).window
                        != *window by {
                        if j < i {
                            assert(self@[j] == old(self)@[j]);
                        } else {
                            assert(self@[j] == old(self)@[j + 1]);
                        }
                    }
                }
            },
            None => {
                proof {
                    assert(queue.commands() =~= old(queue).commands() + release_commands(
                        surface_of_window(old(self)@, *window),
                    ));
                }
            },
        }
    }

    /// The surface that `id` names.
    pub fn get_surface(&self, id: SurfaceId) -> (surface: &CatSurface)
        requires
            self.wf(),
            has_surface(self@, id),
        ensures
            Some(*surface) == surface_entry(self@, id),
            surface.id == id,
    {
        match self.find_surface(id) {
            Some(i) => &self.surfaces[i],
            None => {
                proof {
                    assert(false);
                }
                &self.surfaces[0]
            },
        }
    }

    /// The surface that `id` names, if there is one.
    pub fn find(&self, id: SurfaceId) -> (surface: Option<CatSurface>)
        requires
            self.wf(),
        ensures
            surface == surface_entry(self@, id),
    {
        match self.find_surface(id) {
            Some(i) => Some(self.surfaces[i]),
            None => None,
        }
    }

    /// Binds a surface to a window: picks the preferred format, and
    /// configures the surface to the window's size with the first present
    /// mode and alpha mode on offer. A surface that the window had before is
    /// released first, so that the window has one surface at a time.
    pub fn create_surface(&mut self, queue: &mut CommandQueue, window: &Window) -> (id: SurfaceId)
        requires
            old(self).wf(),
            old(self).last_id() < u32::MAX,
            window.presentable(),
        ensures
            final(self).wf(),
            id.0 == old(self).last_id(),
            final(self).last_id() == old(self).last_id() + 1,
            final(self)@.len() == without_window(old(self)@, window.id).len() + 1,
            final(self)@.drop_last() == without_window(old(self)@, window.id),
            final(self)@.last().id == id,
            final(self)@.last().window == window.id,
            final(self)@.last().size == window.size,
            initial_config(window, final(self)@.last().config),
            final(queue).commands() == old(queue).commands() + release_commands(
                surface_of_window(old(self)@, window.id),
            ) + seq![
                GpuCommandView::CreateSurface {
                    surface: id,
                    window: window.id,
                    config: final(self)@.last().config,
                },
            ],
            final(queue).next_handle() == old(queue).next_handle(),
    {
        let format = choose_format(&window.capabilities.formats);
        let config = SurfaceConfiguration {
            usage: TextureUsages::render_attachment(),
            format,
            width: window.size.width,
            height: window.size.height,
            present_mode: window.capabilities.present_modes[0],
            alpha_mode: window.capabilities.alpha_modes[0],
            desired_maximum_frame_latency: 2,
        };
        match self.find_window(window.id) {
            Some(i) => {
                let released = self.surfaces.remove(i);
                queue.push(GpuCommand::DestroySurface { surface: released.id });
                proof {
                    assert forall|j: int| 0 <= j < self@.len() implies (#[trigger] self@[j]).window
                        != window.id by {
                        if j < i {
                            assert(self@[j] == old(self)@[j]);
                        } else {
                            assert(self@[j] == old(self)@[j + 1]);
                        }
                    }
                }
            },
            None => {},
        }
        let ghost rest = self@;
        assert(rest == without_window(old(self)@, window.id));
        assert(surfaces_wf(rest, self.last_id()));
        let id = SurfaceId(self.last_id);
        self.surfaces.push(CatSurface { id, window: window.id, size: window.size, config });
        self.last_id = self.last_id + 1;
        queue.push(GpuCommand::CreateSurface { surface: id, window: window.id, config });
        proof {
            assert(self@.drop_last() =~= rest);
            assert(queue.commands() =~= old(queue).commands() + release_commands(
                surface_of_window(old(self)@, window.id),
            ) + seq![
                GpuCommandView::CreateSurface { surface: id, window: window.id, config },
            ]);
        }
        id
    }

    /// Follows a window to its new size. Where the window has a surface and
    /// the size covers at least one pixel, the surface takes the size and is
    /// configured anew; otherwise nothing changes and nothing is recorded.
    pub fn resize_window_surface(
        &mut self,
        queue: &mut CommandQueue,
        window: &WindowId,
        new_size: PhysicalSize,
    )
        requires
            old(self).wf(),
        ensures
            final(self).wf(),
            final(self).last_id() == old(self).last_id(),
            final(self)@ == resized(old(self)@, *window, new_size),
            final(queue).commands() == old(queue).commands() + resize_commands(
                old(self)@,
                *window,
                new_size,
            ),
            final(queue).next_handle() == old(queue).next_handle(),
    {
        match self.find_window(*window) {
            Some(i) => {
                if new_size.width != 0 && new_size.height != 0 {
                    let before = self.surfaces[i];
                    let surface = CatSurface {
                        id: before.id,
                        window: before.window,
                        size: new_size,
                        config: SurfaceConfiguration {
                            usage: before.config.usage,
                            format: before.config.format,
                            width: new_size.width,
                            height: new_size.height,
                            present_mode: before.config.present_mode,
                            alpha_mode: before.config.alpha_mode,
                            desired_maximum_frame_latency: before.config.desired_maximum_frame_latency,
                        },
                    };
                    self.surfaces.set(i, surface);
                    queue.push(
                        GpuCommand::ConfigureSurface { surface: surface.id, config: surface.config },
                    );
                    proof {
                        assert(queue.commands() =~= old(queue).commands() + resize_commands(
                            old(self)@,
                            *window,
                            new_size,
                        ));
                    }
                    return ;
                }
            },
            None => {},
        }
        proof {
            assert(queue.commands() =~= old(queue).commands() + resize_commands(
                old(self)@,
                *window,
                new_size,
            ));
        }
    }
}

} // verus!
