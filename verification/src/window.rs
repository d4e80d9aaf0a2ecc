//! Windows, as the windowing layer reports them.

use vstd::prelude::*;
use crate::render::surface::SurfaceCapabilities;

verus! {

/// The identity of a window, stable while the window lives.
#[derive(Clone, Copy, PartialEq, Eq, Structural, Hash, Debug)]
pub struct WindowId(pub u64);

/// A size in pixels.
#[derive(Clone, Copy, PartialEq, Eq, Structural, Hash, Debug)]
pub struct PhysicalSize {
    pub width: u32,
    pub height: u32,
}

impl PhysicalSize {
    pub fn new(width: u32, height: u32) -> (s: Self)
        ensures
            s == (PhysicalSize { width, height }),
    {
        PhysicalSize { width, height }
    }

    /// Whether the size covers no pixel.
    pub open spec fn is_empty(self) -> bool {
        self.width == 0 || self.height == 0
    }
}

/// A window as the windowing layer reports it: its identity, its size in
/// pixels, and how the device can present to it.
#[derive(Clone, Debug, PartialEq, Eq)]
pub struct Window {
    pub id: WindowId,
    pub size: PhysicalSize,
    pub capabilities: SurfaceCapabilities,
}

impl Window {
    /// A window to which the device can present.
    pub open spec fn presentable(&self) -> bool {
        self.capabilities.usable()
    }

    /// Whether the device can present to the window.
    pub fn is_presentable(&self) -> (r: bool)
        ensures
            r == self.presentable(),
    {
        self.capabilities.is_usable()
    }
}

/// The handle by which the application names a window.
#[derive(Clone, Copy, PartialEq, Eq, Structural, Hash, Debug)]
pub struct CatWindow {
    pub id: WindowId,
}

/// Whether a window of `windows` has the identity `id`.
pub open spec fn is_registered(windows: Seq<Window>, id: WindowId) -> bool {
    exists|i: int| 0 <= i < windows.len() && (#[trigger] windows[i]).id == id
}

/// The place of the window with the identity `id`.
pub open spec fn index_of_id(windows: Seq<Window>, id: WindowId) -> int {
    choose|i: int| 0 <= i < windows.len() && (#[trigger] windows[i]).id == id
}

/// The window with the identity `id`, if it is registered.
pub open spec fn registered(windows: Seq<Window>, id: WindowId) -> Option<Window> {
    if is_registered(windows, id) {
        Some(windows[index_of_id(windows, id)])
    } else {
        None
    }
}

/// The windows after `window` was registered: it takes the place of the
/// window that had its identity, or the last place where there was none.
pub open spec fn with_window(windows: Seq<Window>, window: Window) -> Seq<Window> {
    if is_registered(windows, window.id) {
        windows.update(index_of_id(windows, window.id), window)
    } else {
        windows.push(window)
    }
}

/// The windows without the one with the identity `id`.
pub open spec fn without_id(windows: Seq<Window>, id: WindowId) -> Seq<Window> {
    if is_registered(windows, id) {
        windows.remove(index_of_id(windows, id))
    } else {
        windows
    }
}

/// The windows after the one with the identity `id` took the size `size`.
pub open spec fn with_window_size(windows: Seq<Window>, id: WindowId, size: PhysicalSize) -> Seq<
    Window,
> {
    if is_registered(windows, id) {
        let i = index_of_id(windows, id);
        windows.update(
            i,
            Window { id: windows[i].id, size, capabilities: windows[i].capabilities },
        )
    } else {
        windows
    }
}

/// The window to ask for a redraw: the one registered first.
pub open spec fn redraw_target(windows: Seq<Window>) -> Option<WindowId> {
    if windows.len() > 0 {
        Some(windows[0].id)
    } else {
        None
    }
}

/// The invariant of a registry that holds `windows`: no identity occurs
/// twice, and the device can present to every window.
pub open spec fn windows_wf(windows: Seq<Window>) -> bool {
    &&& forall|i: int| 0 <= i < windows.len() ==> (#[trigger] windows[i]).presentable()
    &&& forall|i: int, j: int|
        0 <= i < windows.len() && 0 <= j < windows.len() && i != j ==> (#[trigger] windows[i]).id
            != (#[trigger] windows[j]).id
}

/// The registry of the windows that the windowing layer has reported, in
/// the order in which they were first reported.
pub struct Windows {
    windows: Vec<Window>,
}

impl View for Windows {
    type V = Seq<Window>;

    closed spec fn view(&self) -> Seq<Window> {
        self.windows@
    }
}

impl Windows {
    /// The registry's invariant.
    pub open spec fn wf(&self) -> bool {
        windows_wf(self@)
    }

    /// The place of the window with the identity `id`.
    fn find(&self, id: WindowId) -> (found: Option<usize>)
        requires
            self.wf(),
        ensures
            match found {
                Some(i) => is_registered(self@, id) && i == index_of_id(self@, id) && i
                    < self@.len(),
                None => !is_registered(self@, id),
            },
    {
        let mut i: usize = 0;
        while i < self.windows.len()
            invariant
                self.wf(),
                i <= self.windows@.len(),
                forall|j: int| 0 <= j < i ==> (#[trigger] self.windows@[j]).id != id,
            decreases self.windows@.len() - i,
        {
            if self.windows[i].id == id {
                proof {
                    assert(self@[i as int].id == id);
                    let k = index_of_id(self@, id);
                    assert(self@[k].id == id);
                    assert(k == i);
                }
                return Some(i);
            }
            i = i + 1;
        }
        None
    }

    /// The window to ask for a redraw, if any window is registered: the one
    /// registered first.
    pub fn request_redraw(&self) -> (target: Option<WindowId>)
        ensures
            target == redraw_target(self@),
    {
        if self.windows.len() > 0 {
            Some(self.windows[0].id)
        } else {
            None
        }
    }

    /// An empty registry.
    pub fn new() -> (windows: Self)
        ensures
            windows.wf(),
            windows@ == Seq::<Window>::empty(),
    {
        Windows { windows: Vec::new() }
    }

    /// The number of registered windows.
    pub fn len(&self) -> (n: usize)
        ensures
            n == self@.len(),
    {
        self.windows.len()
    }

    /// Forgets a window. A window that is not registered changes nothing.
    pub fn delete(&mut self, window: CatWindow)
        requires
            old(self).wf(),
        ensures
            final(self).wf(),
            final(self)@ == without_id(old(self)@, window.id),
            !is_registered(final(self)@, window.id),
    {
        match self.find(window.id) {
            Some(i) => {
                let removed = self.windows.remove(i);
                proof {
                    assert forall|j: int| 0 <= j < self@.len() implies (#[trigger] self@[j]).id
                        != window.id by {
                        if j < i {
                            assert(self@[j] == old(self)@[j]);
                        } else {
                            assert(self@[j] == old(self)@[j + 1]);
                        }
                    }
                }
            },
            None => {},
        }
    }

    /// Whether `window` names a registered window.
    pub fn contains(&self, window: &CatWindow) -> (r: bool)
        requires
            self.wf(),
        ensures
            r == is_registered(self@, window.id),
    {
        self.find(window.id).is_some()
    }

    /// Registers a window that the windowing layer has created, and returns
    /// the handle by which the application names it. A window with the same
    /// identity that was registered before is replaced.
    pub fn create(&mut self, window: Window) -> (handle: CatWindow)
        requires
            old(self).wf(),
            window.presentable(),
        ensures
            final(self).wf(),
            handle.id == window.id,
            final(self)@ == with_window(old(self)@, window),
            registered(final(self)@, window.id) == Some(window),
    {
        let id = window.id;
        match self.find(id) {
            Some(i) => {
                self.windows.set(i, window);
                proof {
                    assert(self@[i as int].id == id);
                    let k = index_of_id(self@, id);
                    assert(self@[k].id == id);
                    assert(k == i);
                }
            },
            None => {
                self.windows.push(window);
                proof {
                    let n = self@.len() - 1;
                    assert(self@[n].id == id);
                    let k = index_of_id(self@, id);
                    assert(self@[k].id == id);
                    assert(k == n);
                }
            },
        }
        CatWindow { id }
    }

    /// The registered window that `window` names, if there is one.
    pub fn get(&self, window: &CatWindow) -> (found: Option<&Window>)
        requires
            self.wf(),
        ensures
            match found {
                Some(w) => registered(self@, window.id) == Some(*w),
                None => registered(self@, window.id) is None,
            },
    {
        match self.find(window.id) {
            Some(i) => Some(&self.windows[i]),
            None => None,
        }
    }

    /// Notes the new size of a window. A window that is not registered
    /// changes nothing.
    pub fn resize(&mut self, id: WindowId, size: PhysicalSize)
        requires
            old(self).wf(),
        ensures
            final(self).wf(),
            final(self)@ == with_window_size(old(self)@, id, size),
    {
        match self.find(id) {
            Some(i) => {
                let entry = &mut self.windows[i];
                entry.size = size;
                proof {
                    assert(self@ =~= with_window_size(old(self)@, id, size));
                }
            },
            None => {},
        }
    }
}

} // verus!
