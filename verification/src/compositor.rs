use vstd::prelude::*;
use crate::alpha::{AlphaSpec, Color};
use crate::error::{CompositorError, Error};
use crate::geometry::Rect;

verus! {

/// Rotation or flip applied to an element; the demos use the identity.
#[derive(Clone, Copy, PartialEq, Eq, Structural, Debug)]
pub enum Transform {
    NoRotate,
    Rotate90,
    Rotate180,
    Rotate270,
}

/// A compositor-side rectangular surface: where GPU output is composited
/// onto the physical screen. Never mutated after creation.
#[derive(Clone, Copy, PartialEq, Eq, Structural, Debug)]
pub struct Element {
    /// Z-order; a higher layer draws on top.
    pub layer: i32,
    /// Destination rectangle, in screen pixels.
    pub dest: Rect,
    /// Source rectangle; all-zero means "map the whole source".
    pub src: Rect,
    /// Blending against what is beneath the element.
    pub alpha: AlphaSpec,
    /// Rotation or flip; typically the identity.
    pub transform: Transform,
}

impl Element {
    /// Both rectangles have non-negative extents.
    pub open spec fn well_formed(self) -> bool {
        self.dest.well_formed() && self.src.well_formed()
    }
}

/// The display size reported by the host's geometry query, in pixels.
#[derive(Clone, Copy, PartialEq, Eq, Structural, Debug)]
pub struct DisplaySize {
    pub width: u32,
    pub height: u32,
}

/// The fullscreen element of the demo variants: its destination
/// rectangle covers the whole display from the origin, its source
/// rectangle is the all-zero "map the whole source" convention, it
/// composites fully opaque, and it is not rotated.
pub fn fullscreen_element(size: DisplaySize, layer: i32) -> (e: Element)
    requires
        size.width <= 0x7fff_ffff,
        size.height <= 0x7fff_ffff,
    ensures
        e.dest == (Rect { x: 0, y: 0, width: size.width as i32, height: size.height as i32 }),
        e.src.is_full_source(),
        e.layer == layer,
        e.alpha.is_fully_opaque(),
        e.transform == Transform::NoRotate,
        e.well_formed(),
{
    Element {
        layer,
        dest: crate::geometry::fullscreen_dest_rect(size.width, size.height),
        src: crate::geometry::full_source_rect(),
        alpha: crate::alpha::opaque_alpha(),
        transform: Transform::NoRotate,
    }
}

/// The render surface binding: the aggregate the GPU layer consumes as
/// its opaque native window token — the compositor element handle and
/// the surface extent. Pure data; the shell keeps its native twin alive
/// for the lifetime of the GPU surface built from it.
#[derive(Clone, Copy, PartialEq, Eq, Structural, Debug)]
pub struct WindowBinding {
    pub element: u32,
    pub width: i32,
    pub height: i32,
}

/// Wrap an element handle and the display extent as the window binding
/// handed to the surface-creation step.
pub fn window_binding(element: u32, size: DisplaySize) -> (w: WindowBinding)
    requires
        size.width <= 0x7fff_ffff,
        size.height <= 0x7fff_ffff,
    ensures
        w == (WindowBinding {
            element,
            width: size.width as i32,
            height: size.height as i32,
        }),
{
    WindowBinding { element, width: size.width as i32, height: size.height as i32 }
}

/// Every element of the sequence is well formed.
pub open spec fn all_elements_well_formed(es: Seq<Element>) -> bool {
    forall|i: int| 0 <= i < es.len() ==> #[trigger] es[i].well_formed()
}

/// The compositor session: the core's model of the one connection to the
/// display compositor and of the atomic update transactions issued over
/// it. The unverified shell performs the native calls; the session
/// decides which calls are legal in the current state and tracks what
/// the compositor's state must be after each submitted transaction.
pub struct Session {
    host_ready: bool,
    display_index: Option<u32>,
    update_open: bool,
    update_priority: Option<i32>,
    committed_background: Option<Color>,
    pending_background: Option<Color>,
    committed_elements: Vec<Element>,
    pending_elements: Vec<Element>,
}

impl Session {
    /// The one-time host graphics bootstrap has completed.
    pub closed spec fn host_ready(self) -> bool {
        self.host_ready
    }

    /// The compositor connection is open.
    pub open spec fn display_open(self) -> bool {
        self.display_index() is Some
    }

    /// The index of the display the connection was opened on, if any.
    pub closed spec fn display_index(self) -> Option<u32> {
        self.display_index
    }

    /// An update transaction is open and not yet submitted.
    pub closed spec fn update_open(self) -> bool {
        self.update_open
    }

    /// The scheduling priority the open transaction was started with.
    pub closed spec fn update_priority(self) -> Option<i32> {
        self.update_priority
    }

    /// The background color the compositor has applied, if one was ever
    /// submitted.
    pub closed spec fn background(self) -> Option<Color> {
        self.committed_background
    }

    /// The background change batched in the open transaction, if any.
    pub closed spec fn pending_background(self) -> Option<Color> {
        self.pending_background
    }

    /// The elements the compositor has applied, in creation order.
    pub closed spec fn elements(self) -> Seq<Element> {
        self.committed_elements@
    }

    /// The elements batched in the open transaction, in creation order.
    pub closed spec fn pending_elements(self) -> Seq<Element> {
        self.pending_elements@
    }

    /// Every element the session ever accepted is well formed, and
    /// nothing can be batched without the bootstrap and an open display.
    pub open spec fn well_formed(self) -> bool {
        &&& all_elements_well_formed(self.elements())
        &&& all_elements_well_formed(self.pending_elements())
        &&& self.display_open() ==> self.host_ready()
        &&& self.update_open() ==> self.host_ready()
    }

    /// A fresh session: nothing bootstrapped, nothing open, nothing
    /// applied.
    pub fn new() -> (s: Session)
        ensures
            s.well_formed(),
            !s.host_ready(),
            !s.display_open(),
            !s.update_open(),
            s.background() is None,
            s.pending_background() is None,
            s.elements() == Seq::<Element>::empty(),
            s.pending_elements() == Seq::<Element>::empty(),
    {
        Session {
            host_ready: false,
            display_index: None,
            update_open: false,
            update_priority: None,
            committed_background: None,
            pending_background: None,
            committed_elements: Vec::new(),
            pending_elements: Vec::new(),
        }
    }

    /// Record that the one-time host graphics bootstrap completed. It
    /// must precede every display operation; repeating it is harmless.
    pub fn host_initialized(&mut self)
        requires
            old(self).well_formed(),
        ensures
            final(self).well_formed(),
            final(self).host_ready(),
            final(self).display_index() == old(self).display_index(),
            final(self).update_open() == old(self).update_open(),
            final(self).background() == old(self).background(),
            final(self).pending_background() == old(self).pending_background(),
            final(self).elements() == old(self).elements(),
            final(self).pending_elements() == old(self).pending_elements(),
    {
        self.host_ready = true;
    }

    /// Open the compositor connection on the display at `index`. Fails
    /// fatally when the host bootstrap has not completed first.
    pub fn open_display(&mut self, index: u32) -> (r: Result<(), Error>)
        requires
            old(self).well_formed(),
        ensures
            final(self).well_formed(),
            old(self).host_ready() ==> r == Ok::<(), Error>(())
                && final(self).display_index() == Some(index),
            !old(self).host_ready() ==> r == Err::<(), Error>(Error::HostNotReady)
                && *final(self) == *old(self),
            final(self).host_ready() == old(self).host_ready(),
            final(self).update_open() == old(self).update_open(),
            final(self).background() == old(self).background(),
            final(self).pending_background() == old(self).pending_background(),
            final(self).elements() == old(self).elements(),
            final(self).pending_elements() == old(self).pending_elements(),
    {
        if !self.host_ready {
            return Err(Error::HostNotReady);
        }
        self.display_index = Some(index);
        Ok(())
    }

    /// Interpret the host's display geometry query. The query yields
    /// nothing when the bootstrap was skipped; the core must propagate
    /// that as the fatal "not initialized" condition.
    pub fn accept_display_size(&self, q: Option<DisplaySize>) -> (r: Result<DisplaySize, Error>)
        ensures
            !self.host_ready() ==> r == Err::<DisplaySize, Error>(Error::HostNotReady),
            self.host_ready() ==> r == (match q {
                Some(size) => Ok::<DisplaySize, Error>(size),
                None => Err::<DisplaySize, Error>(Error::HostNotReady),
            }),
    {
        if !self.host_ready {
            return Err(Error::HostNotReady);
        }
        match q {
            Some(size) => Ok(size),
            None => Err(Error::HostNotReady),
        }
    }

    /// Start an update transaction at the given scheduling priority:
    /// the unit in which element mutations are batched until they are
    /// applied atomically by `submit`. Only one transaction may be open
    /// at a time.
    pub fn begin_update(&mut self, priority: i32) -> (r: Result<(), Error>)
        requires
            old(self).well_formed(),
        ensures
            old(self).host_ready() && !old(self).update_open() ==> final(self).update_priority()
                == Some(priority),
            final(self).well_formed(),
            !old(self).host_ready() ==> r == Err::<(), Error>(Error::HostNotReady)
                && *final(self) == *old(self),
            old(self).host_ready() && old(self).update_open() ==> r == Err::<(), Error>(
                Error::Compositor(CompositorError::UpdateAlreadyOpen)) && *final(self) == *old(self),
            old(self).host_ready() && !old(self).update_open() ==> r == Ok::<(), Error>(())
                && final(self).update_open(),
            r is Ok <==> old(self).host_ready() && !old(self).update_open(),
            final(self).host_ready() == old(self).host_ready(),
            final(self).display_index() == old(self).display_index(),
            final(self).background() == old(self).background(),
            final(self).pending_background() == old(self).pending_background(),
            final(self).elements() == old(self).elements(),
            final(self).pending_elements() == old(self).pending_elements(),
    {
        if !self.host_ready {
            return Err(Error::HostNotReady);
        }
        if self.update_open {
            return Err(Error::Compositor(CompositorError::UpdateAlreadyOpen));
        }
        self.update_open = true;
        self.update_priority = Some(priority);
        Ok(())
    }

    /// Batch the creation of an element in the open transaction. Needs
    /// an open display and an open, not-yet-submitted transaction, and a
    /// well-formed element; the element takes effect at `submit`. The
    /// returned handle is the index the element will occupy among the
    /// applied elements once the transaction is submitted.
    pub fn add_element(&mut self, e: Element) -> (r: Result<usize, Error>)
        requires
            old(self).well_formed(),
            old(self).elements().len() + old(self).pending_elements().len() < usize::MAX,
        ensures
            final(self).well_formed(),
            !old(self).display_open() ==> r == Err::<usize, Error>(
                Error::Compositor(CompositorError::DisplayNotOpen)) && *final(self) == *old(self),
            old(self).display_open() && !old(self).update_open() ==> r == Err::<usize, Error>(
                Error::Compositor(CompositorError::NoOpenUpdate)) && *final(self) == *old(self),
            old(self).display_open() && old(self).update_open() && !e.well_formed() ==> r
                == Err::<usize, Error>(Error::Compositor(CompositorError::InvalidElement))
                && *final(self) == *old(self),
            old(self).display_open() && old(self).update_open() && e.well_formed() ==> r
                == Ok::<usize, Error>((old(self).elements().len()
                    + old(self).pending_elements().len()) as usize)
                && final(self).pending_elements() == old(self).pending_elements().push(e),
            r is Ok <==> old(self).display_open() && old(self).update_open() && e.well_formed(),
            final(self).host_ready() == old(self).host_ready(),
            final(self).display_index() == old(self).display_index(),
            final(self).update_open() == old(self).update_open(),
            final(self).background() == old(self).background(),
            final(self).pending_background() == old(self).pending_background(),
            final(self).elements() == old(self).elements(),
    {
        if self.display_index.is_none() {
            return Err(Error::Compositor(CompositorError::DisplayNotOpen));
        }
        if !self.update_open {
            return Err(Error::Compositor(CompositorError::NoOpenUpdate));
        }
        if !(e.dest.width >= 0 && e.dest.height >= 0 && e.src.width >= 0 && e.src.height >= 0) {
            return Err(Error::Compositor(CompositorError::InvalidElement));
        }
        let handle: usize = self.committed_elements.len() + self.pending_elements.len();
        self.pending_elements.push(e);
        Ok(handle)
    }

    /// Batch a background color change in the open transaction; it takes
    /// effect at `submit`.
    pub fn set_background(&mut self, color: Color) -> (r: Result<(), Error>)
        requires
            old(self).well_formed(),
        ensures
            final(self).well_formed(),
            !old(self).display_open() ==> r == Err::<(), Error>(
                Error::Compositor(CompositorError::DisplayNotOpen)) && *final(self) == *old(self),
            old(self).display_open() && !old(self).update_open() ==> r == Err::<(), Error>(
                Error::Compositor(CompositorError::NoOpenUpdate)) && *final(self) == *old(self),
            old(self).display_open() && old(self).update_open() ==> r == Ok::<(), Error>(())
                && final(self).pending_background() == Some(color),
            r is Ok <==> old(self).display_open() && old(self).update_open(),
            final(self).host_ready() == old(self).host_ready(),
            final(self).display_index() == old(self).display_index(),
            final(self).update_open() == old(self).update_open(),
            final(self).background() == old(self).background(),
            final(self).elements() == old(self).elements(),
            final(self).pending_elements() == old(self).pending_elements(),
    {
        if self.display_index.is_none() {
            return Err(Error::Compositor(CompositorError::DisplayNotOpen));
        }
        if !self.update_open {
            return Err(Error::Compositor(CompositorError::NoOpenUpdate));
        }
        self.pending_background = Some(color);
        Ok(())
    }

    /// Submit the open transaction synchronously: the compositor applies
    /// every batched mutation atomically, and the transaction is spent —
    /// further mutations need a new one.
    pub fn submit(&mut self) -> (r: Result<(), Error>)
        requires
            old(self).well_formed(),
        ensures
            final(self).well_formed(),
            !old(self).update_open() ==> r == Err::<(), Error>(
                Error::Compositor(CompositorError::NoOpenUpdate)) && *final(self) == *old(self),
            old(self).update_open() ==> r == Ok::<(), Error>(())
                && final(self).elements() == old(self).elements() + old(self).pending_elements()
                && final(self).background() == (match old(self).pending_background() {
                    Some(color) => Some(color),
                    None => old(self).background(),
                })
                && !final(self).update_open()
                && final(self).update_priority() is None
                && final(self).pending_elements() == Seq::<Element>::empty()
                && final(self).pending_background() is None,
            r is Ok <==> old(self).update_open(),
            final(self).host_ready() == old(self).host_ready(),
            final(self).display_index() == old(self).display_index(),
    {
        if !self.update_open {
            return Err(Error::Compositor(CompositorError::NoOpenUpdate));
        }
        let ghost orig = *self;
        let n: usize = self.pending_elements.len();
        let mut i: usize = 0;
        while i < n
            invariant
                i <= n,
                n == orig.pending_elements().len(),
                self.pending_elements@ == orig.pending_elements(),
                self.committed_elements@ == orig.elements()
                    + orig.pending_elements().subrange(0, i as int),
                self.host_ready == orig.host_ready(),
                self.display_index == orig.display_index(),
                self.update_open == orig.update_open(),
                self.update_priority == orig.update_priority(),
                self.committed_background == orig.background(),
                self.pending_background == orig.pending_background(),
                orig.well_formed(),
            decreases n - i,
        {
            let e: Element = self.pending_elements[i];
            self.committed_elements.push(e);
            proof {
                assert(self.committed_elements@ =~= orig.elements()
                    + orig.pending_elements().subrange(0, (i + 1) as int));
            }
            i = i + 1;
        }
        proof {
            assert(orig.pending_elements().subrange(0, n as int) =~= orig.pending_elements());
        }
        if let Some(color) = self.pending_background {
            self.committed_background = Some(color);
        }
        self.pending_background = None;
        self.pending_elements = Vec::new();
        self.update_open = false;
        self.update_priority = None;
        Ok(())
    }

    /// Whether the host bootstrap completed.
    pub fn is_host_ready(&self) -> (b: bool)
        ensures
            b == self.host_ready(),
    {
        self.host_ready
    }

    /// Whether the compositor connection is open.
    pub fn is_display_open(&self) -> (b: bool)
        ensures
            b == self.display_open(),
    {
        self.display_index.is_some()
    }

    /// The scheduling priority of the open transaction, if one is open.
    pub fn current_update_priority(&self) -> (p: Option<i32>)
        ensures
            p == self.update_priority(),
    {
        self.update_priority
    }

    /// Whether an update transaction is open and not yet submitted.
    pub fn has_open_update(&self) -> (b: bool)
        ensures
            b == self.update_open(),
    {
        self.update_open
    }

    /// The background color the compositor has applied, if any.
    pub fn applied_background(&self) -> (c: Option<Color>)
        ensures
            c == self.background(),
    {
        self.committed_background
    }

    /// How many elements the compositor has applied.
    pub fn element_count(&self) -> (n: usize)
        ensures
            n == self.elements().len(),
    {
        self.committed_elements.len()
    }

    /// The applied element at `index`, or nothing when out of range.
    pub fn element_at(&self, index: usize) -> (e: Option<Element>)
        ensures
            index < self.elements().len() ==> e == Some(self.elements()[index as int]),
            index >= self.elements().len() ==> e is None,
    {
        if index < self.committed_elements.len() {
            Some(self.committed_elements[index])
        } else {
            None
        }
    }
}

} // verus!
