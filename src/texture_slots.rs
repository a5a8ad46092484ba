use vstd::prelude::*;

verus! {

/// A render-target texture together with the size it was allocated at.
/// `T` is the caller's GPU texture and host handle.
pub struct RenderTarget<T> {
    pub width: u32,
    pub height: u32,
    pub texture: T,
}

impl<T> RenderTarget<T> {
    pub open spec fn size(self) -> (u32, u32) {
        (self.width, self.height)
    }
}

/// The sizes held by the two slots: the "next" target and the "displayed" one.
pub struct SlotSizes {
    pub next: Option<(u32, u32)>,
    pub displayed: Option<(u32, u32)>,
}

pub open spec fn size_of<T>(t: Option<RenderTarget<T>>) -> Option<(u32, u32)> {
    match t {
        Some(t) => Some(t.size()),
        None => None,
    }
}

/// Whether a frame of the given size draws nothing at all.
pub open spec fn is_empty_frame(width: u32, height: u32) -> bool {
    width == 0 || height == 0
}

/// Whether a frame of `(width, height)` must unregister a stale "next" target.
pub open spec fn frame_evicts(s: SlotSizes, width: u32, height: u32) -> bool {
    !is_empty_frame(width, height) && s.next is Some && s.next != Some((width, height))
}

/// Whether a frame of `(width, height)` must allocate a new target.
pub open spec fn frame_allocates(s: SlotSizes, width: u32, height: u32) -> bool {
    !is_empty_frame(width, height) && s.next != Some((width, height))
}

/// The slot sizes once a frame of `(width, height)` has been drawn: the drawn
/// target becomes "displayed" and the previously displayed one is the next
/// candidate for reuse.
pub open spec fn sizes_after_frame(s: SlotSizes, width: u32, height: u32) -> SlotSizes {
    if is_empty_frame(width, height) {
        s
    } else {
        SlotSizes { next: s.displayed, displayed: Some((width, height)) }
    }
}

/// Allocation is amortised: a "next" target of the requested size is reused,
/// and once two frames of one size have been drawn both slots hold that size,
/// so no later frame of that size allocates again.
pub proof fn lemma_same_size_reuses_targets(s: SlotSizes, width: u32, height: u32)
    requires
        !is_empty_frame(width, height),
    ensures
        s.next == Some((width, height)) ==> !frame_allocates(s, width, height),
        sizes_after_frame(sizes_after_frame(s, width, height), width, height) == (SlotSizes {
            next: Some((width, height)),
            displayed: Some((width, height)),
        }),
        !frame_allocates(
            sizes_after_frame(sizes_after_frame(s, width, height), width, height),
            width,
            height,
        ),
{
}

/// A "next" target of another size than requested is evicted once and
/// replaced by one allocation.
pub proof fn lemma_resize_evicts_then_allocates(s: SlotSizes, width: u32, height: u32)
    requires
        !is_empty_frame(width, height),
        s.next is Some,
        s.next != Some((width, height)),
    ensures
        frame_evicts(s, width, height),
        frame_allocates(s, width, height),
        sizes_after_frame(s, width, height).displayed == Some((width, height)),
{
}

/// A frame with a zero width or height neither allocates, evicts nor changes
/// the slots.
pub proof fn lemma_empty_frame_is_no_op(s: SlotSizes, width: u32, height: u32)
    requires
        is_empty_frame(width, height),
    ensures
        !frame_allocates(s, width, height),
        !frame_evicts(s, width, height),
        sizes_after_frame(s, width, height) == s,
{
}

/// How a frame starts.
pub enum FrameStart<T> {
    /// Nothing is drawn and no handle is handed out.
    Skip,
    /// The "next" target already has the requested size and is drawn into.
    Reuse,
    /// A target of the requested size must be allocated, registered and
    /// installed; `evicted` is the stale-sized target to unregister, if any.
    Allocate { evicted: Option<RenderTarget<T>> },
}

/// The pair of frame targets. The caller draws into "next"; finishing a frame
/// swaps the roles, so the host is only ever handed the target last finished.
pub struct TextureSlots<T> {
    next: Option<RenderTarget<T>>,
    displayed: Option<RenderTarget<T>>,
}

impl<T> TextureSlots<T> {
    pub closed spec fn next_target(self) -> Option<RenderTarget<T>> {
        self.next
    }

    pub closed spec fn displayed_target(self) -> Option<RenderTarget<T>> {
        self.displayed
    }

    pub open spec fn sizes(self) -> SlotSizes {
        SlotSizes { next: size_of(self.next_target()), displayed: size_of(self.displayed_target()) }
    }

    pub fn new() -> (r: Self)
        ensures
            r.next_target() is None,
            r.displayed_target() is None,
    {
        TextureSlots { next: None, displayed: None }
    }

    /// Starts a frame of `(width, height)`: skips an empty frame, keeps a
    /// "next" target of the right size, and otherwise takes out the stale
    /// target (never resized in place) and asks for a new one.
    pub fn begin_frame(&mut self, width: u32, height: u32) -> (r: FrameStart<T>)
        ensures
            final(self).displayed_target() == old(self).displayed_target(),
            is_empty_frame(width, height) ==> r is Skip && *final(self) == *old(self),
            !is_empty_frame(width, height) && old(self).sizes().next == Some((width, height))
                ==> r is Reuse && *final(self) == *old(self),
            frame_allocates(old(self).sizes(), width, height) ==> r is Allocate
                && final(self).next_target() is None && r->evicted == old(self).next_target(),
            r is Allocate ==> frame_allocates(old(self).sizes(), width, height),
            r is Allocate ==> (r->evicted is Some <==> frame_evicts(old(self).sizes(), width, height)),
    {
        if width == 0 || height == 0 {
            return FrameStart::Skip;
        }
        let fits = match &self.next {
            Some(t) => t.width == width && t.height == height,
            None => false,
        };
        if fits {
            FrameStart::Reuse
        } else {
            let evicted = self.next.take();
            FrameStart::Allocate { evicted }
        }
    }

    /// Installs a freshly allocated target in the "next" slot; hands back the
    /// one it displaces, if any.
    pub fn install_next(&mut self, target: RenderTarget<T>) -> (r: Option<RenderTarget<T>>)
        ensures
            final(self).next_target() == Some(target),
            final(self).displayed_target() == old(self).displayed_target(),
            final(self).sizes() == (SlotSizes { next: Some(target.size()), displayed: old(self).sizes().displayed }),
            r == old(self).next_target(),
    {
        let previous = self.next.take();
        self.next = Some(target);
        previous
    }

    /// The target the current frame draws into.
    pub fn next(&self) -> (r: Option<&RenderTarget<T>>)
        ensures
            match r {
                Some(t) => self.next_target() == Some(*t),
                None => self.next_target() is None,
            },
    {
        self.next.as_ref()
    }

    /// The target most recently finished, the one presented to the host.
    pub fn displayed(&self) -> (r: Option<&RenderTarget<T>>)
        ensures
            match r {
                Some(t) => self.displayed_target() == Some(*t),
                None => self.displayed_target() is None,
            },
    {
        self.displayed.as_ref()
    }

    /// Finishes a frame: the target just drawn becomes "displayed" and the
    /// previously displayed one becomes "next". Returns whether there is a
    /// target to present.
    pub fn finish_frame(&mut self) -> (r: bool)
        ensures
            final(self).displayed_target() == old(self).next_target(),
            final(self).next_target() == old(self).displayed_target(),
            final(self).sizes() == (SlotSizes { next: old(self).sizes().displayed, displayed: old(self).sizes().next }),
            r == old(self).next_target() is Some,
    {
        core::mem::swap(&mut self.next, &mut self.displayed);
        self.displayed.is_some()
    }
}

} // verus!
