use vstd::prelude::*;

use crate::shader::{coalesced, CanvasMessage};
use crate::texture_slots::{
    frame_allocates, is_empty_frame, FrameStart, RenderTarget, SlotSizes, TextureSlots,
};

verus! {

/// The GPU resources of an active renderer: the pipeline `P`, the shader text
/// it was built from, and the frame targets holding textures `T`.
pub struct ActiveCanvasRenderer<P, T> {
    pub pipeline: P,
    pub shader: String,
    pub targets: TextureSlots<T>,
}

/// Of any run of messages enqueued after `s`, only the last decides the text
/// that the next resume builds from.
pub proof fn lemma_resume_applies_last_update<P, T>(
    s: CanvasPaintSource<P, T>,
    messages: Seq<CanvasMessage>,
)
    requires
        messages.len() > 0,
    ensures
        coalesced(s.shader_text(), s.queued() + messages) == messages.last().text(),
{
    assert((s.queued() + messages).last() == messages.last());
}

/// Once the live pipeline is built from the newest text and nothing is queued,
/// a suspend followed by a resume rebuilds from that same text.
pub proof fn lemma_resume_after_suspend_keeps_applied_text<P, T>(s: CanvasPaintSource<P, T>)
    requires
        s.is_active(),
        s.built_from() == s.shader_text(),
        s.queued().len() == 0,
    ensures
        s.resume_text() == s.built_from(),
{
}

/// A renderer either holds its GPU resources or holds none.
pub enum CanvasRendererState<P, T> {
    Active(ActiveCanvasRenderer<P, T>),
    Suspended,
}

/// The renderer lifecycle of the host-managed canvas: shader updates are
/// queued in delivery order, coalesced to the newest, and applied once the
/// renderer is active; suspending drops the GPU resources but keeps the text.
pub struct CanvasPaintSource<P, T> {
    state: CanvasRendererState<P, T>,
    queue: Vec<CanvasMessage>,
    current_shader: String,
}

impl<P, T> CanvasPaintSource<P, T> {
    pub closed spec fn state(self) -> CanvasRendererState<P, T> {
        self.state
    }

    /// Messages not yet applied, oldest first.
    pub closed spec fn queued(self) -> Seq<CanvasMessage> {
        self.queue@
    }

    /// The newest shader text applied; the one a resume builds from once the
    /// queue is drained.
    pub closed spec fn shader_text(self) -> Seq<char> {
        self.current_shader@
    }

    pub open spec fn is_active(self) -> bool {
        self.state() is Active
    }

    /// The text the live pipeline was built from.
    pub open spec fn built_from(self) -> Seq<char> {
        self.state()->Active_0.shader@
    }

    pub open spec fn targets(self) -> TextureSlots<T> {
        self.state()->Active_0.targets
    }

    pub open spec fn pipeline(self) -> P {
        self.state()->Active_0.pipeline
    }

    /// The text that a resume builds from: the newest queued message, or the
    /// text last applied when nothing is queued.
    pub open spec fn resume_text(self) -> Seq<char> {
        coalesced(self.shader_text(), self.queued())
    }

    /// A suspended renderer with `shader` as its text and nothing queued.
    pub fn new(shader: String) -> (r: Self)
        ensures
            !r.is_active(),
            r.shader_text() == shader@,
            r.queued() == Seq::<CanvasMessage>::empty(),
    {
        CanvasPaintSource { state: CanvasRendererState::Suspended, queue: Vec::new(), current_shader: shader }
    }

    /// Appends a message to the queue; valid in either state.
    pub fn enqueue(&mut self, message: CanvasMessage)
        ensures
            final(self).queued() == old(self).queued().push(message),
            final(self).state() == old(self).state(),
            final(self).shader_text() == old(self).shader_text(),
    {
        self.queue.push(message);
    }

    /// Drains the queue into the current text, keeping the newest message only.
    fn drain_queue(&mut self)
        ensures
            final(self).shader_text() == old(self).resume_text(),
            final(self).queued() == Seq::<CanvasMessage>::empty(),
            final(self).state() == old(self).state(),
    {
        match self.queue.pop() {
            Some(CanvasMessage::SetShader(text)) => {
                self.current_shader = text;
            },
            None => {},
        }
        self.queue = Vec::new();
    }

    /// Applies the queued messages and returns the text to build the pipeline
    /// of a resume from.
    pub fn pending_shader(&mut self) -> (r: String)
        ensures
            r@ == old(self).resume_text(),
            final(self).shader_text() == r@,
            final(self).queued() == Seq::<CanvasMessage>::empty(),
            final(self).state() == old(self).state(),
    {
        self.drain_queue();
        self.current_shader.clone()
    }

    /// Becomes active with `pipeline`, built by the caller from the current
    /// text, and with no frame targets yet.
    pub fn resume(&mut self, pipeline: P)
        ensures
            final(self).is_active(),
            final(self).pipeline() == pipeline,
            final(self).built_from() == old(self).shader_text(),
            final(self).targets().sizes() == (SlotSizes { next: None, displayed: None }),
            final(self).shader_text() == old(self).shader_text(),
            final(self).queued() == old(self).queued(),
    {
        let active = ActiveCanvasRenderer {
            pipeline,
            shader: self.current_shader.clone(),
            targets: TextureSlots::new(),
        };
        self.state = CanvasRendererState::Active(active);
    }

    /// Drops the pipeline and the frame targets; the text and queue stay.
    pub fn suspend(&mut self)
        ensures
            !final(self).is_active(),
            final(self).shader_text() == old(self).shader_text(),
            final(self).queued() == old(self).queued(),
    {
        self.state = CanvasRendererState::Suspended;
    }

    /// Applies the queued messages. Returns the newest text when the live
    /// pipeline has to be rebuilt from it: the renderer is active and at least
    /// one message was queued.
    pub fn process_messages(&mut self) -> (r: Option<String>)
        ensures
            final(self).shader_text() == old(self).resume_text(),
            final(self).queued() == Seq::<CanvasMessage>::empty(),
            final(self).state() == old(self).state(),
            r is Some <==> old(self).is_active() && old(self).queued().len() > 0,
            r is Some ==> r->0@ == final(self).shader_text(),
    {
        let any = self.queue.len() > 0;
        self.drain_queue();
        let active = match &self.state {
            CanvasRendererState::Active(_) => true,
            CanvasRendererState::Suspended => false,
        };
        if any && active {
            Some(self.current_shader.clone())
        } else {
            None
        }
    }

    /// Installs `pipeline`, built by the caller from the current text, in
    /// place of the live one. Returns whether the renderer was active; a
    /// suspended renderer drops it.
    pub fn replace_pipeline(&mut self, pipeline: P) -> (r: bool)
        ensures
            r == old(self).is_active(),
            final(self).is_active() == old(self).is_active(),
            final(self).is_active() ==> final(self).pipeline() == pipeline
                && final(self).built_from() == old(self).shader_text()
                && final(self).targets() == old(self).targets(),
            final(self).shader_text() == old(self).shader_text(),
            final(self).queued() == old(self).queued(),
    {
        let shader = self.current_shader.clone();
        match &mut self.state {
            CanvasRendererState::Active(active) => {
                active.pipeline = pipeline;
                active.shader = shader;
                true
            },
            CanvasRendererState::Suspended => false,
        }
    }

    /// Starts a frame of `(width, height)`. Nothing is drawn while suspended
    /// or when either side is zero.
    pub fn begin_frame(&mut self, width: u32, height: u32) -> (r: FrameStart<T>)
        ensures
            !old(self).is_active() ==> r is Skip && *final(self) == *old(self),
            is_empty_frame(width, height) ==> r is Skip && *final(self) == *old(self),
            final(self).is_active() == old(self).is_active(),
            final(self).shader_text() == old(self).shader_text(),
            final(self).queued() == old(self).queued(),
            old(self).is_active() ==> {
                let before = old(self).targets();
                let after = final(self).targets();
                &&& final(self).pipeline() == old(self).pipeline()
                &&& final(self).built_from() == old(self).built_from()
                &&& after.displayed_target() == before.displayed_target()
                &&& (!is_empty_frame(width, height) && before.sizes().next == Some((width, height)))
                    ==> r is Reuse && after == before
                &&& frame_allocates(before.sizes(), width, height) ==> r is Allocate
                    && after.next_target() is None && r->evicted == before.next_target()
                &&& r is Allocate ==> frame_allocates(before.sizes(), width, height)
            },
    {
        match &mut self.state {
            CanvasRendererState::Active(active) => active.targets.begin_frame(width, height),
            CanvasRendererState::Suspended => FrameStart::Skip,
        }
    }

    /// Installs a freshly allocated target to draw into. While suspended the
    /// target is handed back untouched.
    pub fn install_next(&mut self, target: RenderTarget<T>) -> (r: Option<RenderTarget<T>>)
        ensures
            !old(self).is_active() ==> r == Some(target) && *final(self) == *old(self),
            final(self).is_active() == old(self).is_active(),
            final(self).shader_text() == old(self).shader_text(),
            final(self).queued() == old(self).queued(),
            old(self).is_active() ==> {
                &&& final(self).pipeline() == old(self).pipeline()
                &&& final(self).built_from() == old(self).built_from()
                &&& final(self).targets().next_target() == Some(target)
                &&& final(self).targets().displayed_target() == old(self).targets().displayed_target()
                &&& r == old(self).targets().next_target()
            },
    {
        match &mut self.state {
            CanvasRendererState::Active(active) => active.targets.install_next(target),
            CanvasRendererState::Suspended => Some(target),
        }
    }

    /// Finishes a frame: the target just drawn becomes the presented one.
    /// Returns whether there is a target to present.
    pub fn finish_frame(&mut self) -> (r: bool)
        ensures
            !old(self).is_active() ==> !r && *final(self) == *old(self),
            final(self).is_active() == old(self).is_active(),
            final(self).shader_text() == old(self).shader_text(),
            final(self).queued() == old(self).queued(),
            old(self).is_active() ==> {
                &&& final(self).pipeline() == old(self).pipeline()
                &&& final(self).built_from() == old(self).built_from()
                &&& final(self).targets().displayed_target() == old(self).targets().next_target()
                &&& final(self).targets().next_target() == old(self).targets().displayed_target()
                &&& r == old(self).targets().next_target() is Some
            },
    {
        match &mut self.state {
            CanvasRendererState::Active(active) => active.targets.finish_frame(),
            CanvasRendererState::Suspended => false,
        }
    }

    /// The live resources, if active.
    pub fn active(&self) -> (r: Option<&ActiveCanvasRenderer<P, T>>)
        ensures
            match r {
                Some(a) => self.state() == CanvasRendererState::Active(*a),
                None => !self.is_active(),
            },
    {
        match &self.state {
            CanvasRendererState::Active(active) => Some(active),
            CanvasRendererState::Suspended => None,
        }
    }
}

} // verus!
