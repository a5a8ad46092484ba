use vstd::prelude::*;

verus! {

/// UI-facing request/ack cycle of one compile request.
#[derive(Clone, Copy, Debug, PartialEq, Eq, Structural, PartialOrd, Ord)]
pub enum CanvasCompileStatus {
    NeedsCompile,
    Compiling,
    FinishedCompile,
}

/// The status that holds after `requested` is asked for while in `current`:
/// `Compiling` is honoured only from `NeedsCompile`, `FinishedCompile` from
/// `Compiling` or `NeedsCompile`; every other request is ignored.
pub open spec fn status_after(
    current: CanvasCompileStatus,
    requested: CanvasCompileStatus,
) -> CanvasCompileStatus {
    match requested {
        CanvasCompileStatus::Compiling => if current == CanvasCompileStatus::NeedsCompile {
            requested
        } else {
            current
        },
        CanvasCompileStatus::FinishedCompile => if current == CanvasCompileStatus::Compiling
            || current == CanvasCompileStatus::NeedsCompile {
            requested
        } else {
            current
        },
        CanvasCompileStatus::NeedsCompile => current,
    }
}

/// A compile request is honoured only from `NeedsCompile`; the completion is
/// honoured from `Compiling` and, collapsing the round trip, from
/// `NeedsCompile`; a new compile is refused until the previous one finished.
pub proof fn lemma_status_handshake()
    ensures
        status_after(CanvasCompileStatus::NeedsCompile, CanvasCompileStatus::Compiling)
            == CanvasCompileStatus::Compiling,
        status_after(CanvasCompileStatus::FinishedCompile, CanvasCompileStatus::Compiling)
            == CanvasCompileStatus::FinishedCompile,
        status_after(CanvasCompileStatus::Compiling, CanvasCompileStatus::FinishedCompile)
            == CanvasCompileStatus::FinishedCompile,
        status_after(CanvasCompileStatus::NeedsCompile, CanvasCompileStatus::FinishedCompile)
            == CanvasCompileStatus::FinishedCompile,
        forall|c: CanvasCompileStatus|
            c != CanvasCompileStatus::NeedsCompile ==> #[trigger] status_after(
                c,
                CanvasCompileStatus::Compiling,
            ) == c,
        forall|c: CanvasCompileStatus, r: CanvasCompileStatus|
            #[trigger] status_after(c, r) == c || status_after(c, r) == r,
{
}

impl CanvasCompileStatus {
    /// The status after a transition to `requested` is asked for.
    pub fn after_request(self, requested: CanvasCompileStatus) -> (r: CanvasCompileStatus)
        ensures
            r == status_after(self, requested),
    {
        match requested {
            CanvasCompileStatus::Compiling => {
                if self == CanvasCompileStatus::NeedsCompile {
                    requested
                } else {
                    self
                }
            },
            CanvasCompileStatus::FinishedCompile => {
                if self == CanvasCompileStatus::Compiling || self
                    == CanvasCompileStatus::NeedsCompile {
                    requested
                } else {
                    self
                }
            },
            CanvasCompileStatus::NeedsCompile => self,
        }
    }

    /// Asks for a transition to `requested`; returns whether it was honoured.
    pub fn request(&mut self, requested: CanvasCompileStatus) -> (honoured: bool)
        ensures
            *final(self) == status_after(*old(self), requested),
            honoured == (*final(self) == requested && *old(self) != requested),
    {
        let next = self.after_request(requested);
        let honoured = next != *self;
        *self = next;
        honoured
    }

    /// Starts a new compile request: the toolbar's compile action, allowed
    /// from every status.
    pub fn begin_request(&mut self)
        ensures
            *final(self) == CanvasCompileStatus::NeedsCompile,
    {
        *self = CanvasCompileStatus::NeedsCompile;
    }
}

} // verus!
