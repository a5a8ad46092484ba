use vstd::prelude::*;
use vstd::string::StringExecFns;

verus! {

/// The full shader program text: the fixed vertex preamble followed by the
/// user's fragment source.
pub fn compose_shader(vertex_preamble: &str, fragment: &str) -> (r: String)
    ensures
        r@ == vertex_preamble@ + fragment@,
{
    let base = String::from_str(vertex_preamble);
    base.concat(fragment)
}

/// A request from the UI side to the renderer.
pub enum CanvasMessage {
    SetShader(String),
}

impl CanvasMessage {
    pub open spec fn text(self) -> Seq<char> {
        match self {
            CanvasMessage::SetShader(s) => s@,
        }
    }
}

/// The shader text in force once every message of `queue` has been applied
/// in order to a renderer whose text was `current`: the last message wins.
pub open spec fn coalesced(current: Seq<char>, queue: Seq<CanvasMessage>) -> Seq<char> {
    if queue.len() == 0 {
        current
    } else {
        queue.last().text()
    }
}

/// The text in force after applying the messages of `queue` one at a time,
/// front first.
pub open spec fn applied_in_order(current: Seq<char>, queue: Seq<CanvasMessage>) -> Seq<char>
    decreases queue.len(),
{
    if queue.len() == 0 {
        current
    } else {
        applied_in_order(queue[0].text(), queue.drop_first())
    }
}

/// Coalescing is sound: applying only the newest message of a queue leaves
/// the same text in force as applying every message in delivery order.
pub proof fn lemma_coalescing_matches_in_order(current: Seq<char>, queue: Seq<CanvasMessage>)
    ensures
        coalesced(current, queue) == applied_in_order(current, queue),
    decreases queue.len(),
{
    if queue.len() > 0 {
        lemma_coalescing_matches_in_order(queue[0].text(), queue.drop_first());
        if queue.len() > 1 {
            assert(queue.drop_first().last() == queue.last());
        }
    }
}

/// Enqueuing a message makes its text the one in force after coalescing,
/// whatever was queued before it.
pub proof fn lemma_last_message_wins(current: Seq<char>, queue: Seq<CanvasMessage>, message: CanvasMessage)
    ensures
        coalesced(current, queue.push(message)) == message.text(),
{
}

} // verus!
