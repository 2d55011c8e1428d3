//! What holds of the driver over whole runs of inputs.
use vstd::prelude::*;
use crate::content_id::message_id_of;
use crate::driver::{next_state, reaction_of, delivers, lossy_text_of, OverlayView, InputView, NoticeView, CommandView};

verus! {

/// The state after the inputs, taken in order from `s`.
pub open spec fn run(s: OverlayView, inputs: Seq<InputView>) -> OverlayView
    decreases inputs.len(),
{
    if inputs.len() == 0 {
        s
    } else {
        next_state(run(s, inputs.drop_last()), inputs.last())
    }
}

/// The notices emitted over the inputs, in order.
pub open spec fn emitted(s: OverlayView, inputs: Seq<InputView>) -> Seq<NoticeView>
    decreases inputs.len(),
{
    if inputs.len() == 0 {
        Seq::empty()
    } else {
        let before = inputs.drop_last();
        emitted(s, before) + match reaction_of(run(s, before), inputs.last()).notice {
            Some(n) => seq![n],
            None => Seq::empty(),
        }
    }
}

/// The identifier of a `MessageReceived` notice.
pub open spec fn received_id(n: NoticeView) -> Option<Seq<char>> {
    match n {
        NoticeView::MessageReceived { id, .. } => Some(id),
        _ => None,
    }
}

/// Delivered identifiers are never forgotten, and each one emitted is
/// among them.
pub proof fn lemma_emitted_ids_recorded(s: OverlayView, inputs: Seq<InputView>)
    ensures
        s.delivered.subset_of(run(s, inputs).delivered),
        forall|k: int| 0 <= k < emitted(s, inputs).len() && #[trigger] received_id(emitted(s, inputs)[k]) is Some
            ==> run(s, inputs).delivered.contains(received_id(emitted(s, inputs)[k])->Some_0),
    decreases inputs.len(),
{
    if inputs.len() > 0 {
        let before = inputs.drop_last();
        lemma_emitted_ids_recorded(s, before);
        let mid = run(s, before);
        assert(mid.delivered.subset_of(run(s, inputs).delivered));
        assert forall|k: int| 0 <= k < emitted(s, inputs).len() && #[trigger] received_id(emitted(s, inputs)[k]) is Some
            implies run(s, inputs).delivered.contains(received_id(emitted(s, inputs)[k])->Some_0) by {
            if k < emitted(s, before).len() {
                assert(emitted(s, inputs)[k] == emitted(s, before)[k]);
            }
        }
    }
}

/// At-most-once delivery: starting from any state, no two notices over a
/// run report a received message with the same identifier, and none
/// reports one that was delivered before the run.
pub proof fn lemma_at_most_once(s: OverlayView, inputs: Seq<InputView>, i: int, j: int)
    requires
        0 <= i < j < emitted(s, inputs).len(),
        received_id(emitted(s, inputs)[i]) is Some,
    ensures
        received_id(emitted(s, inputs)[i]) != received_id(emitted(s, inputs)[j]),
        !s.delivered.contains(received_id(emitted(s, inputs)[i])->Some_0),
    decreases inputs.len(),
{
    let before = inputs.drop_last();
    let e0 = emitted(s, before);
    let mid = run(s, before);
    lemma_emitted_ids_recorded(s, before);
    lemma_fresh_when_emitted(s, inputs, i);
    if j < e0.len() {
        assert(emitted(s, inputs)[i] == e0[i]);
        assert(emitted(s, inputs)[j] == e0[j]);
        lemma_at_most_once(s, before, i, j);
    } else {
        assert(emitted(s, inputs)[i] == e0[i]);
        assert(mid.delivered.contains(received_id(e0[i])->Some_0));
        match inputs.last() {
            InputView::Message { id, signed, .. } => {
                assert(delivers(mid, id, signed));
            },
            _ => {},
        }
    }
}

/// A notice of a received message reports an identifier that was not
/// delivered when the run began.
proof fn lemma_fresh_when_emitted(s: OverlayView, inputs: Seq<InputView>, i: int)
    requires
        0 <= i < emitted(s, inputs).len(),
        received_id(emitted(s, inputs)[i]) is Some,
    ensures
        !s.delivered.contains(received_id(emitted(s, inputs)[i])->Some_0),
    decreases inputs.len(),
{
    let before = inputs.drop_last();
    let e0 = emitted(s, before);
    let mid = run(s, before);
    lemma_emitted_ids_recorded(s, before);
    if i < e0.len() {
        assert(emitted(s, inputs)[i] == e0[i]);
        lemma_fresh_when_emitted(s, before, i);
    } else {
        match inputs.last() {
            InputView::Message { id, signed, .. } => {
                assert(delivers(mid, id, signed));
                assert(s.delivered.subset_of(mid.delivered));
            },
            _ => {},
        }
    }
}

/// A peer that discovery reported stays in the explicit forwarding set
/// until discovery reports it expired.
pub proof fn lemma_explicit_until_expiry(s: OverlayView, inputs: Seq<InputView>, k: int, p: Seq<char>)
    requires
        0 <= k < inputs.len(),
        inputs[k] == InputView::Discovered(p),
        forall|j: int| k < j < inputs.len() ==> inputs[j] != InputView::Expired(p),
    ensures
        run(s, inputs).explicit.contains(p),
    decreases inputs.len(),
{
    let before = inputs.drop_last();
    if k < inputs.len() - 1 {
        assert forall|j: int| k < j < before.len() implies before[j] != InputView::Expired(p) by {
            assert(before[j] == inputs[j]);
        }
        assert(before[k] == inputs[k]);
        lemma_explicit_until_expiry(s, before, k, p);
        assert(inputs.last() == inputs[inputs.len() - 1]);
    }
}

/// Content identity: when the bytes a node receives are the bytes another
/// node published, the identifier it reports for them is the one the
/// publisher computed (both nodes of one build and target, as
/// `message_id_of` is), the text is the published one, and the peer named
/// is the publisher.
pub proof fn lemma_content_identity(s: OverlayView, sent: Seq<u8>, origin: Seq<char>, received: Seq<u8>)
    requires
        received == sent,
        !s.delivered.contains(message_id_of(received)),
    ensures
        reaction_of(
            s,
            InputView::Message { origin, id: message_id_of(received), data: received, signed: true },
        ).notice == Some(
            NoticeView::MessageReceived { text: lossy_text_of(sent), id: message_id_of(sent), peer: origin },
        ),
{
}

/// Strict validation: a message without a valid signature is neither
/// delivered nor acted on, and leaves the state as it was.
pub proof fn lemma_unsigned_dropped(s: OverlayView, origin: Seq<char>, id: Seq<char>, data: Seq<u8>)
    ensures
        reaction_of(s, InputView::Message { origin, id, data, signed: false }).notice is None,
        reaction_of(s, InputView::Message { origin, id, data, signed: false }).command is None,
        next_state(s, InputView::Message { origin, id, data, signed: false }) == s,
{
}

/// Publishing is not deduplicated by the publisher: the same text asked
/// for twice is sent twice.
pub proof fn lemma_publish_twice(s: OverlayView, text: Seq<char>)
    ensures
        reaction_of(s, InputView::Publish(text)).command == Some(CommandView::Publish(text)),
        reaction_of(next_state(s, InputView::Publish(text)), InputView::Publish(text)).command
            == Some(CommandView::Publish(text)),
{
}

/// Deduplication happens at the receiver: of two signed messages with one
/// identifier, a node delivers the first, if it is new, and never the
/// second.
pub proof fn lemma_receiver_dedup(
    s: OverlayView,
    first: InputView,
    second: InputView,
)
    requires
        first is Message,
        second is Message,
        first->Message_signed,
        second->Message_id == first->Message_id,
    ensures
        reaction_of(next_state(s, first), second).notice is None,
        !s.delivered.contains(first->Message_id) ==> reaction_of(s, first).notice == Some(
            NoticeView::MessageReceived {
                text: lossy_text_of(first->Message_data),
                id: first->Message_id,
                peer: first->Message_origin,
            },
        ),
{
}

} // verus!
