//! The overlay driver: the one loop that owns the node's overlay state.
//!
//! Each event that reaches the node (a publish request from the host, a
//! discovery event, a received message, a new listener) is handed to
//! [`Overlay::step`], which updates the state and answers with a
//! [`Reaction`]: at most one notice for the host and at most one command for
//! the dissemination overlay. The loop that waits on the network and the
//! command queue, and that carries the reaction out, lives outside.
//!
//! The dissemination overlay already validates signatures and drops
//! duplicates; the driver holds both guarantees at the host boundary as
//! well, whatever the overlay hands up: an unsigned message, or one whose
//! identifier was delivered before, never reaches the host. The record of
//! delivered identifiers is never pruned: pruning it would let a message
//! that arrives again late be delivered twice.
use vstd::prelude::*;
use crate::id_set::IdSet;
use vstd::string::*;

verus! {

/// Text of a payload as std decodes it, invalid sequences replaced.
pub uninterp spec fn lossy_text_of(data: Seq<u8>) -> Seq<char>;

/// Whether every byte is ASCII.
pub open spec fn all_ascii(data: Seq<u8>) -> bool {
    forall|i: int| 0 <= i < data.len() ==> #[trigger] data[i] < 128
}

/// Relies on `String::from_utf8_lossy`: the text of the bytes, with each
/// invalid sequence replaced by U+FFFD. Valid UTF-8, ASCII among it, comes
/// back unchanged; no bytes give no text.
#[verifier::external_body]
fn decode_lossy(data: &Vec<u8>) -> (r: String)
    ensures
        r@ == lossy_text_of(data@),
        data@.len() == 0 ==> r@.len() == 0,
        all_ascii(data@) ==> r@ == data@.map_values(|b: u8| b as char),
{
    String::from_utf8_lossy(data).into_owned()
}

/// A message the dissemination overlay hands up.
pub struct InboundMessage {
    /// The peer that published it, as its signature attests; not the
    /// peer that relayed it here.
    pub origin: String,
    /// Its content identifier.
    pub id: String,
    pub data: Vec<u8>,
    /// Whether it carries a signature from its claimed originator.
    pub signed: bool,
}

/// What reaches the driver.
pub enum Input {
    /// The host asks for a text to be published.
    Publish(String),
    /// Local discovery saw a peer.
    Discovered(String),
    /// Local discovery lost a peer.
    Expired(String),
    /// The dissemination overlay delivered a message.
    Message(InboundMessage),
    /// A listener was bound to an address.
    Listening(String),
    /// A publish request failed, with the failure's description.
    PublishFailed(String),
    /// Any other lower-level event.
    Other,
}

pub ghost enum InputView {
    Publish(Seq<char>),
    Discovered(Seq<char>),
    Expired(Seq<char>),
    Message { origin: Seq<char>, id: Seq<char>, data: Seq<u8>, signed: bool },
    Listening(Seq<char>),
    PublishFailed(Seq<char>),
    Other,
}

impl View for Input {
    type V = InputView;

    open spec fn view(&self) -> InputView {
        match self {
            Input::Publish(t) => InputView::Publish(t@),
            Input::Discovered(p) => InputView::Discovered(p@),
            Input::Expired(p) => InputView::Expired(p@),
            Input::Message(m) => InputView::Message {
                origin: m.origin@,
                id: m.id@,
                data: m.data@,
                signed: m.signed,
            },
            Input::Listening(a) => InputView::Listening(a@),
            Input::PublishFailed(e) => InputView::PublishFailed(e@),
            Input::Other => InputView::Other,
        }
    }
}

/// An event for the host application.
pub enum Notice {
    ListeningAddress(String),
    PeerDiscovered(String),
    PeerExpired(String),
    MessageReceived { text: String, id: String, peer: String },
    PublishError(String),
}

pub ghost enum NoticeView {
    ListeningAddress(Seq<char>),
    PeerDiscovered(Seq<char>),
    PeerExpired(Seq<char>),
    MessageReceived { text: Seq<char>, id: Seq<char>, peer: Seq<char> },
    PublishError(Seq<char>),
}

impl View for Notice {
    type V = NoticeView;

    open spec fn view(&self) -> NoticeView {
        match self {
            Notice::ListeningAddress(a) => NoticeView::ListeningAddress(a@),
            Notice::PeerDiscovered(p) => NoticeView::PeerDiscovered(p@),
            Notice::PeerExpired(p) => NoticeView::PeerExpired(p@),
            Notice::MessageReceived { text, id, peer } => NoticeView::MessageReceived {
                text: text@,
                id: id@,
                peer: peer@,
            },
            Notice::PublishError(e) => NoticeView::PublishError(e@),
        }
    }
}

/// The line shown to the user for a notice.
pub open spec fn notice_text(n: NoticeView) -> Seq<char> {
    match n {
        NoticeView::ListeningAddress(a) => "ローカルノードがリッスン中: "@ + a,
        NoticeView::PeerDiscovered(p) => "mDNSで新しいピアを発見: "@ + p,
        NoticeView::PeerExpired(p) => "mDNSでピアの有効期限切れ: "@ + p,
        NoticeView::MessageReceived { text, id, peer } => "メッセージ受信: '"@ + text + "' (id: "@ + id
            + ", ピア: "@ + peer + ")"@,
        NoticeView::PublishError(e) => "Publish error: "@ + e,
    }
}

impl Notice {
    /// The line shown to the user for this notice.
    pub fn describe(&self) -> (r: String)
        ensures
            r@ == notice_text(self@),
    {
        match self {
            Notice::ListeningAddress(a) => String::from_str("ローカルノードがリッスン中: ").concat(a.as_str()),
            Notice::PeerDiscovered(p) => String::from_str("mDNSで新しいピアを発見: ").concat(p.as_str()),
            Notice::PeerExpired(p) => String::from_str("mDNSでピアの有効期限切れ: ").concat(p.as_str()),
            Notice::MessageReceived { text, id, peer } => {
                let r = String::from_str("メッセージ受信: '").concat(text.as_str());
                let r = r.concat("' (id: ").concat(id.as_str());
                r.concat(", ピア: ").concat(peer.as_str()).concat(")")
            },
            Notice::PublishError(e) => String::from_str("Publish error: ").concat(e.as_str()),
        }
    }
}

/// What the driver asks of the dissemination overlay.
pub enum OverlayCommand {
    /// Publish the text's bytes on the chat topic.
    Publish(String),
    /// Always forward to this peer.
    AddExplicitPeer(String),
    /// Stop treating this peer as explicit.
    RemoveExplicitPeer(String),
}

pub ghost enum CommandView {
    Publish(Seq<char>),
    AddExplicitPeer(Seq<char>),
    RemoveExplicitPeer(Seq<char>),
}

impl View for OverlayCommand {
    type V = CommandView;

    open spec fn view(&self) -> CommandView {
        match self {
            OverlayCommand::Publish(t) => CommandView::Publish(t@),
            OverlayCommand::AddExplicitPeer(p) => CommandView::AddExplicitPeer(p@),
            OverlayCommand::RemoveExplicitPeer(p) => CommandView::RemoveExplicitPeer(p@),
        }
    }
}

/// The driver's answer to one input.
pub struct Reaction {
    pub notice: Option<Notice>,
    pub command: Option<OverlayCommand>,
}

pub ghost struct ReactionView {
    pub notice: Option<NoticeView>,
    pub command: Option<CommandView>,
}

impl View for Reaction {
    type V = ReactionView;

    open spec fn view(&self) -> ReactionView {
        ReactionView {
            notice: match self.notice {
                Some(n) => Some(n@),
                None => None,
            },
            command: match self.command {
                Some(c) => Some(c@),
                None => None,
            },
        }
    }
}

/// The driver's state: the explicit peers, and the identifiers of the
/// messages already delivered to the host.
pub struct Overlay {
    explicit: IdSet,
    delivered: IdSet,
}

pub ghost struct OverlayView {
    pub explicit: Set<Seq<char>>,
    pub delivered: Set<Seq<char>>,
}

impl View for Overlay {
    type V = OverlayView;

    closed spec fn view(&self) -> OverlayView {
        OverlayView { explicit: self.explicit@, delivered: self.delivered@ }
    }
}

/// The state after input `i` in state `s`.
pub open spec fn next_state(s: OverlayView, i: InputView) -> OverlayView {
    match i {
        InputView::Discovered(p) => OverlayView { explicit: s.explicit.insert(p), ..s },
        InputView::Expired(p) => OverlayView { explicit: s.explicit.remove(p), ..s },
        InputView::Message { id, signed, .. } => {
            if signed {
                OverlayView { delivered: s.delivered.insert(id), ..s }
            } else {
                s
            }
        },
        _ => s,
    }
}

/// Whether a message is handed to the host: it is signed and its
/// identifier has not been delivered before.
pub open spec fn delivers(s: OverlayView, id: Seq<char>, signed: bool) -> bool {
    signed && !s.delivered.contains(id)
}

/// The reaction to input `i` in state `s`.
pub open spec fn reaction_of(s: OverlayView, i: InputView) -> ReactionView {
    match i {
        InputView::Publish(t) => ReactionView {
            notice: None,
            command: Some(CommandView::Publish(t)),
        },
        InputView::Discovered(p) => ReactionView {
            notice: Some(NoticeView::PeerDiscovered(p)),
            command: Some(CommandView::AddExplicitPeer(p)),
        },
        InputView::Expired(p) => ReactionView {
            notice: Some(NoticeView::PeerExpired(p)),
            command: Some(CommandView::RemoveExplicitPeer(p)),
        },
        InputView::Message { origin, id, data, signed } => ReactionView {
            notice: if delivers(s, id, signed) {
                Some(NoticeView::MessageReceived { text: lossy_text_of(data), id, peer: origin })
            } else {
                None
            },
            command: None,
        },
        InputView::Listening(a) => ReactionView {
            notice: Some(NoticeView::ListeningAddress(a)),
            command: None,
        },
        InputView::PublishFailed(e) => ReactionView {
            notice: Some(NoticeView::PublishError(e)),
            command: None,
        },
        InputView::Other => ReactionView { notice: None, command: None },
    }
}

impl Overlay {
    pub closed spec fn wf(&self) -> bool {
        self.explicit.wf() && self.delivered.wf()
    }

    /// A node at startup: no explicit peers, nothing delivered.
    pub fn new() -> (r: Overlay)
        ensures
            r.wf(),
            r@.explicit == Set::<Seq<char>>::empty(),
            r@.delivered == Set::<Seq<char>>::empty(),
    {
        Overlay { explicit: IdSet::new(), delivered: IdSet::new() }
    }

    /// Whether `peer` is in the explicit forwarding set.
    pub fn is_explicit(&self, peer: &String) -> (r: bool)
        ensures
            r == self@.explicit.contains(peer@),
    {
        self.explicit.contains(peer)
    }

    /// Whether a message with identifier `id` has been delivered.
    pub fn was_delivered(&self, id: &String) -> (r: bool)
        ensures
            r == self@.delivered.contains(id@),
    {
        self.delivered.contains(id)
    }

    /// Handles one input.
    pub fn step(&mut self, input: Input) -> (r: Reaction)
        requires
            old(self).wf(),
        ensures
            final(self).wf(),
            final(self)@ == next_state(old(self)@, input@),
            r@ == reaction_of(old(self)@, input@),
            match input@ {
                InputView::Message { origin, id, data, signed } => delivers(old(self)@, id, signed)
                    && all_ascii(data) ==> r@.notice == Some(
                    NoticeView::MessageReceived { text: data.map_values(|b: u8| b as char), id, peer: origin },
                ),
                _ => true,
            },
    {
        match input {
            Input::Publish(t) => Reaction { notice: None, command: Some(OverlayCommand::Publish(t)) },
            Input::Discovered(p) => {
                let q = p.clone();
                self.explicit.insert(q);
                Reaction {
                    notice: Some(Notice::PeerDiscovered(p.clone())),
                    command: Some(OverlayCommand::AddExplicitPeer(p)),
                }
            },
            Input::Expired(p) => {
                self.explicit.remove(&p);
                Reaction {
                    notice: Some(Notice::PeerExpired(p.clone())),
                    command: Some(OverlayCommand::RemoveExplicitPeer(p)),
                }
            },
            Input::Message(m) => {
                if !m.signed {
                    return Reaction { notice: None, command: None };
                }
                let fresh = self.delivered.insert(m.id.clone());
                if fresh {
                    let text = decode_lossy(&m.data);
                    Reaction {
                        notice: Some(Notice::MessageReceived { text, id: m.id, peer: m.origin }),
                        command: None,
                    }
                } else {
                    Reaction { notice: None, command: None }
                }
            },
            Input::Listening(a) => Reaction { notice: Some(Notice::ListeningAddress(a)), command: None },
            Input::PublishFailed(e) => Reaction { notice: Some(Notice::PublishError(e)), command: None },
            Input::Other => Reaction { notice: None, command: None },
        }
    }
}

} // verus!
