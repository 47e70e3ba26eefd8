//! The bridge itself: its state, and its reaction to each event.
//!
//! The bridge never talks to the network. It is told what happened, changes
//! its transcript, and says what is to be done next. Whoever runs it polls
//! the broker, performs the exchange with the completion service and
//! publishes the reply.

use crate::completion::{
    reply_view, request_for, CompletionError, CompletionErrorView, CompletionRequest, RequestView,
};
use crate::config::{BridgeConfig, ConfigView};
use crate::message::{views, ConversationMessage, MessageView, Role};
use crate::sanitizer::{byte_len, lemma_truncated_bounded, truncate_message, truncated};
use crate::session::Qos;
use crate::store::{keep_last, ConversationStore};
use crate::text::{decode_lossy, lossy_text, same_text};
use vstd::prelude::*;

verus! {

/// Milliseconds to wait after a transport error before polling again.
pub const ERROR_PAUSE_MILLIS: u64 = 100;

/// Whether the broker session is up.
#[derive(Clone, Copy, Debug, PartialEq, Eq, Structural)]
pub enum ConnectionState {
    Disconnected,
    Connected,
}

/// What the broker side reports to the bridge.
#[derive(Debug, PartialEq, Eq)]
pub enum InboundEvent {
    /// The broker accepted the connection.
    ConnectionEstablished,
    /// A message arrived on `topic`.
    MessagePublished { topic: String, payload: Vec<u8> },
    /// The transport failed.
    TransportError { detail: String },
    /// Anything else.
    Other,
}

/// The mathematical content of an [`InboundEvent`].
pub ghost enum EventView {
    ConnectionEstablished,
    MessagePublished { topic: Seq<char>, payload: Seq<u8> },
    TransportError { detail: Seq<char> },
    Other,
}

impl View for InboundEvent {
    type V = EventView;

    open spec fn view(&self) -> EventView {
        match self {
            InboundEvent::ConnectionEstablished => EventView::ConnectionEstablished,
            InboundEvent::MessagePublished { topic, payload } => EventView::MessagePublished {
                topic: topic@,
                payload: payload@,
            },
            InboundEvent::TransportError { detail } => EventView::TransportError {
                detail: detail@,
            },
            InboundEvent::Other => EventView::Other,
        }
    }
}

/// What is to be done after an event.
#[derive(Debug, PartialEq, Eq)]
pub enum Reaction {
    /// The session is up. Nothing else is to be done.
    Connected,
    /// The remote party said `heard`, which is now part of the transcript.
    /// A completion of `request` is to be asked for and its outcome handed to
    /// [`Bridge::on_completion`].
    Complete { heard: String, request: CompletionRequest },
    /// A message arrived on a topic that the bridge does not listen to.
    Ignored { topic: String },
    /// The transport failed. Polling resumes after `millis` milliseconds.
    Pause { detail: String, millis: u64 },
    /// Nothing is to be done.
    Nothing,
}

/// The mathematical content of a [`Reaction`].
pub ghost enum ReactionView {
    Connected,
    Complete { heard: Seq<char>, request: RequestView },
    Ignored { topic: Seq<char> },
    Pause { detail: Seq<char>, millis: nat },
    Nothing,
}

impl View for Reaction {
    type V = ReactionView;

    open spec fn view(&self) -> ReactionView {
        match self {
            Reaction::Connected => ReactionView::Connected,
            Reaction::Complete { heard, request } => ReactionView::Complete {
                heard: heard@,
                request: request@,
            },
            Reaction::Ignored { topic } => ReactionView::Ignored { topic: topic@ },
            Reaction::Pause { detail, millis } => ReactionView::Pause {
                detail: detail@,
                millis: *millis as nat,
            },
            Reaction::Nothing => ReactionView::Nothing,
        }
    }
}

/// What is to be done after an exchange with the completion service.
#[derive(Debug, PartialEq, Eq)]
pub enum Delivery {
    /// The reply is part of the transcript and is to be published.
    Publish { topic: String, payload: String, qos: Qos, retain: bool },
    /// The exchange failed. Nothing was recorded and nothing is published.
    Abandoned { error: CompletionError },
}

/// The mathematical content of a [`Delivery`].
pub ghost enum DeliveryView {
    Publish { topic: Seq<char>, payload: Seq<char>, qos: Qos, retain: bool },
    Abandoned { error: CompletionErrorView },
}

impl View for Delivery {
    type V = DeliveryView;

    open spec fn view(&self) -> DeliveryView {
        match self {
            Delivery::Publish { topic, payload, qos, retain } => DeliveryView::Publish {
                topic: topic@,
                payload: payload@,
                qos: *qos,
                retain: *retain,
            },
            Delivery::Abandoned { error } => DeliveryView::Abandoned { error: error@ },
        }
    }
}

/// The mathematical content of a [`Bridge`].
pub ghost struct BridgeView {
    pub config: ConfigView,
    pub transcript: Seq<MessageView>,
    pub connection: ConnectionState,
}

/// True when no text of `transcript` is longer than `max_len` bytes.
pub open spec fn all_within(transcript: Seq<MessageView>, max_len: nat) -> bool {
    forall|i: int| 0 <= i < transcript.len() ==> byte_len(#[trigger] transcript[i].text) <= max_len
}

/// What holds of a bridge at all times: the transcript is within its bound
/// and every text in it is within the message length.
pub open spec fn well_formed(state: BridgeView) -> bool {
    &&& state.transcript.len() <= state.config.max_history
    &&& all_within(state.transcript, state.config.max_message_length)
}

/// The state in which a bridge starts: not connected, nothing said.
pub open spec fn initial(config: ConfigView) -> BridgeView {
    BridgeView { config, transcript: Seq::empty(), connection: ConnectionState::Disconnected }
}

/// The transcript after `text` was cut to the message length and recorded
/// as a turn of the assistant.
pub open spec fn recorded(state: BridgeView, text: Seq<char>) -> Seq<MessageView> {
    keep_last(
        state.transcript.push(
            MessageView {
                role: Role::Assistant,
                text: truncated(text, state.config.max_message_length),
            },
        ),
        state.config.max_history,
    )
}

/// State and reaction after a message with the given text arrived on
/// `topic`. On the inbound topic the text is cut to the message length and
/// recorded, and a completion of the whole transcript is asked for. On any
/// other topic nothing changes.
pub open spec fn heard(state: BridgeView, topic: Seq<char>, text: Seq<char>) -> (
    BridgeView,
    ReactionView,
) {
    if topic == state.config.inbound_topic {
        let transcript = recorded(state, text);
        (
            BridgeView { transcript, ..state },
            ReactionView::Complete {
                heard: truncated(text, state.config.max_message_length),
                request: request_for(transcript, state.config.model),
            },
        )
    } else {
        (state, ReactionView::Ignored { topic })
    }
}

/// State and reaction after an event.
pub open spec fn reacted(state: BridgeView, event: EventView) -> (BridgeView, ReactionView) {
    match event {
        EventView::ConnectionEstablished => (
            BridgeView { connection: ConnectionState::Connected, ..state },
            ReactionView::Connected,
        ),
        EventView::MessagePublished { topic, payload } => heard(state, topic, lossy_text(payload)),
        EventView::TransportError { detail } => (
            state,
            ReactionView::Pause { detail, millis: ERROR_PAUSE_MILLIS as nat },
        ),
        EventView::Other => (state, ReactionView::Nothing),
    }
}

/// State and delivery after an exchange. A reply is cut to the message
/// length, recorded and published on the outbound topic, at most once and
/// not retained. A failure changes nothing.
pub open spec fn completed(state: BridgeView, reply: Result<Seq<char>, CompletionErrorView>) -> (
    BridgeView,
    DeliveryView,
) {
    match reply {
        Ok(text) => (
            BridgeView { transcript: recorded(state, text), ..state },
            DeliveryView::Publish {
                topic: state.config.outbound_topic,
                payload: truncated(text, state.config.max_message_length),
                qos: Qos::AtMostOnce,
                retain: false,
            },
        ),
        Err(error) => (state, DeliveryView::Abandoned { error }),
    }
}

/// Recording a text keeps a bridge well formed.
pub proof fn lemma_recorded_well_formed(state: BridgeView, text: Seq<char>)
    requires
        well_formed(state),
    ensures
        well_formed(BridgeView { transcript: recorded(state, text), ..state }),
        recorded(state, text).len() == if state.transcript.len() < state.config.max_history {
            state.transcript.len() + 1
        } else {
            state.config.max_history
        },
{
    lemma_truncated_bounded(text, state.config.max_message_length);
}

/// No event, and no outcome of an exchange, leads a well-formed bridge out
/// of the well-formed states or changes its configuration.
pub proof fn lemma_bridge_stays_well_formed(
    state: BridgeView,
    event: EventView,
    reply: Result<Seq<char>, CompletionErrorView>,
)
    requires
        well_formed(state),
    ensures
        well_formed(reacted(state, event).0),
        well_formed(completed(state, reply).0),
        reacted(state, event).0.config == state.config,
        completed(state, reply).0.config == state.config,
{
    match event {
        EventView::MessagePublished { topic, payload } => {
            lemma_recorded_well_formed(state, lossy_text(payload));
        },
        _ => {},
    }
    match reply {
        Ok(text) => {
            lemma_recorded_well_formed(state, text);
        },
        Err(_) => {},
    }
}

/// A failed exchange, a message on another topic, a transport error and an
/// event of no interest all leave the bridge exactly as it was.
pub proof fn lemma_failures_change_nothing(
    state: BridgeView,
    error: CompletionErrorView,
    topic: Seq<char>,
    payload: Seq<u8>,
    detail: Seq<char>,
)
    ensures
        completed(state, Err(error)) == (state, DeliveryView::Abandoned { error }),
        topic != state.config.inbound_topic ==> reacted(
            state,
            EventView::MessagePublished { topic, payload },
        ) == (state, ReactionView::Ignored { topic }),
        reacted(state, EventView::TransportError { detail }).0 == state,
        reacted(state, EventView::Other) == (state, ReactionView::Nothing),
{
}

/// The state of a running bridge: its settings, the transcript, and whether
/// the broker session is up.
#[derive(Debug)]
pub struct Bridge {
    config: BridgeConfig,
    store: ConversationStore,
    connection: ConnectionState,
}

impl View for Bridge {
    type V = BridgeView;

    closed spec fn view(&self) -> BridgeView {
        BridgeView {
            config: self.config@,
            transcript: self.store@,
            connection: self.connection,
        }
    }
}

impl Bridge {
    #[verifier::type_invariant]
    spec fn consistent(&self) -> bool {
        &&& self.store.bound() == self.config@.max_history
        &&& self.store@.len() <= self.store.bound()
        &&& all_within(self.store@, self.config@.max_message_length)
    }

    /// A bridge with the given settings, not connected, with an empty
    /// transcript.
    pub fn new(config: BridgeConfig) -> (bridge: Self)
        ensures
            bridge@ == initial(config@),
            well_formed(bridge@),
    {
        let store = ConversationStore::new(config.max_history());
        Bridge { config, store, connection: ConnectionState::Disconnected }
    }

    /// The settings of this bridge.
    pub fn config(&self) -> (config: &BridgeConfig)
        ensures
            config@ == self@.config,
    {
        &self.config
    }

    /// Whether the broker session is up.
    pub fn connection(&self) -> (connection: ConnectionState)
        ensures
            connection == self@.connection,
    {
        self.connection
    }

    /// A copy of the transcript, oldest turn first.
    pub fn transcript(&self) -> (turns: Vec<ConversationMessage>)
        ensures
            views(turns@) == self@.transcript,
            turns@.len() <= self@.config.max_history,
    {
        proof {
            use_type_invariant(self);
        }
        let turns = self.store.snapshot();
        assert(views(turns@).len() == turns@.len());
        turns
    }

    /// The number of turns in the transcript.
    pub fn history_len(&self) -> (len: usize)
        ensures
            len == self@.transcript.len(),
            len <= self@.config.max_history,
    {
        proof {
            use_type_invariant(self);
        }
        self.store.len()
    }

    /// Records `text`, cut to the message length, as a turn of the
    /// assistant, and returns what was recorded.
    fn record(self, text: &str) -> (out: (Self, String))
        ensures
            out.0@ == (BridgeView { transcript: recorded(self@, text@), ..self@ }),
            out.1@ == truncated(text@, self@.config.max_message_length),
            well_formed(out.0@),
    {
        proof {
            use_type_invariant(&self);
            lemma_recorded_well_formed(self@, text@);
        }
        let Bridge { config, mut store, connection } = self;
        let said = truncate_message(text, config.max_message_length());
        store.append(Role::Assistant, said.clone());
        (Bridge { config, store, connection }, said)
    }

    /// Reacts to a message with the given text that arrived on `topic`.
    ///
    /// On the inbound topic the text is cut to the message length and
    /// recorded as a turn of the assistant, and the reaction asks for a
    /// completion of the whole transcript by the configured model. A
    /// message on any other topic is ignored.
    pub fn on_message(self, topic: &str, text: &str) -> (out: (Self, Reaction))
        ensures
            (out.0@, out.1@) == heard(self@, topic@, text@),
            well_formed(out.0@),
    {
        proof {
            use_type_invariant(&self);
        }
        if same_text(topic, self.config.inbound_topic()) {
            let (next, said) = self.record(text);
            let request = CompletionRequest::new(next.store.snapshot(), next.config.model());
            (next, Reaction::Complete { heard: said, request })
        } else {
            (self, Reaction::Ignored { topic: topic.to_owned() })
        }
    }

    /// Reacts to an event from the broker side.
    ///
    /// An established connection is noted. A published message is read as
    /// text and handled by [`Bridge::on_message`]. A transport error asks for
    /// a short pause. Anything else is passed over. No event makes the
    /// bridge fail.
    pub fn on_event(self, event: InboundEvent) -> (out: (Self, Reaction))
        ensures
            (out.0@, out.1@) == reacted(self@, event@),
            well_formed(out.0@),
    {
        proof {
            use_type_invariant(&self);
        }
        match event {
            InboundEvent::ConnectionEstablished => {
                let Bridge { config, store, connection: _ } = self;
                (
                    Bridge { config, store, connection: ConnectionState::Connected },
                    Reaction::Connected,
                )
            },
            InboundEvent::MessagePublished { topic, payload } => {
                let text = decode_lossy(payload.as_slice());
                self.on_message(topic.as_str(), text.as_str())
            },
            InboundEvent::TransportError { detail } => (
                self,
                Reaction::Pause { detail, millis: ERROR_PAUSE_MILLIS },
            ),
            InboundEvent::Other => (self, Reaction::Nothing),
        }
    }

    /// Takes in the outcome of the exchange that the last reaction asked
    /// for.
    ///
    /// A reply is cut to the message length, recorded as a turn of the
    /// assistant, and handed back for publishing on the outbound topic. A
    /// failure is handed back as it is: nothing more is recorded, nothing is
    /// published, and the turn that led to the exchange stays in the
    /// transcript.
    pub fn on_completion(self, reply: Result<String, CompletionError>) -> (out: (Self, Delivery))
        ensures
            (out.0@, out.1@) == completed(self@, reply_view(reply)),
            well_formed(out.0@),
    {
        proof {
            use_type_invariant(&self);
        }
        match reply {
            Ok(text) => {
                let topic = self.config.outbound_topic().to_owned();
                let (next, said) = self.record(text.as_str());
                (next, Delivery::Publish { topic, payload: said, qos: Qos::AtMostOnce, retain: false })
            },
            Err(error) => (self, Delivery::Abandoned { error }),
        }
    }
}

} // verus!
