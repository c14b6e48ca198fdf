//! The engine that drives one synthesis turn.
//!
//! A session starts idle. Starting a turn gives the two messages that ask for
//! the synthesis, and the session then takes what the stream delivers, one
//! event at a time, until one of them ends the turn: the end of the turn, a
//! close, or a failure.

use vstd::prelude::*;
use crate::errors::{ErrorSource, TransportFault};
use crate::msg::{
    decode, message_of, CloseFrameView, DecodeError, Frame, FrameView, MessageView,
    WebSocketMessage,
};
use crate::outbound::{ssml_message, ssml_text, synthesis_context_message, synthesis_context_text};
use crate::stamp::{fresh_request_id, is_request_id, is_timestamp, timestamp_now};
use crate::synthesizer::websocket::{ErrorKindView, ErrorView, WebsocketSynthesizerError};
use crate::text::{decimal, decimal_string};
use crate::types::AudioFormat;

verus! {

/// Where a session stands.
#[derive(Clone, Copy, Debug, PartialEq, Eq, Structural)]
pub enum EngineState {
    /// No turn has been started.
    Idle,
    /// The request was sent; the service has not yet started the turn.
    AwaitingTurnStart,
    /// The service is sending the turn's audio.
    Streaming,
    /// The turn ended and its result was handed over.
    Completed,
    /// The connection was closed before the turn ended.
    Closed,
    /// The transport failed, or a frame was no message.
    Failed,
}

impl EngineState {
    /// A turn is under way.
    pub open spec fn is_active(self) -> bool {
        self == EngineState::AwaitingTurnStart || self == EngineState::Streaming
    }

    /// The turn is over.
    pub open spec fn is_terminal(self) -> bool {
        self == EngineState::Completed || self == EngineState::Closed || self
            == EngineState::Failed
    }
}

/// What the stream delivers to a session.
#[derive(Debug)]
pub enum Event {
    /// A frame arrived.
    Frame(Frame),
    /// Reading or writing failed.
    Fault(TransportFault),
    /// The stream ended without a close frame.
    EndOfStream,
}

/// An event as mathematical values.
pub enum EventView {
    Frame(FrameView),
    Fault(TransportFault),
    EndOfStream,
}

impl View for Event {
    type V = EventView;

    open spec fn view(&self) -> EventView {
        match self {
            Event::Frame(frame) => EventView::Frame(frame@),
            Event::Fault(fault) => EventView::Fault(*fault),
            Event::EndOfStream => EventView::EndOfStream,
        }
    }
}

/// What a session asks for after an event.
#[derive(Debug)]
pub enum Step {
    /// The turn goes on: deliver the next event.
    Continue,
    /// The turn ended; this is its result.
    Completed { audio: Vec<u8>, metadata: Vec<String> },
    /// The turn failed; nothing of what was received is kept.
    Failed(WebsocketSynthesizerError),
    /// No turn is under way, and the event was dropped.
    Inactive,
}

/// A step as mathematical values.
pub enum StepView {
    Continue,
    Completed { audio: Seq<u8>, metadata: Seq<Seq<char>> },
    Failed(ErrorView),
    Inactive,
}

impl View for Step {
    type V = StepView;

    open spec fn view(&self) -> StepView {
        match self {
            Step::Continue => StepView::Continue,
            Step::Completed { audio, metadata } => StepView::Completed {
                audio: audio@,
                metadata: metadata.deep_view(),
            },
            Step::Failed(error) => StepView::Failed(error@),
            Step::Inactive => StepView::Inactive,
        }
    }
}

/// The state of one synthesis turn.
#[derive(Debug)]
pub struct Session {
    state: EngineState,
    audio_format: AudioFormat,
    request_id: String,
    buffer: Vec<u8>,
    metadata: Vec<String>,
}

/// What a turn has come to: where it stands, the audio received so far, and
/// the metadata received so far.
pub struct TurnView {
    pub state: EngineState,
    pub buffer: Seq<u8>,
    pub metadata: Seq<Seq<char>>,
}

impl View for Session {
    type V = TurnView;

    closed spec fn view(&self) -> TurnView {
        TurnView {
            state: self.state,
            buffer: self.buffer@,
            metadata: self.metadata.deep_view(),
        }
    }
}

/// A turn in the given state with nothing received.
pub open spec fn empty_turn(state: EngineState) -> TurnView {
    TurnView { state, buffer: Seq::empty(), metadata: Seq::empty() }
}

/// The reason given for a close that came without one.
pub open spec fn default_close_reason() -> Seq<char> {
    "The server closed the connection without a reason"@
}

/// The error with which a turn fails when the connection is closed.
pub open spec fn closed_error(close: Option<CloseFrameView>) -> ErrorView {
    ErrorView {
        kind: match close {
            Some(frame) => ErrorKindView::WebsocketConnectionClosed {
                code: decimal(frame.code as nat),
                reason: frame.reason,
            },
            None => ErrorKindView::WebsocketConnectionClosed {
                code: "Unknown"@,
                reason: default_close_reason(),
            },
        },
        source: None,
    }
}

/// The error with which a turn fails when the transport does: a websocket
/// error, with the fault as its cause.
pub open spec fn transport_error(fault: TransportFault) -> ErrorView {
    ErrorView { kind: ErrorKindView::Websocket, source: Some(ErrorSource::Transport(fault)) }
}

/// The error with which a turn fails when a frame is no message.
pub open spec fn invalid_message_error(e: DecodeError) -> ErrorView {
    ErrorView { kind: ErrorKindView::InvalidMessage, source: Some(ErrorSource::Message(e)) }
}

/// What a message does to a turn that is under way.
///
/// The start of the turn moves the session on to streaming. Audio and
/// metadata are added to what was received, and the end of the turn is taken
/// as such, whether or not the start of the turn was seen before. Responses
/// and messages of unknown kinds are passed over. A turn ends with nothing
/// kept: its audio and metadata are handed over when it completes, and
/// dropped when the connection is closed.
pub open spec fn after_message(s: TurnView, message: MessageView) -> (TurnView, StepView) {
    match message {
        MessageView::TurnStart => (
            TurnView { state: EngineState::Streaming, ..s },
            StepView::Continue,
        ),
        MessageView::Response { body } => (s, StepView::Continue),
        MessageView::Audio { data } => (
            TurnView { buffer: s.buffer + data, ..s },
            StepView::Continue,
        ),
        MessageView::AudioMetadata { body } => (
            TurnView { metadata: s.metadata.push(body), ..s },
            StepView::Continue,
        ),
        MessageView::TurnEnd => (
            empty_turn(EngineState::Completed),
            StepView::Completed { audio: s.buffer, metadata: s.metadata },
        ),
        MessageView::Close(close) => (
            empty_turn(EngineState::Closed),
            StepView::Failed(closed_error(close)),
        ),
        MessageView::Unrecognized => (s, StepView::Continue),
    }
}

/// What an event does to a session, and what the session asks for next.
///
/// A session in which no turn is under way stays as it is. In a turn, a
/// frame is read as a message; a frame that is no message, a fault, and the
/// end of the stream each end the turn with nothing kept.
pub open spec fn after_event(s: TurnView, event: EventView) -> (TurnView, StepView) {
    if !s.state.is_active() {
        (s, StepView::Inactive)
    } else {
        match event {
            EventView::Frame(frame) => match message_of(frame) {
                Ok(message) => after_message(s, message),
                Err(e) => (
                    empty_turn(EngineState::Failed),
                    StepView::Failed(invalid_message_error(e)),
                ),
            },
            EventView::Fault(fault) => (
                empty_turn(EngineState::Failed),
                StepView::Failed(transport_error(fault)),
            ),
            EventView::EndOfStream => (
                empty_turn(EngineState::Closed),
                StepView::Failed(closed_error(None)),
            ),
        }
    }
}

/// How a turn runs on what a stream delivers: the events left over once the
/// turn is over, and how it ended. A stream that runs dry counts as ended
/// without a close frame.
pub open spec fn play(turn: TurnView, events: Seq<EventView>) -> (Seq<EventView>, StepView)
    decreases events.len(),
{
    if events.len() == 0 {
        (events, after_event(turn, EventView::EndOfStream).1)
    } else {
        let (next, step) = after_event(turn, events[0]);
        if step is Continue {
            play(next, events.drop_first())
        } else {
            (events.drop_first(), step)
        }
    }
}

/// The audio that an event carries: the payload of an audio message.
pub open spec fn audio_in(event: EventView) -> Seq<u8> {
    match event {
        EventView::Frame(frame) => match message_of(frame) {
            Ok(MessageView::Audio { data }) => data,
            _ => Seq::empty(),
        },
        _ => Seq::empty(),
    }
}

/// The metadata that an event carries: the body of a metadata message.
pub open spec fn metadata_in(event: EventView) -> Seq<Seq<char>> {
    match event {
        EventView::Frame(frame) => match message_of(frame) {
            Ok(MessageView::AudioMetadata { body }) => seq![body],
            _ => Seq::empty(),
        },
        _ => Seq::empty(),
    }
}

/// The audio that a run of events carries, in the order of arrival.
pub open spec fn audio_of(events: Seq<EventView>) -> Seq<u8>
    decreases events.len(),
{
    if events.len() == 0 {
        Seq::empty()
    } else {
        audio_in(events[0]) + audio_of(events.drop_first())
    }
}

/// The metadata that a run of events carries, in the order of arrival.
pub open spec fn metadata_of(events: Seq<EventView>) -> Seq<Seq<char>>
    decreases events.len(),
{
    if events.len() == 0 {
        Seq::empty()
    } else {
        metadata_in(events[0]) + metadata_of(events.drop_first())
    }
}

/// The events that a turn takes from a stream: all but those left over.
pub open spec fn taken(turn: TurnView, events: Seq<EventView>) -> Seq<EventView> {
    events.subrange(0, events.len() - play(turn, events).0.len())
}

/// A session does not go back to idle, and a turn that is over stays over.
pub proof fn lemma_no_way_back(turn: TurnView, event: EventView)
    ensures
        turn.state != EngineState::Idle ==> after_event(turn, event).0.state != EngineState::Idle,
        turn.state.is_terminal() ==> after_event(turn, event).0 == turn,
{
}

/// A turn goes on exactly as long as nothing ends it: after an event a
/// session is still active if and only if it asks for the next event. What
/// ends a turn is the end of the turn, a close, the end of the stream, a
/// fault, or a frame that is no message.
pub proof fn lemma_one_event_ends_a_turn(turn: TurnView, event: EventView)
    requires
        turn.state.is_active(),
    ensures
        after_event(turn, event).1 is Continue <==> after_event(turn, event).0.state.is_active(),
        after_event(turn, event).1 is Completed <==> after_event(turn, event).0.state
            == EngineState::Completed,
        after_event(turn, event).1 is Completed <==> event is Frame && message_of(event->Frame_0)
            == Ok::<MessageView, DecodeError>(MessageView::TurnEnd),
        after_event(turn, event).1 is Failed <==> after_event(turn, event).0.state
            == EngineState::Closed || after_event(turn, event).0.state == EngineState::Failed,
        after_event(turn, event).1 !is Inactive,
{
}

/// Nothing of a turn outlives it: once a turn is over, for whatever reason,
/// the session holds no audio and no metadata.
pub proof fn lemma_nothing_kept(turn: TurnView, event: EventView)
    requires
        turn.state.is_active(),
        !(after_event(turn, event).1 is Continue),
    ensures
        after_event(turn, event).0.buffer == Seq::<u8>::empty(),
        after_event(turn, event).0.metadata == Seq::<Seq<char>>::empty(),
{
}

/// Audio comes from audio messages only, and metadata from metadata messages
/// only: an event adds to a turn what it carries, and nothing else.
pub proof fn lemma_event_adds_what_it_carries(turn: TurnView, event: EventView)
    requires
        turn.state.is_active(),
        after_event(turn, event).1 is Continue,
    ensures
        after_event(turn, event).0.buffer == turn.buffer + audio_in(event),
        after_event(turn, event).0.metadata == turn.metadata + metadata_in(event),
{
    assert(turn.buffer + Seq::<u8>::empty() =~= turn.buffer);
    assert(turn.metadata + Seq::<Seq<char>>::empty() =~= turn.metadata);
    match event {
        EventView::Frame(frame) => match message_of(frame) {
            Ok(MessageView::AudioMetadata { body }) => {
                assert(turn.metadata.push(body) =~= turn.metadata + seq![body]);
            },
            _ => {},
        },
        _ => {},
    }
}

/// A turn on a stream always ends, and takes events from the front of the
/// stream only.
pub proof fn lemma_turn_ends(turn: TurnView, events: Seq<EventView>)
    requires
        turn.state.is_active(),
    ensures
        play(turn, events).1 is Completed || play(turn, events).1 is Failed,
        play(turn, events).0.len() <= events.len(),
        play(turn, events).0 == events.subrange(
            events.len() - play(turn, events).0.len(),
            events.len() as int,
        ),
    decreases events.len(),
{
    if events.len() == 0 {
        assert(events.subrange(0, 0) =~= events);
    } else {
        let (next, step) = after_event(turn, events[0]);
        let rest = events.drop_first();
        if step is Continue {
            lemma_turn_ends(next, rest);
            let left = play(next, rest).0;
            assert(left =~= events.subrange(events.len() - left.len(), events.len() as int));
        } else {
            assert(rest =~= events.subrange(1, events.len() as int));
        }
    }
}

/// What a completed turn returns is what the events that it took carried:
/// the audio of its audio messages and the metadata of its metadata messages,
/// each in the order of arrival, after what the turn held before.
pub proof fn lemma_completed_turn_collects(turn: TurnView, events: Seq<EventView>)
    requires
        turn.state.is_active(),
        play(turn, events).1 is Completed,
    ensures
        play(turn, events).1->audio == turn.buffer + audio_of(taken(turn, events)),
        play(turn, events).1->metadata == turn.metadata + metadata_of(taken(turn, events)),
    decreases events.len(),
{
    lemma_turn_ends(turn, events);
    if events.len() == 0 {
    } else {
        let (next, step) = after_event(turn, events[0]);
        let rest = events.drop_first();
        let used = taken(turn, events);
        if step is Continue {
            lemma_turn_ends(next, rest);
            lemma_completed_turn_collects(next, rest);
            lemma_event_adds_what_it_carries(turn, events[0]);
            assert(used.drop_first() =~= taken(next, rest));
            assert(turn.buffer + (audio_in(events[0]) + audio_of(taken(next, rest))) =~= (
                turn.buffer + audio_in(events[0])) + audio_of(taken(next, rest)));
            assert(turn.metadata + (metadata_in(events[0]) + metadata_of(taken(next, rest)))
                =~= (turn.metadata + metadata_in(events[0])) + metadata_of(taken(next, rest)));
        } else {
            assert(used =~= seq![events[0]]);
            assert(used.drop_first() =~= Seq::<EventView>::empty());
            assert(audio_in(events[0]) =~= Seq::<u8>::empty());
            assert(metadata_in(events[0]) =~= Seq::<Seq<char>>::empty());
            assert(audio_of(used.drop_first()) =~= Seq::<u8>::empty());
            assert(metadata_of(used.drop_first()) =~= Seq::<Seq<char>>::empty());
            assert(audio_of(used) =~= Seq::<u8>::empty());
            assert(metadata_of(used) =~= Seq::<Seq<char>>::empty());
            assert(turn.buffer + Seq::<u8>::empty() =~= turn.buffer);
            assert(turn.metadata + Seq::<Seq<char>>::empty() =~= turn.metadata);
        }
    }
}

/// What starting a turn comes to.
///
/// An idle session goes on to wait for the start of the turn, remembers the
/// request identifier, and gives the two messages of the request. Any other
/// session stays as it is and gives nothing.
pub open spec fn start_outcome(
    before: &Session,
    after: &Session,
    ssml: Seq<char>,
    request_id: Seq<char>,
    timestamp: Seq<char>,
    r: Option<(String, String)>,
) -> bool {
    &&& after.format() == before.format()
    &&& if before@.state == EngineState::Idle {
        &&& after@ == (TurnView { state: EngineState::AwaitingTurnStart, ..before@ })
        &&& after.id() == request_id
        &&& r matches Some((context, document))
        &&& context@ == synthesis_context_text(request_id, timestamp, before.format())
        &&& document@ == ssml_text(request_id, timestamp, ssml)
    } else {
        &&& after@ == before@
        &&& after.id() == before.id()
        &&& r is None
    }
}

impl Session {
    /// The format that the session asks for.
    pub closed spec fn format(&self) -> AudioFormat {
        self.audio_format
    }

    /// The identifier under which the turn's request went out; empty while
    /// the session is idle.
    pub closed spec fn id(&self) -> Seq<char> {
        self.request_id@
    }

    /// An idle session for the given format.
    pub fn new(audio_format: AudioFormat) -> (r: Session)
        ensures
            r@ == empty_turn(EngineState::Idle),
            r.format() == audio_format,
            r.id() == Seq::<char>::empty(),
    {
        let r = Session {
            state: EngineState::Idle,
            audio_format,
            request_id: String::new(),
            buffer: Vec::new(),
            metadata: Vec::new(),
        };
        assert(r.metadata.deep_view() =~= Seq::empty());
        r
    }

    /// Starts the turn under the given request identifier and timestamp:
    /// gives the message that names the format and the message that carries
    /// the document, in the order in which they are sent. A session that is
    /// not idle gives nothing and stays as it is.
    pub fn start(&mut self, ssml: &str, request_id: String, timestamp: &str) -> (r: Option<
        (String, String),
    >)
        ensures
            start_outcome(old(self), final(self), ssml@, request_id@, timestamp@, r),
    {
        match self.state {
            EngineState::Idle => {},
            _ => {
                return None;
            },
        }
        let context = synthesis_context_message(
            request_id.as_str(),
            timestamp,
            self.audio_format,
        );
        let document = ssml_message(request_id.as_str(), timestamp, ssml);
        self.request_id = request_id;
        self.state = EngineState::AwaitingTurnStart;
        Some((context, document))
    }

    /// Starts the turn under a fresh request identifier and the current
    /// time.
    pub fn begin(&mut self, ssml: &str) -> (r: Option<(String, String)>)
        ensures
            exists|request_id: Seq<char>, timestamp: Seq<char>|
                is_request_id(request_id) && is_timestamp(timestamp) && #[trigger] start_outcome(
                    old(self),
                    final(self),
                    ssml@,
                    request_id,
                    timestamp,
                    r,
                ),
    {
        let request_id = fresh_request_id();
        let timestamp = timestamp_now();
        self.start(ssml, request_id, timestamp.as_str())
    }

    /// Where the session stands.
    pub fn state(&self) -> (r: EngineState)
        ensures
            r == self@.state,
    {
        self.state
    }

    /// The format that the session asks for.
    pub fn audio_format(&self) -> (r: AudioFormat)
        ensures
            r == self.format(),
    {
        self.audio_format
    }

    /// The identifier under which the turn's request went out.
    pub fn request_id(&self) -> (r: &str)
        ensures
            r@ == self.id(),
    {
        self.request_id.as_str()
    }

    fn stop(&mut self, state: EngineState)
        ensures
            final(self)@ == empty_turn(state),
            final(self).format() == old(self).format(),
            final(self).id() == old(self).id(),
    {
        self.state = state;
        self.buffer = Vec::new();
        self.metadata = Vec::new();
        assert(self.metadata.deep_view() =~= Seq::empty());
    }

    fn close(&mut self, close: Option<&crate::msg::CloseFrame>) -> (step: Step)
        ensures
            final(self)@ == empty_turn(EngineState::Closed),
            final(self).format() == old(self).format(),
            final(self).id() == old(self).id(),
            step@ == StepView::Failed(
                closed_error(
                    match close {
                        Some(frame) => Some(frame@),
                        None => None,
                    },
                ),
            ),
    {
        self.stop(EngineState::Closed);
        let error = match close {
            Some(frame) => WebsocketSynthesizerError::connection_closed(
                decimal_string(frame.code),
                frame.reason.clone(),
            ),
            None => WebsocketSynthesizerError::connection_closed(
                "Unknown".to_owned(),
                "The server closed the connection without a reason".to_owned(),
            ),
        };
        Step::Failed(error)
    }

    /// Takes one event from the stream.
    pub fn handle(&mut self, event: Event) -> (step: Step)
        ensures
            (final(self)@, step@) == after_event(old(self)@, event@),
            final(self).format() == old(self).format(),
            final(self).id() == old(self).id(),
    {
        match self.state {
            EngineState::AwaitingTurnStart | EngineState::Streaming => {},
            _ => {
                return Step::Inactive;
            },
        }
        match event {
            Event::EndOfStream => self.close(None),
            Event::Fault(fault) => {
                self.stop(EngineState::Failed);
                Step::Failed(WebsocketSynthesizerError::from(fault))
            },
            Event::Frame(frame) => match decode(&frame) {
                Err(e) => {
                    self.stop(EngineState::Failed);
                    Step::Failed(WebsocketSynthesizerError::from(e))
                },
                Ok(WebSocketMessage::TurnStart) => {
                    self.state = EngineState::Streaming;
                    Step::Continue
                },
                Ok(WebSocketMessage::Response { body: _ }) => Step::Continue,
                Ok(WebSocketMessage::Audio { data }) => {
                    let ghost before = self.buffer@;
                    self.buffer.extend_from_slice(data);
                    assert(self.buffer@ =~= before + data@);
                    Step::Continue
                },
                Ok(WebSocketMessage::AudioMetadata { body }) => {
                    let ghost before = self.metadata.deep_view();
                    self.metadata.push(body.to_owned());
                    assert(self.metadata.deep_view() =~= before.push(body@));
                    Step::Continue
                },
                Ok(WebSocketMessage::TurnEnd) => {
                    let mut audio: Vec<u8> = Vec::new();
                    let mut metadata: Vec<String> = Vec::new();
                    core::mem::swap(&mut audio, &mut self.buffer);
                    core::mem::swap(&mut metadata, &mut self.metadata);
                    self.state = EngineState::Completed;
                    assert(self.metadata.deep_view() =~= Seq::empty());
                    Step::Completed { audio, metadata }
                },
                Ok(WebSocketMessage::Close(close)) => self.close(close),
                Ok(WebSocketMessage::Unrecognized) => Step::Continue,
            },
        }
    }
}

} // verus!
