//! The synthesizer that speaks the service's protocol over one stream, and
//! its errors.

use vstd::pervasive::unreached;
use vstd::prelude::*;
use vstd::std_specs::convert::FromSpecImpl;
use vstd::string::StringExecFns;
use crate::errors::{ConnectError, ErrorSource, SsmlError, TransportFault};
use crate::msg::DecodeError;
use crate::net::{StreamView, WsStream};
use crate::outbound::{ssml_text, synthesis_context_text};
use crate::session::{empty_turn, play, EngineState, Session, Step, StepView};
use crate::ssml::{interpolate_ssml, ssml_document, TextOptions};
use crate::stamp::{fresh_request_id, is_request_id, is_timestamp, timestamp_now};
use crate::types::{AudioFormat, FormatError};

verus! {

/// The main struct for interacting with the speech service.
#[derive(Debug)]
pub struct WebsocketSynthesizer {
    /// The format of the audio that is asked for.
    pub audio_format: AudioFormat,
    /// The stream to the service.
    pub stream: WsStream,
    /// The metadata of the last turn that completed.
    pub audio_metadata: Option<Vec<String>>,
}

/// A synthesizer as mathematical values.
pub struct SynthesizerView {
    pub audio_format: AudioFormat,
    pub stream: StreamView,
    pub audio_metadata: Option<Seq<Seq<char>>>,
}

impl View for WebsocketSynthesizer {
    type V = SynthesizerView;

    open spec fn view(&self) -> SynthesizerView {
        SynthesizerView {
            audio_format: self.audio_format,
            stream: self.stream@,
            audio_metadata: match self.audio_metadata {
                Some(metadata) => Some(metadata.deep_view()),
                None => None,
            },
        }
    }
}

/// What a call of `synthesize_ssml` returned, as mathematical values.
pub open spec fn synthesis_view(r: Result<Vec<u8>, WebsocketSynthesizerError>) -> Result<
    Seq<u8>,
    ErrorView,
> {
    match r {
        Ok(audio) => Ok(audio@),
        Err(e) => Err(e@),
    }
}

/// What a turn gives, and the synthesizer it leaves, when the request went
/// out under the given identifier and timestamp.
///
/// The two messages of the request are sent. The turn then runs on what the
/// stream delivers. Where it completes, the audio is returned and the
/// metadata is kept; where it fails, the error is returned and the metadata
/// of an earlier turn stays. A turn that was started ends in one of these two
/// ways and in no other.
pub open spec fn synthesized(
    before: SynthesizerView,
    ssml: Seq<char>,
    request_id: Seq<char>,
    timestamp: Seq<char>,
) -> (SynthesizerView, Result<Seq<u8>, ErrorView>) {
    let sent = before.stream.sent.push(
        synthesis_context_text(request_id, timestamp, before.audio_format),
    ).push(ssml_text(request_id, timestamp, ssml));
    let (left, step) = play(empty_turn(EngineState::AwaitingTurnStart), before.stream.inbound);
    let stream = StreamView { sent, inbound: left, ..before.stream };
    match step {
        StepView::Completed { audio, metadata } => (
            SynthesizerView { stream, audio_metadata: Some(metadata), ..before },
            Ok(audio),
        ),
        StepView::Failed(error) => (SynthesizerView { stream, ..before }, Err(error)),
        // A turn that was started never asks for more than the stream holds.
        _ => (SynthesizerView { stream, ..before }, Ok(Seq::empty())),
    }
}

impl WebsocketSynthesizer {
    /// A synthesizer on an established stream.
    pub fn new(audio_format: AudioFormat, stream: WsStream) -> (r: Self)
        ensures
            r@ == (SynthesizerView { audio_format, stream: stream@, audio_metadata: None }),
    {
        WebsocketSynthesizer { audio_format, stream, audio_metadata: None }
    }

    /// Synthesize the given SSML into audio.
    ///
    /// The request goes out under a fresh identifier and the current time.
    pub fn synthesize_ssml(&mut self, ssml: &str) -> (r: Result<
        Vec<u8>,
        WebsocketSynthesizerError,
    >)
        ensures
            exists|request_id: Seq<char>, timestamp: Seq<char>|
                is_request_id(request_id) && is_timestamp(timestamp) && (
                final(self)@,
                synthesis_view(r),
            ) == #[trigger] synthesized(old(self)@, ssml@, request_id, timestamp),
    {
        let request_id = fresh_request_id();
        let timestamp = timestamp_now();
        let ghost id = request_id@;
        let mut session = Session::new(self.audio_format);
        match session.start(ssml, request_id, timestamp.as_str()) {
            Some((context, document)) => {
                self.stream.send(context);
                self.stream.send(document);
            },
            None => {
                return unreached();
            },
        }
        let ghost goal = synthesized(old(self)@, ssml@, id, timestamp@);
        loop
            invariant
                is_request_id(id),
                is_timestamp(timestamp@),
                goal == synthesized(old(self)@, ssml@, id, timestamp@),
                session@.state.is_active(),
                self.audio_format == old(self).audio_format,
                self@.audio_metadata == old(self)@.audio_metadata,
                self@.stream.handshake == old(self)@.stream.handshake,
                self@.stream.sent == old(self)@.stream.sent.push(
                    synthesis_context_text(id, timestamp@, old(self).audio_format),
                ).push(ssml_text(id, timestamp@, ssml@)),
                play(session@, self@.stream.inbound) == play(
                    empty_turn(EngineState::AwaitingTurnStart),
                    old(self)@.stream.inbound,
                ),
            decreases self@.stream.inbound.len(),
        {
            let event = self.stream.next();
            match session.handle(event) {
                Step::Continue => {},
                Step::Completed { audio, metadata } => {
                    self.audio_metadata = Some(metadata);
                    return Ok(audio);
                },
                Step::Failed(error) => {
                    return Err(error);
                },
                Step::Inactive => {
                    return unreached();
                },
            }
        }
    }

    /// Synthesize the given text into audio.
    /// This is a convenience method that interpolates the SSML for you.
    ///
    /// Where the options do not go together, nothing is sent, and the reason
    /// is returned as an error of the `Ssml` kind.
    pub fn synthesize_text(&mut self, text: &str, options: &TextOptions) -> (r: Result<
        Vec<u8>,
        WebsocketSynthesizerError,
    >)
        ensures
            match ssml_document(text@, options@) {
                Ok(ssml) => exists|request_id: Seq<char>, timestamp: Seq<char>|
                    is_request_id(request_id) && is_timestamp(timestamp) && (
                    final(self)@,
                    synthesis_view(r),
                ) == #[trigger] synthesized(old(self)@, ssml, request_id, timestamp),
                Err(reason) => {
                    &&& final(self)@ == old(self)@
                    &&& r matches Err(e)
                    &&& e@.kind == ErrorKindView::Ssml
                    &&& e.source == Some(ErrorSource::Ssml(reason))
                },
            },
    {
        match interpolate_ssml(text, options) {
            Ok(ssml) => {
                let r = self.synthesize_ssml(ssml.as_str());
                proof {
                    let (request_id, timestamp) = choose|request_id: Seq<char>, timestamp: Seq<char>|
                        is_request_id(request_id) && is_timestamp(timestamp) && (
                        self@,
                        synthesis_view(r),
                    ) == #[trigger] synthesized(old(self)@, ssml@, request_id, timestamp);
                    assert((self@, synthesis_view(r)) == synthesized(
                        old(self)@,
                        ssml_document(text@, options@)->Ok_0,
                        request_id,
                        timestamp,
                    ));
                }
                r
            },
            Err(reason) => Err(WebsocketSynthesizerError::from(reason)),
        }
    }
}

/// A synthesizer. There is one kind of synthesizer, which speaks the service's
/// protocol over a websocket.
pub type Synthesizer = WebsocketSynthesizer;

/// The kinds of error of a [`WebsocketSynthesizer`].
#[derive(Debug, PartialEq, Clone)]
#[non_exhaustive]
pub enum WebsocketSynthesizerErrorKind {
    /// Failed to connect to the endpoint.
    Connect,
    /// The websocket connection was closed.
    WebsocketConnectionClosed { code: String, reason: String },
    /// Other websocket errors.
    Websocket,
    /// The request was invalid, and was refused before anything was sent.
    InvalidRequest,
    /// An invalid websocket message was received.
    InvalidMessage,
    /// Errors that occur when interpolating SSML.
    Ssml,
}

/// A kind of error as mathematical values.
pub enum ErrorKindView {
    Connect,
    WebsocketConnectionClosed { code: Seq<char>, reason: Seq<char> },
    Websocket,
    InvalidRequest,
    InvalidMessage,
    Ssml,
}

impl View for WebsocketSynthesizerErrorKind {
    type V = ErrorKindView;

    open spec fn view(&self) -> ErrorKindView {
        match self {
            WebsocketSynthesizerErrorKind::Connect => ErrorKindView::Connect,
            WebsocketSynthesizerErrorKind::WebsocketConnectionClosed { code, reason } =>
                ErrorKindView::WebsocketConnectionClosed { code: code@, reason: reason@ },
            WebsocketSynthesizerErrorKind::Websocket => ErrorKindView::Websocket,
            WebsocketSynthesizerErrorKind::InvalidRequest => ErrorKindView::InvalidRequest,
            WebsocketSynthesizerErrorKind::InvalidMessage => ErrorKindView::InvalidMessage,
            WebsocketSynthesizerErrorKind::Ssml => ErrorKindView::Ssml,
        }
    }
}

/// Errors that can occur when creating and using a [`WebsocketSynthesizer`].
#[derive(Debug)]
#[non_exhaustive]
pub struct WebsocketSynthesizerError {
    pub kind: WebsocketSynthesizerErrorKind,
    pub source: Option<ErrorSource>,
}

/// An error as mathematical values: the view of its kind, and its cause.
pub struct ErrorView {
    pub kind: ErrorKindView,
    pub source: Option<ErrorSource>,
}

impl View for WebsocketSynthesizerError {
    type V = ErrorView;

    open spec fn view(&self) -> ErrorView {
        ErrorView { kind: self.kind@, source: self.source }
    }
}

/// The name of a kind of error, in words.
pub open spec fn kind_title(kind: ErrorKindView) -> Seq<char> {
    match kind {
        ErrorKindView::Connect => "Connect"@,
        ErrorKindView::WebsocketConnectionClosed { .. } => "Websocket Connection Closed"@,
        ErrorKindView::Websocket => "Websocket"@,
        ErrorKindView::InvalidRequest => "Invalid Request"@,
        ErrorKindView::InvalidMessage => "Invalid Message"@,
        ErrorKindView::Ssml => "Ssml"@,
    }
}

/// What an error of the given kind says of itself.
pub open spec fn error_text(kind: ErrorKindView) -> Seq<char> {
    "ws synthesizer error: "@ + match kind {
        ErrorKindView::WebsocketConnectionClosed { code, reason } =>
            "the websocket connection was closed with code "@ + code + " and reason "@ + reason,
        ErrorKindView::InvalidMessage =>
            "aspeak cannot handle this message. Please report this bug to https://github.com/kxxt/aspeak/issues."@,
        _ => kind_title(kind) + " error"@,
    }
}

/// What a reset without the closing handshake usually means.
pub const RESET_NOTE: &'static str =
    "This error usually indicates a poor internet connection or that the remote API terminates your service.";

/// What to do about a reset without the closing handshake.
pub const RESET_SUGGESTION: &'static str =
    "Retry if you are on a poor internet connection. If this error persists and you are using the trial service, please shorten your input.";

impl WebsocketSynthesizerErrorKind {
    /// The name of the kind, in words.
    pub fn title(&self) -> (r: &'static str)
        ensures
            r@ == kind_title(self@),
    {
        match self {
            WebsocketSynthesizerErrorKind::Connect => "Connect",
            WebsocketSynthesizerErrorKind::WebsocketConnectionClosed { .. } =>
                "Websocket Connection Closed",
            WebsocketSynthesizerErrorKind::Websocket => "Websocket",
            WebsocketSynthesizerErrorKind::InvalidRequest => "Invalid Request",
            WebsocketSynthesizerErrorKind::InvalidMessage => "Invalid Message",
            WebsocketSynthesizerErrorKind::Ssml => "Ssml",
        }
    }
}

impl WebsocketSynthesizerError {
    /// The stream was reset without the closing handshake.
    pub open spec fn is_abrupt_reset(&self) -> bool {
        self.source == Some(ErrorSource::Transport(TransportFault::ResetWithoutClosingHandshake))
    }

    /// What the error says of itself.
    pub fn message(&self) -> (r: String)
        ensures
            r@ == error_text(self@.kind),
    {
        let mut text = String::from_str("ws synthesizer error: ");
        match &self.kind {
            WebsocketSynthesizerErrorKind::WebsocketConnectionClosed { code, reason } => {
                text.append("the websocket connection was closed with code ");
                text.append(code.as_str());
                text.append(" and reason ");
                text.append(reason.as_str());
            },
            WebsocketSynthesizerErrorKind::InvalidMessage => {
                text.append(
                    "aspeak cannot handle this message. Please report this bug to https://github.com/kxxt/aspeak/issues.",
                );
            },
            _ => {
                text.append(self.kind.title());
                text.append(" error");
            },
        }
        assert(text@ =~= error_text(self@.kind));
        text
    }

    /// What a caller should be told beside the error: where the stream was
    /// reset without the closing handshake, what that usually means and what
    /// to do about it.
    pub fn advice(&self) -> (r: Option<(&'static str, &'static str)>)
        ensures
            r is Some <==> self.is_abrupt_reset(),
            r matches Some((note, suggestion)) ==> note@ == RESET_NOTE@ && suggestion@
                == RESET_SUGGESTION@,
    {
        match &self.source {
            Some(ErrorSource::Transport(TransportFault::ResetWithoutClosingHandshake)) => Some(
                (RESET_NOTE, RESET_SUGGESTION),
            ),
            _ => None,
        }
    }

    /// The error of a connection that the server closed.
    pub fn connection_closed(code: String, reason: String) -> (r: Self)
        ensures
            r.kind == (WebsocketSynthesizerErrorKind::WebsocketConnectionClosed { code, reason }),
            r.source is None,
    {
        Self {
            kind: WebsocketSynthesizerErrorKind::WebsocketConnectionClosed { code, reason },
            source: None,
        }
    }

    /// The cause of the error, where one is known.
    pub fn source(&self) -> (r: Option<&ErrorSource>)
        ensures
            r == match self.source {
                Some(s) => Some(&s),
                None => None,
            },
    {
        self.source.as_ref()
    }
}

impl From<hyper::header::InvalidHeaderName> for WebsocketSynthesizerError {
    fn from(e: hyper::header::InvalidHeaderName) -> (r: Self) {
        Self {
            kind: WebsocketSynthesizerErrorKind::InvalidRequest,
            source: Some(ErrorSource::HeaderName(e)),
        }
    }
}

impl FromSpecImpl<hyper::header::InvalidHeaderName> for WebsocketSynthesizerError {
    open spec fn obeys_from_spec() -> bool {
        true
    }

    open spec fn from_spec(e: hyper::header::InvalidHeaderName) -> Self {
        Self {
            kind: WebsocketSynthesizerErrorKind::InvalidRequest,
            source: Some(ErrorSource::HeaderName(e)),
        }
    }
}

impl From<hyper::header::InvalidHeaderValue> for WebsocketSynthesizerError {
    fn from(e: hyper::header::InvalidHeaderValue) -> (r: Self) {
        Self {
            kind: WebsocketSynthesizerErrorKind::InvalidRequest,
            source: Some(ErrorSource::HeaderValue(e)),
        }
    }
}

impl FromSpecImpl<hyper::header::InvalidHeaderValue> for WebsocketSynthesizerError {
    open spec fn obeys_from_spec() -> bool {
        true
    }

    open spec fn from_spec(e: hyper::header::InvalidHeaderValue) -> Self {
        Self {
            kind: WebsocketSynthesizerErrorKind::InvalidRequest,
            source: Some(ErrorSource::HeaderValue(e)),
        }
    }
}

impl From<url::ParseError> for WebsocketSynthesizerError {
    fn from(e: url::ParseError) -> (r: Self) {
        Self { kind: WebsocketSynthesizerErrorKind::InvalidRequest, source: Some(ErrorSource::Url(e)) }
    }
}

impl FromSpecImpl<url::ParseError> for WebsocketSynthesizerError {
    open spec fn obeys_from_spec() -> bool {
        true
    }

    open spec fn from_spec(e: url::ParseError) -> Self {
        Self { kind: WebsocketSynthesizerErrorKind::InvalidRequest, source: Some(ErrorSource::Url(e)) }
    }
}

impl From<FormatError> for WebsocketSynthesizerError {
    fn from(e: FormatError) -> (r: Self) {
        Self {
            kind: WebsocketSynthesizerErrorKind::InvalidRequest,
            source: Some(ErrorSource::Format(e)),
        }
    }
}

impl FromSpecImpl<FormatError> for WebsocketSynthesizerError {
    open spec fn obeys_from_spec() -> bool {
        true
    }

    open spec fn from_spec(e: FormatError) -> Self {
        Self {
            kind: WebsocketSynthesizerErrorKind::InvalidRequest,
            source: Some(ErrorSource::Format(e)),
        }
    }
}

impl From<ConnectError> for WebsocketSynthesizerError {
    fn from(e: ConnectError) -> (r: Self) {
        Self { kind: WebsocketSynthesizerErrorKind::Connect, source: Some(ErrorSource::Connect(e)) }
    }
}

impl FromSpecImpl<ConnectError> for WebsocketSynthesizerError {
    open spec fn obeys_from_spec() -> bool {
        true
    }

    open spec fn from_spec(e: ConnectError) -> Self {
        Self { kind: WebsocketSynthesizerErrorKind::Connect, source: Some(ErrorSource::Connect(e)) }
    }
}

impl From<TransportFault> for WebsocketSynthesizerError {
    fn from(e: TransportFault) -> (r: Self) {
        Self {
            kind: WebsocketSynthesizerErrorKind::Websocket,
            source: Some(ErrorSource::Transport(e)),
        }
    }
}

impl FromSpecImpl<TransportFault> for WebsocketSynthesizerError {
    open spec fn obeys_from_spec() -> bool {
        true
    }

    open spec fn from_spec(e: TransportFault) -> Self {
        Self {
            kind: WebsocketSynthesizerErrorKind::Websocket,
            source: Some(ErrorSource::Transport(e)),
        }
    }
}

impl From<SsmlError> for WebsocketSynthesizerError {
    fn from(e: SsmlError) -> (r: Self) {
        Self { kind: WebsocketSynthesizerErrorKind::Ssml, source: Some(ErrorSource::Ssml(e)) }
    }
}

impl FromSpecImpl<SsmlError> for WebsocketSynthesizerError {
    open spec fn obeys_from_spec() -> bool {
        true
    }

    open spec fn from_spec(e: SsmlError) -> Self {
        Self { kind: WebsocketSynthesizerErrorKind::Ssml, source: Some(ErrorSource::Ssml(e)) }
    }
}

impl From<DecodeError> for WebsocketSynthesizerError {
    fn from(e: DecodeError) -> (r: Self) {
        Self {
            kind: WebsocketSynthesizerErrorKind::InvalidMessage,
            source: Some(ErrorSource::Message(e)),
        }
    }
}

impl FromSpecImpl<DecodeError> for WebsocketSynthesizerError {
    open spec fn obeys_from_spec() -> bool {
        true
    }

    open spec fn from_spec(e: DecodeError) -> Self {
        Self {
            kind: WebsocketSynthesizerErrorKind::InvalidMessage,
            source: Some(ErrorSource::Message(e)),
        }
    }
}

} // verus!
