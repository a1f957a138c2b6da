//! The coordinator between the display and the outside world: what it is asked, what
//! it answers, and how the outcome of each operation becomes an answer.

use crate::lyrics_fetch::{
    fetcher_error_detail, FetcherErrView, LyricsFetcherErr, LyricsRequestInfo, RequestView,
    SongView, SongWithLyrics,
};
use crate::spotify::{
    auth_error_detail, client_error_detail, AuthErrorView, ClientErrorView,
    CurrentlyPlayingResponse, PlaybackView, SpotifyClientAuthError, SpotifyClientError,
};
use crate::text::wrapped;
use vstd::prelude::*;

verus! {

/// What the coordinator is asked, as a value of the model.
pub enum IntentView {
    Authenticate,
    GetCurrentTrack,
    GetLyrics(RequestView),
}

/// What the display asks of the coordinator.
#[derive(Debug)]
pub enum MessageToRT {
    /// Authenticate with the music provider.
    Authenticate,
    /// Find out what plays.
    GetCurrentTrack,
    /// Get the lyrics of this track.
    GetLyrics(LyricsRequestInfo),
}

impl View for MessageToRT {
    type V = IntentView;

    open spec fn view(&self) -> IntentView {
        match *self {
            MessageToRT::Authenticate => IntentView::Authenticate,
            MessageToRT::GetCurrentTrack => IntentView::GetCurrentTrack,
            MessageToRT::GetLyrics(request) => IntentView::GetLyrics(request@),
        }
    }
}

/// What the coordinator answers, as a value of the model.
pub enum MessageView {
    Authenticated,
    CurrentlyPlaying(PlaybackView),
    DisplayError(Seq<char>),
    GotLyrics(SongView),
    NothingPlaying,
    NotATrack,
}

/// What the coordinator tells the display.
#[derive(Debug)]
pub enum MessageToUI {
    /// A token has been stored.
    Authenticated,
    /// This track plays.
    CurrentlyPlaying(CurrentlyPlayingResponse),
    /// An operation failed; what to tell the user.
    DisplayError(String),
    /// The lyrics of the track that was asked for.
    GotLyrics(SongWithLyrics),
    /// Nothing plays.
    NothingPlaying,
    /// Something plays, but no track.
    NotATrack,
}

impl View for MessageToUI {
    type V = MessageView;

    open spec fn view(&self) -> MessageView {
        match *self {
            MessageToUI::Authenticated => MessageView::Authenticated,
            MessageToUI::CurrentlyPlaying(playing) => MessageView::CurrentlyPlaying(playing@),
            MessageToUI::DisplayError(text) => MessageView::DisplayError(text@),
            MessageToUI::GotLyrics(song) => MessageView::GotLyrics(song@),
            MessageToUI::NothingPlaying => MessageView::NothingPlaying,
            MessageToUI::NotATrack => MessageView::NotATrack,
        }
    }
}

/// Why an operation of the coordinator failed, as a value of the model.
pub enum RuntimeErrorView {
    AuthenticationFailed(AuthErrorView),
    GetFailed(FetcherErrView),
    CurrentTrackFailed(ClientErrorView),
}

/// Why an operation of the coordinator failed.
#[derive(Debug)]
pub enum RuntimeError {
    /// Authentication failed.
    AuthenticationFailed(SpotifyClientAuthError),
    /// Lyrics could not be fetched.
    GetFailed(LyricsFetcherErr),
    /// The playback report could not be had.
    CurrentTrackFailed(SpotifyClientError),
}

impl View for RuntimeError {
    type V = RuntimeErrorView;

    open spec fn view(&self) -> RuntimeErrorView {
        match *self {
            RuntimeError::AuthenticationFailed(e) => RuntimeErrorView::AuthenticationFailed(e@),
            RuntimeError::GetFailed(e) => RuntimeErrorView::GetFailed(e@),
            RuntimeError::CurrentTrackFailed(e) => RuntimeErrorView::CurrentTrackFailed(e@),
        }
    }
}

/// What a failed operation tells the user: the name of the failure and, in brackets,
/// what lies behind it.
pub open spec fn runtime_error_detail(e: RuntimeErrorView) -> Seq<char> {
    match e {
        RuntimeErrorView::AuthenticationFailed(inner) => "AuthenticationFailed("@
            + auth_error_detail(inner) + ")"@,
        RuntimeErrorView::GetFailed(inner) => "GetFailed("@ + fetcher_error_detail(inner) + ")"@,
        RuntimeErrorView::CurrentTrackFailed(inner) => "CurrentTrackFailed("@
            + client_error_detail(inner) + ")"@,
    }
}

impl RuntimeError {
    /// What the failure tells the user.
    pub fn detail(&self) -> (text: String)
        ensures
            text@ == runtime_error_detail(self@),
    {
        match self {
            RuntimeError::AuthenticationFailed(e) => wrapped(
                "AuthenticationFailed(",
                e.detail().as_str(),
                ")",
            ),
            RuntimeError::GetFailed(e) => wrapped("GetFailed(", e.detail().as_str(), ")"),
            RuntimeError::CurrentTrackFailed(e) => wrapped(
                "CurrentTrackFailed(",
                e.detail().as_str(),
                ")",
            ),
        }
    }
}

/// The view of the outcome of an operation.
pub open spec fn outcome_view(outcome: Result<MessageToUI, RuntimeError>) -> Result<
    MessageView,
    RuntimeErrorView,
> {
    match outcome {
        Ok(message) => Ok(message@),
        Err(e) => Err(e@),
    }
}

/// The outcome of an attempt to authenticate, as the coordinator sees it.
pub open spec fn authentication_outcome(result: Result<(), AuthErrorView>) -> Result<
    MessageView,
    RuntimeErrorView,
> {
    match result {
        Ok(_) => Ok(MessageView::Authenticated),
        Err(e) => Err(RuntimeErrorView::AuthenticationFailed(e)),
    }
}

/// The outcome of a poll of the current track, as the coordinator sees it: that
/// nothing plays, or no track, is an answer of its own and no failure.
pub open spec fn current_track_outcome(result: Result<PlaybackView, ClientErrorView>) -> Result<
    MessageView,
    RuntimeErrorView,
> {
    match result {
        Ok(playing) => Ok(MessageView::CurrentlyPlaying(playing)),
        Err(ClientErrorView::NoContentResponse) => Ok(MessageView::NothingPlaying),
        Err(ClientErrorView::NotATrack) => Ok(MessageView::NotATrack),
        Err(e) => Err(RuntimeErrorView::CurrentTrackFailed(e)),
    }
}

/// What the coordinator tells the display of an outcome: a failure becomes a message
/// to show, and ends nothing.
pub open spec fn answer(outcome: Result<MessageView, RuntimeErrorView>) -> MessageView {
    match outcome {
        Ok(message) => message,
        Err(e) => MessageView::DisplayError(runtime_error_detail(e)),
    }
}

/// The view of the result of an attempt to authenticate.
pub open spec fn auth_result_view(result: Result<(), SpotifyClientAuthError>) -> Result<
    (),
    AuthErrorView,
> {
    match result {
        Ok(_) => Ok(()),
        Err(e) => Err(e@),
    }
}

/// The view of the result of a poll.
pub open spec fn poll_result_view(
    result: Result<CurrentlyPlayingResponse, SpotifyClientError>,
) -> Result<PlaybackView, ClientErrorView> {
    match result {
        Ok(playing) => Ok(playing@),
        Err(e) => Err(e@),
    }
}

/// Turns the result of an attempt to authenticate into the outcome of the operation.
pub fn authenticate(result: Result<(), SpotifyClientAuthError>) -> (outcome: Result<
    MessageToUI,
    RuntimeError,
>)
    ensures
        outcome_view(outcome) == authentication_outcome(auth_result_view(result)),
{
    match result {
        Ok(_) => Ok(MessageToUI::Authenticated),
        Err(e) => Err(RuntimeError::AuthenticationFailed(e)),
    }
}

/// Turns the result of a poll of the current track into the outcome of the
/// operation.
pub fn get_current_track(result: Result<CurrentlyPlayingResponse, SpotifyClientError>) -> (outcome:
    Result<MessageToUI, RuntimeError>)
    ensures
        outcome_view(outcome) == current_track_outcome(poll_result_view(result)),
{
    match result {
        Ok(playing) => Ok(MessageToUI::CurrentlyPlaying(playing)),
        Err(SpotifyClientError::NoContentResponse) => Ok(MessageToUI::NothingPlaying),
        Err(SpotifyClientError::NotATrack) => Ok(MessageToUI::NotATrack),
        Err(e) => Err(RuntimeError::CurrentTrackFailed(e)),
    }
}

/// What the coordinator tells the display of the outcome of an operation.
pub fn respond(outcome: Result<MessageToUI, RuntimeError>) -> (message: MessageToUI)
    ensures
        message@ == answer(outcome_view(outcome)),
{
    match outcome {
        Ok(message) => message,
        Err(e) => MessageToUI::DisplayError(e.detail()),
    }
}

/// The kinds of operation that the coordinator runs.
#[derive(Debug, Clone, Copy, PartialEq, Eq, Structural)]
pub enum Operation {
    Authenticating,
    Polling,
    Fetching,
}

/// The operation that an intent asks for.
pub open spec fn operation_of(intent: IntentView) -> Operation {
    match intent {
        IntentView::Authenticate => Operation::Authenticating,
        IntentView::GetCurrentTrack => Operation::Polling,
        IntentView::GetLyrics(_) => Operation::Fetching,
    }
}

/// The coordinator's record of what it is doing. It runs one operation at a time: a
/// second one starts only when the first is over, so that no poll is under way while
/// a token is still being obtained.
#[derive(Debug)]
pub struct Coordinator {
    in_flight: Option<Operation>,
}

impl Coordinator {
    /// The operation that is under way, if any.
    pub closed spec fn in_flight(&self) -> Option<Operation> {
        self.in_flight
    }

    /// A coordinator that does nothing yet.
    pub fn new() -> (coordinator: Coordinator)
        ensures
            coordinator.in_flight() is None,
    {
        Coordinator { in_flight: None }
    }

    /// Whether an operation is under way.
    pub fn is_busy(&self) -> (b: bool)
        ensures
            b == self.in_flight() is Some,
    {
        self.in_flight.is_some()
    }

    /// Takes up `intent` where nothing is under way, and says which operation is to
    /// run. While an operation is under way nothing starts.
    pub fn start(&mut self, intent: &MessageToRT) -> (started: Option<Operation>)
        ensures
            started == if old(self).in_flight() is None {
                Some(operation_of(intent@))
            } else {
                None
            },
            final(self).in_flight() == if old(self).in_flight() is None {
                started
            } else {
                old(self).in_flight()
            },
    {
        if self.in_flight.is_some() {
            return None;
        }
        let operation: Operation = match intent {
            MessageToRT::Authenticate => Operation::Authenticating,
            MessageToRT::GetCurrentTrack => Operation::Polling,
            MessageToRT::GetLyrics(_) => Operation::Fetching,
        };
        self.in_flight = Some(operation);
        Some(operation)
    }

    /// Ends the operation that is under way with `outcome`, and says what to tell the
    /// display: its message, or the failure as a message to show. The coordinator is
    /// free again whatever the outcome. Where nothing was under way, nothing is told.
    pub fn finish(&mut self, outcome: Result<MessageToUI, RuntimeError>) -> (message: Option<
        MessageToUI,
    >)
        ensures
            final(self).in_flight() is None,
            message is Some == old(self).in_flight() is Some,
            message matches Some(m) ==> m@ == answer(outcome_view(outcome)),
    {
        if self.in_flight.is_none() {
            return None;
        }
        self.in_flight = None;
        Some(respond(outcome))
    }
}

} // verus!
