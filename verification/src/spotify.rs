//! What the music provider reports about playback, as far as the lyrics need it.

use crate::auth::{
    after_event, follows_start, may_start, step, AuthAction, AuthActionView, AuthEvent,
    AuthEventView, AuthState, AuthStateView,
};
use crate::text::{joined, same_text, text_of, wrapped};
use vstd::prelude::*;
use vstd::string::StringExecFns;

verus! {

/// What a track says of itself.
pub struct TrackView {
    pub name: Seq<char>,
    pub id: Seq<char>,
    pub duration_ms: nat,
    pub artists: Seq<Seq<char>>,
    pub album: Seq<char>,
}

/// What a playback report says.
pub struct PlaybackView {
    pub kind: Seq<char>,
    pub item: Option<TrackView>,
    pub is_playing: bool,
    pub progress_ms: nat,
}

/// An artist of a track.
#[derive(Debug)]
pub struct Artist {
    name: String,
}

impl View for Artist {
    type V = Seq<char>;

    closed spec fn view(&self) -> Seq<char> {
        self.name@
    }
}

impl Artist {
    /// The artist called `name`.
    pub fn new(name: String) -> (artist: Artist)
        ensures
            artist@ == name@,
    {
        Artist { name }
    }

    /// The name of the artist.
    pub fn name(&self) -> (name: &str)
        ensures
            name@ == self@,
    {
        self.name.as_str()
    }
}

/// The album of a track.
#[derive(Debug)]
pub struct Album {
    name: String,
}

impl View for Album {
    type V = Seq<char>;

    closed spec fn view(&self) -> Seq<char> {
        self.name@
    }
}

impl Clone for Artist {
    fn clone(&self) -> (copy: Self)
        ensures
            copy@ == self@,
    {
        Artist { name: self.name.clone() }
    }
}

impl Clone for Album {
    fn clone(&self) -> (copy: Self)
        ensures
            copy@ == self@,
    {
        Album { name: self.name.clone() }
    }
}

impl Album {
    /// The album called `name`.
    pub fn new(name: String) -> (album: Album)
        ensures
            album@ == name@,
    {
        Album { name }
    }
}

/// The names of a sequence of artists.
pub open spec fn artist_names(artists: Seq<Artist>) -> Seq<Seq<char>> {
    artists.map_values(|a: Artist| a@)
}

/// A track of the provider. It always lists one artist at least.
#[derive(Debug)]
pub struct Track {
    name: String,
    id: String,
    duration_ms: usize,
    artists: Vec<Artist>,
    album: Album,
}

impl View for Track {
    type V = TrackView;

    closed spec fn view(&self) -> TrackView {
        TrackView {
            name: self.name@,
            id: self.id@,
            duration_ms: self.duration_ms as nat,
            artists: artist_names(self.artists@),
            album: self.album@,
        }
    }
}

impl Track {
    #[verifier::type_invariant]
    spec fn has_artist(self) -> bool {
        self.artists@.len() > 0
    }

    /// A track with the given title, provider id, length, artists and album; `None`
    /// where `artists` is empty.
    pub fn new(name: String, id: String, duration_ms: usize, artists: Vec<Artist>, album: Album) -> (track:
        Option<Track>)
        ensures
            artists@.len() == 0 <==> track is None,
            track matches Some(t) ==> t@ == (TrackView {
                name: name@,
                id: id@,
                duration_ms: duration_ms as nat,
                artists: artist_names(artists@),
                album: album@,
            }),
    {
        if artists.len() == 0 {
            None
        } else {
            Some(Track { name, id, duration_ms, artists, album })
        }
    }

    /// The title of the track.
    pub fn name(&self) -> (name: &str)
        ensures
            name@ == self@.name,
    {
        self.name.as_str()
    }

    /// The provider's id of the track.
    pub fn id(&self) -> (id: &str)
        ensures
            id@ == self@.id,
    {
        self.id.as_str()
    }

    /// The artists of the track, in the order in which the track lists them.
    pub fn artists(&self) -> (artists: &[Artist])
        ensures
            artist_names(artists@) == self@.artists,
            artists@.len() > 0,
    {
        proof {
            use_type_invariant(self);
        }
        self.artists.as_slice()
    }

    /// The name of the artist that the track lists first.
    pub fn get_artist(&self) -> (name: String)
        ensures
            self@.artists.len() > 0,
            name@ == self@.artists[0],
    {
        proof {
            use_type_invariant(self);
        }
        self.artists[0].name.clone()
    }

    /// The name of the album.
    pub fn get_album(&self) -> (name: String)
        ensures
            name@ == self@.album,
    {
        self.album.name.clone()
    }

    /// The length of the track in milliseconds.
    pub fn get_duration_ms(&self) -> (ms: usize)
        ensures
            ms == self@.duration_ms,
    {
        self.duration_ms
    }
}

impl Clone for Track {
    fn clone(&self) -> (copy: Self)
        ensures
            copy@ == self@,
    {
        proof {
            use_type_invariant(self);
        }
        let n: usize = self.artists.len();
        let mut artists: Vec<Artist> = Vec::new();
        let mut i: usize = 0;
        while i < n
            invariant
                n == self.artists@.len(),
                i <= n,
                artist_names(artists@) == artist_names(self.artists@).take(i as int),
            decreases n - i,
        {
            let ghost before = artist_names(artists@);
            let artist: Artist = self.artists[i].clone();
            assert(artist@ == artist_names(self.artists@)[i as int]);
            artists.push(artist);
            assert(artist_names(artists@) == before.push(artist@));
            assert(artist_names(self.artists@).take(i + 1) == before.push(artist@));
            i += 1;
        }
        assert(artist_names(self.artists@).take(n as int) == artist_names(self.artists@));
        Track {
            name: self.name.clone(),
            id: self.id.clone(),
            duration_ms: self.duration_ms,
            artists,
            album: self.album.clone(),
        }
    }
}

/// The part of the provider's report on current playback that the lyrics need.
#[derive(Debug)]
pub struct CurrentlyPlayingResponse {
    /// What kind of item plays; only `track` is of interest.
    currently_playing_type: String,
    /// What plays, where it is a track.
    item: Option<Track>,
    /// Whether playback is running.
    pub is_playing: bool,
    /// How far into the item playback is, in milliseconds.
    pub progress_ms: usize,
}

/// The view of an optional track.
pub open spec fn track_view(item: Option<Track>) -> Option<TrackView> {
    match item {
        Some(t) => Some(t@),
        None => None,
    }
}

/// The kind of item whose lyrics can be shown.
pub open spec fn track_kind() -> Seq<char> {
    "track"@
}

impl View for CurrentlyPlayingResponse {
    type V = PlaybackView;

    closed spec fn view(&self) -> PlaybackView {
        PlaybackView {
            kind: self.currently_playing_type@,
            item: track_view(self.item),
            is_playing: self.is_playing,
            progress_ms: self.progress_ms as nat,
        }
    }
}

impl Clone for CurrentlyPlayingResponse {
    fn clone(&self) -> (copy: Self)
        ensures
            copy@ == self@,
    {
        let item: Option<Track> = match &self.item {
            Some(track) => Some(track.clone()),
            None => None,
        };
        CurrentlyPlayingResponse {
            currently_playing_type: self.currently_playing_type.clone(),
            item,
            is_playing: self.is_playing,
            progress_ms: self.progress_ms,
        }
    }
}

impl CurrentlyPlayingResponse {
    /// A report that an item of kind `currently_playing_type` plays, `progress_ms`
    /// milliseconds in.
    pub fn new(
        currently_playing_type: String,
        item: Option<Track>,
        is_playing: bool,
        progress_ms: usize,
    ) -> (response: CurrentlyPlayingResponse)
        ensures
            response@ == (PlaybackView {
                kind: currently_playing_type@,
                item: track_view(item),
                is_playing,
                progress_ms: progress_ms as nat,
            }),
    {
        CurrentlyPlayingResponse { currently_playing_type, item, is_playing, progress_ms }
    }

    /// The kind of item that plays.
    pub fn kind(&self) -> (kind: &str)
        ensures
            kind@ == self@.kind,
    {
        self.currently_playing_type.as_str()
    }

    /// What plays, where the report holds a track.
    pub fn item(&self) -> (item: Option<&Track>)
        ensures
            item is Some == self@.item is Some,
            item matches Some(t) ==> t@ == self@.item.unwrap(),
    {
        self.item.as_ref()
    }

    /// How far into the item playback is, in milliseconds.
    pub fn progress(&self) -> (ms: usize)
        ensures
            ms == self@.progress_ms,
    {
        self.progress_ms
    }

    /// Whether playback is running.
    pub fn playing(&self) -> (b: bool)
        ensures
            b == self@.is_playing,
    {
        self.is_playing
    }

    /// Whether the report is of kind `track`, whatever it holds.
    pub fn has_track_kind(&self) -> (b: bool)
        ensures
            b == (self@.kind == track_kind()),
    {
        same_text(self.currently_playing_type.as_str(), "track")
    }

    /// Whether a track plays: the report is of kind `track` and holds one.
    pub fn is_track(&self) -> (b: bool)
        ensures
            b == (self@.kind == track_kind() && self@.item is Some),
    {
        self.has_track_kind() && self.item.is_some()
    }

    /// The title of the track, where the report holds one.
    pub fn get_track_title(&self) -> (title: Option<String>)
        ensures
            title is Some == self@.item is Some,
            title matches Some(t) ==> t@ == self@.item.unwrap().name,
    {
        match &self.item {
            Some(track) => Some(track.name.clone()),
            None => None,
        }
    }

    /// The first artist of the track, where the report holds one.
    pub fn get_artist(&self) -> (artist: Option<String>)
        ensures
            artist is Some == self@.item is Some,
            artist matches Some(a) ==> self@.item.unwrap().artists.len() > 0 && a@
                == self@.item.unwrap().artists[0],
    {
        match &self.item {
            Some(track) => Some(track.get_artist()),
            None => None,
        }
    }

    /// The album of the track, where the report holds one.
    pub fn get_album(&self) -> (album: Option<String>)
        ensures
            album is Some == self@.item is Some,
            album matches Some(a) ==> a@ == self@.item.unwrap().album,
    {
        match &self.item {
            Some(track) => Some(track.get_album()),
            None => None,
        }
    }

    /// The length of the track in milliseconds, where the report holds one.
    pub fn get_duration_ms(&self) -> (ms: Option<usize>)
        ensures
            ms is Some == self@.item is Some,
            ms matches Some(d) ==> d == self@.item.unwrap().duration_ms,
    {
        match &self.item {
            Some(track) => Some(track.get_duration_ms()),
            None => None,
        }
    }

    /// The provider's id of the track, where the report holds one.
    pub fn get_spotify_id(&self) -> (id: Option<String>)
        ensures
            id is Some == self@.item is Some,
            id matches Some(i) ==> i@ == self@.item.unwrap().id,
    {
        match &self.item {
            Some(track) => Some(track.id.clone()),
            None => None,
        }
    }
}

/// Why an attempt to authenticate failed, as a value of the model.
pub enum AuthErrorView {
    Unknown,
    MissingClientId,
    MissingClientSecret,
    NotAuthenticated,
    MissingCodeAuthError,
    MissingStateAuthError,
    CrsfMismatch,
    AuthTimedOut,
    MissingHost,
    MissingPort,
    UrlParse(Seq<char>),
    IoError(Seq<char>),
    TokenRequest(Seq<char>),
    ReqwestError(Seq<char>),
}

/// Why an attempt to authenticate with the provider failed.
#[derive(Debug)]
pub enum SpotifyClientAuthError {
    /// A failure of no known kind.
    Unknown,
    /// The settings hold no client id.
    MissingClientId,
    /// The settings hold no client secret.
    MissingClientSecret,
    /// No access token has been stored.
    NotAuthenticated,
    /// The provider's redirect brought no authorization code.
    MissingCodeAuthError,
    /// The provider's redirect brought no state.
    MissingStateAuthError,
    /// The state that came back is not the one that was sent.
    CrsfMismatch,
    /// No redirect came within the time allowed.
    AuthTimedOut,
    /// The redirect address names no host to listen on.
    MissingHost,
    /// The redirect address names no port to listen on.
    MissingPort,
    /// An address is no URL; the parser's report.
    UrlParse(String),
    /// The browser could not be opened; the system's report.
    IoError(String),
    /// The token endpoint refused the exchange; the provider's report, as it came.
    TokenRequest(String),
    /// A request could not be made or answered; the transport's report.
    ReqwestError(String),
}

impl View for SpotifyClientAuthError {
    type V = AuthErrorView;

    open spec fn view(&self) -> AuthErrorView {
        match *self {
            SpotifyClientAuthError::Unknown => AuthErrorView::Unknown,
            SpotifyClientAuthError::MissingClientId => AuthErrorView::MissingClientId,
            SpotifyClientAuthError::MissingClientSecret => AuthErrorView::MissingClientSecret,
            SpotifyClientAuthError::NotAuthenticated => AuthErrorView::NotAuthenticated,
            SpotifyClientAuthError::MissingCodeAuthError => AuthErrorView::MissingCodeAuthError,
            SpotifyClientAuthError::MissingStateAuthError => AuthErrorView::MissingStateAuthError,
            SpotifyClientAuthError::CrsfMismatch => AuthErrorView::CrsfMismatch,
            SpotifyClientAuthError::AuthTimedOut => AuthErrorView::AuthTimedOut,
            SpotifyClientAuthError::MissingHost => AuthErrorView::MissingHost,
            SpotifyClientAuthError::MissingPort => AuthErrorView::MissingPort,
            SpotifyClientAuthError::UrlParse(m) => AuthErrorView::UrlParse(m@),
            SpotifyClientAuthError::IoError(m) => AuthErrorView::IoError(m@),
            SpotifyClientAuthError::TokenRequest(m) => AuthErrorView::TokenRequest(m@),
            SpotifyClientAuthError::ReqwestError(m) => AuthErrorView::ReqwestError(m@),
        }
    }
}

impl Clone for SpotifyClientAuthError {
    fn clone(&self) -> (copy: Self)
        ensures
            copy@ == self@,
    {
        match self {
            SpotifyClientAuthError::Unknown => SpotifyClientAuthError::Unknown,
            SpotifyClientAuthError::MissingClientId => SpotifyClientAuthError::MissingClientId,
            SpotifyClientAuthError::MissingClientSecret => SpotifyClientAuthError::MissingClientSecret,
            SpotifyClientAuthError::NotAuthenticated => SpotifyClientAuthError::NotAuthenticated,
            SpotifyClientAuthError::MissingCodeAuthError => {
                SpotifyClientAuthError::MissingCodeAuthError
            },
            SpotifyClientAuthError::MissingStateAuthError => {
                SpotifyClientAuthError::MissingStateAuthError
            },
            SpotifyClientAuthError::CrsfMismatch => SpotifyClientAuthError::CrsfMismatch,
            SpotifyClientAuthError::AuthTimedOut => SpotifyClientAuthError::AuthTimedOut,
            SpotifyClientAuthError::MissingHost => SpotifyClientAuthError::MissingHost,
            SpotifyClientAuthError::MissingPort => SpotifyClientAuthError::MissingPort,
            SpotifyClientAuthError::UrlParse(m) => SpotifyClientAuthError::UrlParse(m.clone()),
            SpotifyClientAuthError::IoError(m) => SpotifyClientAuthError::IoError(m.clone()),
            SpotifyClientAuthError::TokenRequest(m) => SpotifyClientAuthError::TokenRequest(
                m.clone(),
            ),
            SpotifyClientAuthError::ReqwestError(m) => SpotifyClientAuthError::ReqwestError(
                m.clone(),
            ),
        }
    }
}

/// What an authentication failure says to the user.
pub open spec fn auth_error_message(e: AuthErrorView) -> Seq<char> {
    match e {
        AuthErrorView::Unknown => "unknown spotify client error"@,
        AuthErrorView::MissingClientId => "Missing client id"@,
        AuthErrorView::MissingClientSecret => "Missing client secret"@,
        AuthErrorView::NotAuthenticated => "Not authenticated"@,
        AuthErrorView::MissingCodeAuthError => "Missing code in auth callback URL"@,
        AuthErrorView::MissingStateAuthError => "Missing state in auth callback URL"@,
        AuthErrorView::CrsfMismatch => "CRSF token mismatch"@,
        AuthErrorView::AuthTimedOut => "Authentication timed out"@,
        AuthErrorView::MissingHost => "Missing host"@,
        AuthErrorView::MissingPort => "Missing port"@,
        AuthErrorView::UrlParse(_) => "Url Error"@,
        AuthErrorView::IoError(_) => "IO error"@,
        AuthErrorView::TokenRequest(m) => "OAuth token request failed: "@ + m,
        AuthErrorView::ReqwestError(m) => "OAuth token request failed: "@ + m,
    }
}

/// The name of an authentication failure with, in brackets, the report that it holds.
pub open spec fn auth_error_detail(e: AuthErrorView) -> Seq<char> {
    match e {
        AuthErrorView::Unknown => "Unknown"@,
        AuthErrorView::MissingClientId => "MissingClientId"@,
        AuthErrorView::MissingClientSecret => "MissingClientSecret"@,
        AuthErrorView::NotAuthenticated => "NotAuthenticated"@,
        AuthErrorView::MissingCodeAuthError => "MissingCodeAuthError"@,
        AuthErrorView::MissingStateAuthError => "MissingStateAuthError"@,
        AuthErrorView::CrsfMismatch => "CrsfMismatch"@,
        AuthErrorView::AuthTimedOut => "AuthTimedOut"@,
        AuthErrorView::MissingHost => "MissingHost"@,
        AuthErrorView::MissingPort => "MissingPort"@,
        AuthErrorView::UrlParse(m) => "UrlParse("@ + m + ")"@,
        AuthErrorView::IoError(m) => "IoError("@ + m + ")"@,
        AuthErrorView::TokenRequest(m) => "TokenRequest("@ + m + ")"@,
        AuthErrorView::ReqwestError(m) => "ReqwestError("@ + m + ")"@,
    }
}

impl SpotifyClientAuthError {
    /// What the failure says to the user.
    pub fn message(&self) -> (text: String)
        ensures
            text@ == auth_error_message(self@),
    {
        match self {
            SpotifyClientAuthError::Unknown => String::from_str("unknown spotify client error"),
            SpotifyClientAuthError::MissingClientId => String::from_str("Missing client id"),
            SpotifyClientAuthError::MissingClientSecret => String::from_str(
                "Missing client secret",
            ),
            SpotifyClientAuthError::NotAuthenticated => String::from_str("Not authenticated"),
            SpotifyClientAuthError::MissingCodeAuthError => String::from_str(
                "Missing code in auth callback URL",
            ),
            SpotifyClientAuthError::MissingStateAuthError => String::from_str(
                "Missing state in auth callback URL",
            ),
            SpotifyClientAuthError::CrsfMismatch => String::from_str("CRSF token mismatch"),
            SpotifyClientAuthError::AuthTimedOut => String::from_str("Authentication timed out"),
            SpotifyClientAuthError::MissingHost => String::from_str("Missing host"),
            SpotifyClientAuthError::MissingPort => String::from_str("Missing port"),
            SpotifyClientAuthError::UrlParse(_) => String::from_str("Url Error"),
            SpotifyClientAuthError::IoError(_) => String::from_str("IO error"),
            SpotifyClientAuthError::TokenRequest(m) => joined(
                "OAuth token request failed: ",
                m.as_str(),
            ),
            SpotifyClientAuthError::ReqwestError(m) => joined(
                "OAuth token request failed: ",
                m.as_str(),
            ),
        }
    }

    /// The name of the failure with, in brackets, the report that it holds.
    pub fn detail(&self) -> (text: String)
        ensures
            text@ == auth_error_detail(self@),
    {
        match self {
            SpotifyClientAuthError::Unknown => String::from_str("Unknown"),
            SpotifyClientAuthError::MissingClientId => String::from_str("MissingClientId"),
            SpotifyClientAuthError::MissingClientSecret => String::from_str("MissingClientSecret"),
            SpotifyClientAuthError::NotAuthenticated => String::from_str("NotAuthenticated"),
            SpotifyClientAuthError::MissingCodeAuthError => String::from_str(
                "MissingCodeAuthError",
            ),
            SpotifyClientAuthError::MissingStateAuthError => String::from_str(
                "MissingStateAuthError",
            ),
            SpotifyClientAuthError::CrsfMismatch => String::from_str("CrsfMismatch"),
            SpotifyClientAuthError::AuthTimedOut => String::from_str("AuthTimedOut"),
            SpotifyClientAuthError::MissingHost => String::from_str("MissingHost"),
            SpotifyClientAuthError::MissingPort => String::from_str("MissingPort"),
            SpotifyClientAuthError::UrlParse(m) => wrapped("UrlParse(", m.as_str(), ")"),
            SpotifyClientAuthError::IoError(m) => wrapped("IoError(", m.as_str(), ")"),
            SpotifyClientAuthError::TokenRequest(m) => wrapped("TokenRequest(", m.as_str(), ")"),
            SpotifyClientAuthError::ReqwestError(m) => wrapped("ReqwestError(", m.as_str(), ")"),
        }
    }
}

/// Why the provider's report on playback could not be had, as a value of the model.
pub enum ClientErrorView {
    NotAuthenticated,
    NotATrack,
    NoContentResponse,
    UrlParse(Seq<char>),
    IoError(Seq<char>),
    TokenRequest(Seq<char>),
    ReqwestError(Seq<char>),
}

/// Why the provider's report on playback could not be had.
#[derive(Debug)]
pub enum SpotifyClientError {
    /// No access token has been stored.
    NotAuthenticated,
    /// Something plays, but no track.
    NotATrack,
    /// Nothing plays: the provider answered without content.
    NoContentResponse,
    /// An address is no URL; the parser's report.
    UrlParse(String),
    /// The system's report of a failure.
    IoError(String),
    /// The provider's report of a refused token request.
    TokenRequest(String),
    /// The request could not be made, or its answer not read; the transport's report.
    ReqwestError(String),
}

impl View for SpotifyClientError {
    type V = ClientErrorView;

    open spec fn view(&self) -> ClientErrorView {
        match *self {
            SpotifyClientError::NotAuthenticated => ClientErrorView::NotAuthenticated,
            SpotifyClientError::NotATrack => ClientErrorView::NotATrack,
            SpotifyClientError::NoContentResponse => ClientErrorView::NoContentResponse,
            SpotifyClientError::UrlParse(m) => ClientErrorView::UrlParse(m@),
            SpotifyClientError::IoError(m) => ClientErrorView::IoError(m@),
            SpotifyClientError::TokenRequest(m) => ClientErrorView::TokenRequest(m@),
            SpotifyClientError::ReqwestError(m) => ClientErrorView::ReqwestError(m@),
        }
    }
}

/// What a failure to get the playback report says to the user.
pub open spec fn client_error_message(e: ClientErrorView) -> Seq<char> {
    match e {
        ClientErrorView::NotAuthenticated => "Not authenticated"@,
        ClientErrorView::NotATrack => "Not playing a track"@,
        ClientErrorView::NoContentResponse => "No playing anything"@,
        ClientErrorView::UrlParse(_) => "Url Error"@,
        ClientErrorView::IoError(_) => "IO error"@,
        ClientErrorView::TokenRequest(m) => "OAuth token request failed: "@ + m,
        ClientErrorView::ReqwestError(m) => "Reqwest error: "@ + m,
    }
}

/// The name of the failure with, in brackets, the report that it holds.
pub open spec fn client_error_detail(e: ClientErrorView) -> Seq<char> {
    match e {
        ClientErrorView::NotAuthenticated => "NotAuthenticated"@,
        ClientErrorView::NotATrack => "NotATrack"@,
        ClientErrorView::NoContentResponse => "NoContentResponse"@,
        ClientErrorView::UrlParse(m) => "UrlParse("@ + m + ")"@,
        ClientErrorView::IoError(m) => "IoError("@ + m + ")"@,
        ClientErrorView::TokenRequest(m) => "TokenRequest("@ + m + ")"@,
        ClientErrorView::ReqwestError(m) => "ReqwestError("@ + m + ")"@,
    }
}

impl SpotifyClientError {
    /// What the failure says to the user.
    pub fn message(&self) -> (text: String)
        ensures
            text@ == client_error_message(self@),
    {
        match self {
            SpotifyClientError::NotAuthenticated => String::from_str("Not authenticated"),
            SpotifyClientError::NotATrack => String::from_str("Not playing a track"),
            SpotifyClientError::NoContentResponse => String::from_str("No playing anything"),
            SpotifyClientError::UrlParse(_) => String::from_str("Url Error"),
            SpotifyClientError::IoError(_) => String::from_str("IO error"),
            SpotifyClientError::TokenRequest(m) => joined("OAuth token request failed: ", m.as_str()),
            SpotifyClientError::ReqwestError(m) => joined("Reqwest error: ", m.as_str()),
        }
    }

    /// The name of the failure with, in brackets, the report that it holds.
    pub fn detail(&self) -> (text: String)
        ensures
            text@ == client_error_detail(self@),
    {
        match self {
            SpotifyClientError::NotAuthenticated => String::from_str("NotAuthenticated"),
            SpotifyClientError::NotATrack => String::from_str("NotATrack"),
            SpotifyClientError::NoContentResponse => String::from_str("NoContentResponse"),
            SpotifyClientError::UrlParse(m) => wrapped("UrlParse(", m.as_str(), ")"),
            SpotifyClientError::IoError(m) => wrapped("IoError(", m.as_str(), ")"),
            SpotifyClientError::TokenRequest(m) => wrapped("TokenRequest(", m.as_str(), ")"),
            SpotifyClientError::ReqwestError(m) => wrapped("ReqwestError(", m.as_str(), ")"),
        }
    }
}

/// Where the provider reports what is playing.
pub const CURRENTLY_PLAYING_URL: &'static str =
    "https://api.spotify.com/v1/me/player/currently-playing";

/// The status with which the provider answers when nothing plays.
pub const NO_CONTENT: u16 = 204;

/// What a poll is told, as a value of the model.
pub enum PollEventView {
    Begin,
    Sent(Result<u16, Seq<char>>),
    Body(Result<PlaybackView, Seq<char>>),
}

/// What a poll of the current track is told.
#[derive(Debug)]
pub enum PollEvent {
    /// A poll is asked for.
    Begin,
    /// The request was answered with this status, or could not be made.
    Sent(Result<u16, String>),
    /// The body of the answer held this report, or could not be read.
    Body(Result<CurrentlyPlayingResponse, String>),
}

impl View for PollEvent {
    type V = PollEventView;

    open spec fn view(&self) -> PollEventView {
        match *self {
            PollEvent::Begin => PollEventView::Begin,
            PollEvent::Sent(Ok(status)) => PollEventView::Sent(Ok(status)),
            PollEvent::Sent(Err(m)) => PollEventView::Sent(Err(m@)),
            PollEvent::Body(Ok(p)) => PollEventView::Body(Ok(p@)),
            PollEvent::Body(Err(m)) => PollEventView::Body(Err(m@)),
        }
    }
}

/// What the caller of a poll is to do next, as a value of the model.
pub enum PollStepView {
    Send { url: Seq<char>, bearer_token: Seq<char> },
    ReadBody,
    Done(Result<PlaybackView, ClientErrorView>),
}

/// What the caller of a poll is to do next.
#[derive(Debug)]
pub enum PollStep {
    /// Get `url` with the token as bearer, and report the status of the answer.
    Send { url: String, bearer_token: String },
    /// Read the report in the body of the answer, and hand it over.
    ReadBody,
    /// The poll is over, with this outcome.
    Done(Result<CurrentlyPlayingResponse, SpotifyClientError>),
}

impl View for PollStep {
    type V = PollStepView;

    open spec fn view(&self) -> PollStepView {
        match *self {
            PollStep::Send { url, bearer_token } => PollStepView::Send {
                url: url@,
                bearer_token: bearer_token@,
            },
            PollStep::ReadBody => PollStepView::ReadBody,
            PollStep::Done(Ok(p)) => PollStepView::Done(Ok(p@)),
            PollStep::Done(Err(e)) => PollStepView::Done(Err(e@)),
        }
    }
}

/// How a poll goes on. Without a token it ends at once. An answer without content
/// means that nothing plays, and a report of another kind than a track that no
/// track plays: both end the poll apart from the failures of the transport.
pub open spec fn poll_step(token: Option<Seq<char>>, event: PollEventView) -> PollStepView {
    match event {
        PollEventView::Begin => match token {
            None => PollStepView::Done(Err(ClientErrorView::NotAuthenticated)),
            Some(t) => PollStepView::Send { url: CURRENTLY_PLAYING_URL@, bearer_token: t },
        },
        PollEventView::Sent(Err(report)) => PollStepView::Done(
            Err(ClientErrorView::ReqwestError(report)),
        ),
        PollEventView::Sent(Ok(status)) => if status == NO_CONTENT {
            PollStepView::Done(Err(ClientErrorView::NoContentResponse))
        } else {
            PollStepView::ReadBody
        },
        PollEventView::Body(Err(report)) => PollStepView::Done(
            Err(ClientErrorView::ReqwestError(report)),
        ),
        PollEventView::Body(Ok(playing)) => if playing.kind == track_kind() {
            PollStepView::Done(Ok(playing))
        } else {
            PollStepView::Done(Err(ClientErrorView::NotATrack))
        },
    }
}

/// The client of the provider: the access token, once there is one, and the state of
/// the authorization flow.
#[derive(Debug)]
pub struct SpotifyClient {
    access_token: Option<String>,
    auth: AuthState,
}

impl SpotifyClient {
    /// The access token that is stored, if any.
    pub closed spec fn token(&self) -> Option<Seq<char>> {
        text_of(self.access_token)
    }

    /// Where the authorization flow stands.
    pub closed spec fn auth_state(&self) -> AuthStateView {
        self.auth@
    }

    /// A client without a token, for which no attempt to authenticate has been made.
    pub fn new() -> (client: SpotifyClient)
        ensures
            client.token() is None,
            client.auth_state() is Idle,
    {
        SpotifyClient { access_token: None, auth: AuthState::Idle }
    }

    /// Whether an access token is stored.
    pub fn is_authenticated(&self) -> (b: bool)
        ensures
            b == self.token() is Some,
    {
        self.access_token.is_some()
    }

    /// How the last attempt to authenticate ended: well, or with a failure. `None`
    /// where none has been made or one is under way.
    pub fn authentication_result(&self) -> (result: Option<Result<(), SpotifyClientAuthError>>)
        ensures
            match self.auth_state() {
                AuthStateView::Authenticated => result == Some(
                    Ok::<(), SpotifyClientAuthError>(()),
                ),
                AuthStateView::Failed(e) => result matches Some(Err(failure)) && failure@ == e,
                _ => result is None,
            },
    {
        match &self.auth {
            AuthState::Authenticated => Some(Ok(())),
            AuthState::Failed(e) => Some(Err(e.clone())),
            _ => None,
        }
    }

    /// Takes the authorization flow one step on: told what happened, it says what the
    /// caller is to do next. A token that the provider granted in answer to the
    /// exchange is stored; nothing else changes the token.
    pub fn authenticate(&mut self, event: AuthEvent) -> (action: AuthAction)
        ensures
            match event@ {
                AuthEventView::Start(credentials) => if may_start(old(self).auth_state()) {
                    follows_start(credentials, final(self).auth_state(), action@)
                } else {
                    final(self).auth_state() == old(self).auth_state() && action@ is Nothing
                },
                other => (final(self).auth_state(), action@) == after_event(
                    old(self).auth_state(),
                    other,
                ),
            },
            final(self).token() == match action@ {
                AuthActionView::StoreToken(token) => Some(token),
                _ => old(self).token(),
            },
    {
        let mut state: AuthState = AuthState::Idle;
        core::mem::swap(&mut self.auth, &mut state);
        let (next, action) = step(state, event);
        self.auth = next;
        match &action {
            AuthAction::StoreToken(token) => {
                self.access_token = Some(token.clone());
            },
            _ => {},
        }
        action
    }

    /// Takes a poll of the current track one step on: told what happened, it says
    /// what the caller is to do next, or how the poll ended.
    pub fn get_current_track(&self, event: PollEvent) -> (next: PollStep)
        ensures
            next@ == poll_step(self.token(), event@),
    {
        match event {
            PollEvent::Begin => match &self.access_token {
                None => PollStep::Done(Err(SpotifyClientError::NotAuthenticated)),
                Some(token) => PollStep::Send {
                    url: String::from_str(CURRENTLY_PLAYING_URL),
                    bearer_token: token.clone(),
                },
            },
            PollEvent::Sent(Err(report)) => PollStep::Done(
                Err(SpotifyClientError::ReqwestError(report)),
            ),
            PollEvent::Sent(Ok(status)) => if status == NO_CONTENT {
                PollStep::Done(Err(SpotifyClientError::NoContentResponse))
            } else {
                PollStep::ReadBody
            },
            PollEvent::Body(Err(report)) => PollStep::Done(
                Err(SpotifyClientError::ReqwestError(report)),
            ),
            PollEvent::Body(Ok(playing)) => if playing.has_track_kind() {
                PollStep::Done(Ok(playing))
            } else {
                PollStep::Done(Err(SpotifyClientError::NotATrack))
            },
        }
    }
}

} // verus!
