//! Getting the lyrics of a track: what identifies a request, when the cache is asked
//! and when the lyrics provider, and what is handed on in the end. Reading and
//! writing the cache and talking to the provider are the caller's part.

use crate::lyrics_laws::lemma_stable_sort_unique;
use crate::lyrics_parser::{
    collected_cues, cues, is_stable_sort_of, Cue, LyricLine, SongLyrics,
};
use crate::runtime::{MessageToUI, MessageView, RuntimeError, RuntimeErrorView};
use crate::settings::Settings;
use crate::spotify::{track_kind, CurrentlyPlayingResponse};
use crate::text::{joined, push_seconds, seconds_text, text_of, wrapped};
use std::sync::Arc;
use vstd::prelude::*;
use vstd::string::StringExecFns;

verus! {

/// Where the lyrics provider answers lookups.
pub const LRC_LIB_URL: &'static str = "https://lrclib.net/api/get";

/// The file of a cache entry that holds the facts about the track.
pub const META_FILE: &'static str = ".meta";

/// The file of a cache entry that holds the timeline.
pub const LYRICS_FILE: &'static str = "lyrics.lrc";

/// Why lyrics could not be fetched, as a value of the model.
pub enum FetcherErrView {
    ReqwestError(Seq<char>),
    NoTrack,
}

/// Why lyrics could not be fetched.
#[derive(Debug)]
pub enum LyricsFetcherErr {
    /// The provider could not be asked, or its answer not read; the transport's
    /// report.
    ReqwestError(String),
    /// There is no track to fetch lyrics for.
    NoTrack(),
}

impl View for LyricsFetcherErr {
    type V = FetcherErrView;

    open spec fn view(&self) -> FetcherErrView {
        match *self {
            LyricsFetcherErr::ReqwestError(m) => FetcherErrView::ReqwestError(m@),
            LyricsFetcherErr::NoTrack() => FetcherErrView::NoTrack,
        }
    }
}

/// What a failure to fetch lyrics says to the user.
pub open spec fn fetcher_error_message(e: FetcherErrView) -> Seq<char> {
    match e {
        FetcherErrView::ReqwestError(m) => "Reqwest error: "@ + m,
        FetcherErrView::NoTrack => "No track in current response for fetcher"@,
    }
}

/// The name of the failure with, in brackets, the report that it holds.
pub open spec fn fetcher_error_detail(e: FetcherErrView) -> Seq<char> {
    match e {
        FetcherErrView::ReqwestError(m) => "ReqwestError("@ + m + ")"@,
        FetcherErrView::NoTrack => "NoTrack"@,
    }
}

impl LyricsFetcherErr {
    /// What the failure says to the user.
    pub fn message(&self) -> (text: String)
        ensures
            text@ == fetcher_error_message(self@),
    {
        match self {
            LyricsFetcherErr::ReqwestError(m) => joined("Reqwest error: ", m.as_str()),
            LyricsFetcherErr::NoTrack() => String::from_str(
                "No track in current response for fetcher",
            ),
        }
    }

    /// The name of the failure with, in brackets, the report that it holds.
    pub fn detail(&self) -> (text: String)
        ensures
            text@ == fetcher_error_detail(self@),
    {
        match self {
            LyricsFetcherErr::ReqwestError(m) => wrapped("ReqwestError(", m.as_str(), ")"),
            LyricsFetcherErr::NoTrack() => String::from_str("NoTrack"),
        }
    }
}

/// Why the cache gave no lyrics.
#[derive(Debug)]
pub enum LyricsCacheCheckErr {
    /// The cache could not be read; the system's report.
    IoError(String),
    /// The cache has no entry for the track.
    NotInCache(),
    /// The entry could not be understood; the decoder's report.
    Serde(String),
}

impl LyricsCacheCheckErr {
    /// What the failure says to the user.
    pub fn message(&self) -> (text: String)
        ensures
            text@ == match *self {
                LyricsCacheCheckErr::IoError(_) => "IO error"@,
                LyricsCacheCheckErr::NotInCache() => "Track not found in cache"@,
                LyricsCacheCheckErr::Serde(_) => "Serialization failed"@,
            },
    {
        match self {
            LyricsCacheCheckErr::IoError(_) => String::from_str("IO error"),
            LyricsCacheCheckErr::NotInCache() => String::from_str("Track not found in cache"),
            LyricsCacheCheckErr::Serde(_) => String::from_str("Serialization failed"),
        }
    }
}

/// Why a cache entry could not be written.
#[derive(Debug)]
pub enum LyricsCacheCreateErr {
    /// The cache could not be written; the system's report.
    IoError(String),
    /// The entry could not be put into words; the encoder's report.
    SerializeErr(String),
}

impl LyricsCacheCreateErr {
    /// What the failure says to the user.
    pub fn message(&self) -> (text: String)
        ensures
            text@ == match *self {
                LyricsCacheCreateErr::IoError(_) => "IO error"@,
                LyricsCacheCreateErr::SerializeErr(_) => "Could not serialize new cache entry"@,
            },
    {
        match self {
            LyricsCacheCreateErr::IoError(_) => String::from_str("IO error"),
            LyricsCacheCreateErr::SerializeErr(_) => String::from_str(
                "Could not serialize new cache entry",
            ),
        }
    }
}

/// What a request for lyrics says.
pub struct RequestView {
    pub spotify_id: Option<Seq<char>>,
    pub duration_ms: nat,
    pub track_name: Seq<char>,
    pub artist_name: Seq<char>,
    pub album_name: Seq<char>,
}

/// The track whose lyrics are asked for. The lyrics provider knows tracks by title,
/// artist and length, not by the music provider's id.
#[derive(Debug)]
pub struct LyricsRequestInfo {
    spotify_id: Option<String>,
    duration_ms: usize,
    track_name: String,
    artist_name: String,
    album_name: String,
}

impl View for LyricsRequestInfo {
    type V = RequestView;

    closed spec fn view(&self) -> RequestView {
        RequestView {
            spotify_id: text_of(self.spotify_id),
            duration_ms: self.duration_ms as nat,
            track_name: self.track_name@,
            artist_name: self.artist_name@,
            album_name: self.album_name@,
        }
    }
}

impl Clone for LyricsRequestInfo {
    fn clone(&self) -> (copy: Self)
        ensures
            copy@ == self@,
    {
        LyricsRequestInfo {
            spotify_id: match &self.spotify_id {
                Some(id) => Some(id.clone()),
                None => None,
            },
            duration_ms: self.duration_ms,
            track_name: self.track_name.clone(),
            artist_name: self.artist_name.clone(),
            album_name: self.album_name.clone(),
        }
    }
}

/// The name under which the lyrics of a track are cached: title, `-`, artist, `.`,
/// and the length in seconds.
pub open spec fn track_identifier(request: RequestView) -> Seq<char> {
    request.track_name + "-"@ + request.artist_name + "."@ + seconds_text(request.duration_ms)
}

/// What a request says of itself: title, artist, album and length.
pub open spec fn request_text(request: RequestView) -> Seq<char> {
    request.track_name + " - "@ + request.artist_name + ". From "@ + request.album_name + ", "@
        + seconds_text(request.duration_ms) + "s"@
}

/// The address at which the lyrics provider is asked for a track.
pub open spec fn lookup_url(request: RequestView) -> Seq<char> {
    LRC_LIB_URL@ + "?artist_name="@ + request.artist_name + "&track_name="@ + request.track_name
        + "&album_name="@ + request.album_name + "&duration="@ + seconds_text(request.duration_ms)
}

/// Whether a request can be sent on: title, artist and album are given and the
/// length is not zero.
pub open spec fn dispatchable(request: RequestView) -> bool {
    &&& request.track_name.len() > 0
    &&& request.artist_name.len() > 0
    &&& request.album_name.len() > 0
    &&& request.duration_ms > 0
}

impl LyricsRequestInfo {
    /// A request for the lyrics of the track with this title, artist, album and
    /// length.
    pub fn new(
        spotify_id: Option<String>,
        duration_ms: usize,
        track_name: String,
        artist_name: String,
        album_name: String,
    ) -> (request: LyricsRequestInfo)
        ensures
            request@ == (RequestView {
                spotify_id: text_of(spotify_id),
                duration_ms: duration_ms as nat,
                track_name: track_name@,
                artist_name: artist_name@,
                album_name: album_name@,
            }),
    {
        LyricsRequestInfo { spotify_id, duration_ms, track_name, artist_name, album_name }
    }

    /// The request for the lyrics of the track that `response` reports; `NoTrack`
    /// where it reports none.
    pub fn from_spotify_response(response: &CurrentlyPlayingResponse) -> (r: Result<
        Self,
        LyricsFetcherErr,
    >)
        ensures
            r is Ok <==> response@.kind == track_kind() && response@.item is Some,
            r matches Err(e) ==> e@ == FetcherErrView::NoTrack,
            r matches Ok(request) ==> {
                let track = response@.item.unwrap();
                &&& track.artists.len() > 0
                &&& request@ == (RequestView {
                    spotify_id: Some(track.id),
                    duration_ms: track.duration_ms,
                    track_name: track.name,
                    artist_name: track.artists[0],
                    album_name: track.album,
                })
            },
    {
        if !response.is_track() {
            return Err(LyricsFetcherErr::NoTrack());
        }
        match (
            response.get_spotify_id(),
            response.get_duration_ms(),
            response.get_track_title(),
            response.get_artist(),
            response.get_album(),
        ) {
            (Some(id), Some(duration_ms), Some(track_name), Some(artist_name), Some(album_name)) => {
                Ok(
                    LyricsRequestInfo {
                        spotify_id: Some(id),
                        duration_ms,
                        track_name,
                        artist_name,
                        album_name,
                    },
                )
            },
            _ => Err(LyricsFetcherErr::NoTrack()),
        }
    }

    /// The name under which the lyrics of the track are cached.
    pub fn get_track_identifier(&self) -> (key: String)
        ensures
            key@ == track_identifier(self@),
    {
        let mut key: String = self.track_name.clone();
        key.append("-");
        key.append(self.artist_name.as_str());
        key.append(".");
        push_seconds(&mut key, self.duration_ms as u64);
        key
    }

    /// The address at which the lyrics provider is asked for the track.
    pub fn lookup_url(&self) -> (url: String)
        ensures
            url@ == lookup_url(self@),
    {
        let mut url: String = String::from_str(LRC_LIB_URL);
        url.append("?artist_name=");
        url.append(self.artist_name.as_str());
        url.append("&track_name=");
        url.append(self.track_name.as_str());
        url.append("&album_name=");
        url.append(self.album_name.as_str());
        url.append("&duration=");
        push_seconds(&mut url, self.duration_ms as u64);
        url
    }

    /// Whether the request can be sent on.
    pub fn is_dispatchable(&self) -> (b: bool)
        ensures
            b == dispatchable(self@),
    {
        !self.track_name.as_str().is_empty() && !self.artist_name.as_str().is_empty()
            && !self.album_name.as_str().is_empty() && self.duration_ms > 0
    }

    /// What the request says of itself.
    pub fn describe(&self) -> (text: String)
        ensures
            text@ == request_text(self@),
    {
        let mut text: String = self.track_name.clone();
        text.append(" - ");
        text.append(self.artist_name.as_str());
        text.append(". From ");
        text.append(self.album_name.as_str());
        text.append(", ");
        push_seconds(&mut text, self.duration_ms as u64);
        text.append("s");
        text
    }
}

/// What a song with its lyrics says.
pub struct SongView {
    pub lyrics: Seq<Cue>,
    pub duration_ms: nat,
    pub track_name: Seq<char>,
    pub artist_name: Seq<char>,
    pub album_name: Seq<char>,
}

/// A timeline together with the track that it was asked for.
#[derive(Debug)]
pub struct SongWithLyrics {
    /// The timeline.
    pub lyrics: SongLyrics,
    duration_ms: usize,
    track_name: String,
    artist_name: String,
    album_name: String,
}

impl View for SongWithLyrics {
    type V = SongView;

    closed spec fn view(&self) -> SongView {
        SongView {
            lyrics: self.lyrics@,
            duration_ms: self.duration_ms as nat,
            track_name: self.track_name@,
            artist_name: self.artist_name@,
            album_name: self.album_name@,
        }
    }
}

/// The song that a timeline and the request for it make.
pub open spec fn song_of(lyrics: Seq<Cue>, request: RequestView) -> SongView {
    SongView {
        lyrics,
        duration_ms: request.duration_ms,
        track_name: request.track_name,
        artist_name: request.artist_name,
        album_name: request.album_name,
    }
}

/// What a song says of itself: that these are lyrics, and for which track.
pub open spec fn song_text(song: SongView) -> Seq<char> {
    "Lyrics for "@ + song.track_name + " - "@ + song.artist_name + ". From "@ + song.album_name
        + ", "@ + seconds_text(song.duration_ms) + "s"@
}

impl SongWithLyrics {
    /// The timeline `lyrics` as the lyrics of the track that `req` asked for.
    pub fn new(lyrics: SongLyrics, req: LyricsRequestInfo) -> (song: SongWithLyrics)
        ensures
            song@ == song_of(lyrics@, req@),
    {
        SongWithLyrics {
            lyrics,
            duration_ms: req.duration_ms,
            track_name: req.track_name,
            artist_name: req.artist_name,
            album_name: req.album_name,
        }
    }

    /// The timeline.
    pub fn lyrics(&self) -> (lyrics: &SongLyrics)
        ensures
            lyrics@ == self@.lyrics,
    {
        &self.lyrics
    }

    /// What the song says of itself.
    pub fn describe(&self) -> (text: String)
        ensures
            text@ == song_text(self@),
    {
        let mut text: String = String::from_str("Lyrics for ");
        text.append(self.track_name.as_str());
        text.append(" - ");
        text.append(self.artist_name.as_str());
        text.append(". From ");
        text.append(self.album_name.as_str());
        text.append(", ");
        push_seconds(&mut text, self.duration_ms as u64);
        text.append("s");
        text
    }
}

/// What the lyrics provider answers to a lookup, as far as it is used. The length
/// that it reports is left with the caller.
#[derive(Debug)]
pub struct LRCOkResponse {
    /// The provider's id of the lyrics.
    pub id: usize,
    pub track_name: String,
    pub artist_name: String,
    pub album_name: String,
    pub instrumental: bool,
    pub plain_lyrics: String,
    /// The time-stamped lyrics, as text.
    pub synced_lyrics: String,
}

/// What an answer of the lyrics provider says.
pub struct AnswerView {
    pub id: nat,
    pub track_name: Seq<char>,
    pub artist_name: Seq<char>,
    pub album_name: Seq<char>,
    pub instrumental: bool,
    pub plain_lyrics: Seq<char>,
    pub synced_lyrics: Seq<char>,
}

impl View for LRCOkResponse {
    type V = AnswerView;

    open spec fn view(&self) -> AnswerView {
        AnswerView {
            id: self.id as nat,
            track_name: self.track_name@,
            artist_name: self.artist_name@,
            album_name: self.album_name@,
            instrumental: self.instrumental,
            plain_lyrics: self.plain_lyrics@,
            synced_lyrics: self.synced_lyrics@,
        }
    }
}

/// The facts about a track that a cache entry records beside the timeline. The
/// length that the provider reported is added by the caller.
#[derive(Debug)]
pub struct LrcCacheMeta {
    pub spotify_id: Option<String>,
    pub lrc_id: usize,
    pub track_name: String,
    pub artist_name: String,
    pub album_name: String,
    pub instrumental: bool,
}

/// What the facts of a cache entry say.
pub struct MetaView {
    pub spotify_id: Option<Seq<char>>,
    pub lrc_id: nat,
    pub track_name: Seq<char>,
    pub artist_name: Seq<char>,
    pub album_name: Seq<char>,
    pub instrumental: bool,
}

impl View for LrcCacheMeta {
    type V = MetaView;

    open spec fn view(&self) -> MetaView {
        MetaView {
            spotify_id: text_of(self.spotify_id),
            lrc_id: self.lrc_id as nat,
            track_name: self.track_name@,
            artist_name: self.artist_name@,
            album_name: self.album_name@,
            instrumental: self.instrumental,
        }
    }
}

/// The facts that are recorded with the lyrics of `request`: the music provider's id
/// of the track, and what the lyrics provider says of it.
pub open spec fn meta_of(request: RequestView, answer: AnswerView) -> MetaView {
    MetaView {
        spotify_id: request.spotify_id,
        lrc_id: answer.id,
        track_name: answer.track_name,
        artist_name: answer.artist_name,
        album_name: answer.album_name,
        instrumental: answer.instrumental,
    }
}

/// What a fetch is told, as a value of the model.
pub enum FetchEventView {
    Begin(RequestView),
    CacheLooked(RequestView, Option<Seq<Cue>>),
    Answered(RequestView, Result<AnswerView, Seq<char>>),
    Stored(SongView),
}

/// What a fetch of lyrics is told.
#[derive(Debug)]
pub enum FetchEvent {
    /// The lyrics of this track are asked for.
    Begin(LyricsRequestInfo),
    /// The cache was looked into: it held these lines, or gave none and why.
    CacheLooked(LyricsRequestInfo, Result<Vec<LyricLine>, LyricsCacheCheckErr>),
    /// The lyrics provider answered, or could not be reached or understood.
    Answered(LyricsRequestInfo, Result<LRCOkResponse, String>),
    /// The cache entry for this song was written, or could not be.
    Stored(SongWithLyrics, Result<(), LyricsCacheCreateErr>),
}

/// The cues that the cache held, if it held any.
pub open spec fn cached_cues(looked: Result<Vec<LyricLine>, LyricsCacheCheckErr>) -> Option<
    Seq<Cue>,
> {
    match looked {
        Ok(lines) => Some(cues(lines@)),
        Err(_) => None,
    }
}

/// The view of the provider's answer, or of the report why there is none.
pub open spec fn answered_view(answered: Result<LRCOkResponse, String>) -> Result<
    AnswerView,
    Seq<char>,
> {
    match answered {
        Ok(a) => Ok(a@),
        Err(report) => Err(report@),
    }
}

impl View for FetchEvent {
    type V = FetchEventView;

    open spec fn view(&self) -> FetchEventView {
        match *self {
            FetchEvent::Begin(request) => FetchEventView::Begin(request@),
            FetchEvent::CacheLooked(request, looked) => FetchEventView::CacheLooked(
                request@,
                cached_cues(looked),
            ),
            FetchEvent::Answered(request, answered) => FetchEventView::Answered(
                request@,
                answered_view(answered),
            ),
            FetchEvent::Stored(song, _) => FetchEventView::Stored(song@),
        }
    }
}

/// What the caller of a fetch is to do next, as a value of the model.
pub enum FetchStepView {
    LookInCache { folder: Seq<char>, key: Seq<char>, request: RequestView },
    AskProvider { url: Seq<char>, request: RequestView },
    Store { folder: Seq<char>, key: Seq<char>, meta: MetaView, song: SongView },
    Emit(Result<MessageView, RuntimeErrorView>),
}

/// What the caller of a fetch is to do next.
#[derive(Debug)]
pub enum FetchStep {
    /// Look for the entry `key` in the cache folder, and report what it holds.
    LookInCache { folder: String, key: String, request: LyricsRequestInfo },
    /// Get `url`, and report the answer.
    AskProvider { url: String, request: LyricsRequestInfo },
    /// Write the entry `key` with these facts and the timeline of the song, and
    /// report how that went.
    Store { folder: String, key: String, meta: LrcCacheMeta, song: SongWithLyrics },
    /// The fetch is over, with this outcome.
    Emit(Result<MessageToUI, RuntimeError>),
}

impl View for FetchStep {
    type V = FetchStepView;

    open spec fn view(&self) -> FetchStepView {
        match *self {
            FetchStep::LookInCache { folder, key, request } => FetchStepView::LookInCache {
                folder: folder@,
                key: key@,
                request: request@,
            },
            FetchStep::AskProvider { url, request } => FetchStepView::AskProvider {
                url: url@,
                request: request@,
            },
            FetchStep::Store { folder, key, meta, song } => FetchStepView::Store {
                folder: folder@,
                key: key@,
                meta: meta@,
                song: song@,
            },
            FetchStep::Emit(Ok(message)) => FetchStepView::Emit(Ok(message@)),
            FetchStep::Emit(Err(e)) => FetchStepView::Emit(Err(e@)),
        }
    }
}

/// What is told the display when the lyrics provider could not be asked.
pub open spec fn fetch_failure_text(report: Seq<char>) -> Seq<char> {
    "Failed to fetch lyrics: "@ + fetcher_error_message(FetcherErrView::ReqwestError(report))
}

/// The step that asks the lyrics provider for `request`.
pub open spec fn ask_provider(request: RequestView) -> FetchStepView {
    FetchStepView::AskProvider { url: lookup_url(request), request }
}

/// Whether `step` is how a fetch goes on after `event`, with the cache in `folder`
/// switched on or off.
///
/// A request that cannot be sent on ends the fetch. With the cache on, it is asked
/// first; what it holds is handed on and the provider is not asked. Where the cache
/// holds nothing, cannot be read, or is off, the provider is asked. Its lyrics are
/// read, every line kept, and the entry is written whether the cache is on or off.
/// The lyrics are handed on however the writing went.
pub open spec fn fetch_follows(
    caching_enabled: bool,
    folder: Seq<char>,
    event: FetchEventView,
    step: FetchStepView,
) -> bool {
    match event {
        FetchEventView::Begin(request) => step == if !dispatchable(request) {
            FetchStepView::Emit(Err(RuntimeErrorView::GetFailed(FetcherErrView::NoTrack)))
        } else if caching_enabled {
            FetchStepView::LookInCache { folder, key: track_identifier(request), request }
        } else {
            ask_provider(request)
        },
        FetchEventView::CacheLooked(request, Some(held)) => {
            &&& step matches FetchStepView::Emit(Ok(MessageView::GotLyrics(song)))
            &&& is_stable_sort_of(song.lyrics, held)
            &&& song == song_of(song.lyrics, request)
        },
        FetchEventView::CacheLooked(request, None) => step == ask_provider(request),
        FetchEventView::Answered(_, Err(report)) => step == FetchStepView::Emit(
            Ok(MessageView::DisplayError(fetch_failure_text(report))),
        ),
        FetchEventView::Answered(request, Ok(answer)) => {
            &&& step matches FetchStepView::Store { folder: f, key, meta, song }
            &&& f == folder
            &&& key == track_identifier(request)
            &&& meta == meta_of(request, answer)
            &&& is_stable_sort_of(song.lyrics, collected_cues(answer.synced_lyrics, false))
            &&& song == song_of(song.lyrics, request)
        },
        FetchEventView::Stored(song) => step == FetchStepView::Emit(
            Ok(MessageView::GotLyrics(song)),
        ),
    }
}

/// Fetches lyrics, from the cache where it has them and from the lyrics provider
/// otherwise.
#[derive(Debug)]
pub struct LyricsFetcher {
    settings: Arc<Settings>,
}

impl LyricsFetcher {
    /// Whether the cache is asked before the provider.
    pub closed spec fn caching_enabled(&self) -> bool {
        self.settings.caching_enabled
    }

    /// The folder of the cache.
    pub closed spec fn cache_folder(&self) -> Seq<char> {
        self.settings.cache_folder@
    }

    /// A fetcher that goes by `settings`.
    pub fn new(settings: Arc<Settings>) -> (fetcher: LyricsFetcher)
        ensures
            fetcher.caching_enabled() == settings.caching_enabled,
            fetcher.cache_folder() == settings.cache_folder@,
    {
        LyricsFetcher { settings }
    }

    /// Takes a fetch of lyrics one step on: told what happened, it says what the
    /// caller is to do next, or how the fetch ended.
    pub fn get_lyrics(&self, event: FetchEvent) -> (step: FetchStep)
        ensures
            fetch_follows(self.caching_enabled(), self.cache_folder(), event@, step@),
    {
        match event {
            FetchEvent::Begin(request) => {
                if !request.is_dispatchable() {
                    FetchStep::Emit(Err(RuntimeError::GetFailed(LyricsFetcherErr::NoTrack())))
                } else if self.settings.caching_enabled {
                    FetchStep::LookInCache {
                        folder: self.settings.cache_folder.clone(),
                        key: request.get_track_identifier(),
                        request,
                    }
                } else {
                    FetchStep::AskProvider { url: request.lookup_url(), request }
                }
            },
            FetchEvent::CacheLooked(request, Ok(lines)) => FetchStep::Emit(
                Ok(MessageToUI::GotLyrics(SongWithLyrics::new(SongLyrics::new(lines), request))),
            ),
            FetchEvent::CacheLooked(request, Err(_)) => FetchStep::AskProvider {
                url: request.lookup_url(),
                request,
            },
            FetchEvent::Answered(_, Err(report)) => {
                let failure = LyricsFetcherErr::ReqwestError(report);
                FetchStep::Emit(
                    Ok(
                        MessageToUI::DisplayError(
                            joined("Failed to fetch lyrics: ", failure.message().as_str()),
                        ),
                    ),
                )
            },
            FetchEvent::Answered(request, Ok(answer)) => {
                let lyrics: SongLyrics = SongLyrics::parse(answer.synced_lyrics.as_str(), false);
                let meta = LrcCacheMeta {
                    spotify_id: match &request.spotify_id {
                        Some(id) => Some(id.clone()),
                        None => None,
                    },
                    lrc_id: answer.id,
                    track_name: answer.track_name,
                    artist_name: answer.artist_name,
                    album_name: answer.album_name,
                    instrumental: answer.instrumental,
                };
                FetchStep::Store {
                    folder: self.settings.cache_folder.clone(),
                    key: request.get_track_identifier(),
                    meta,
                    song: SongWithLyrics::new(lyrics, request),
                }
            },
            FetchEvent::Stored(song, _) => FetchStep::Emit(Ok(MessageToUI::GotLyrics(song))),
        }
    }
}

/// After an event a fetch goes on in one way and no other.
pub proof fn lemma_fetch_is_determined(
    caching_enabled: bool,
    folder: Seq<char>,
    event: FetchEventView,
    one: FetchStepView,
    other: FetchStepView,
)
    requires
        fetch_follows(caching_enabled, folder, event, one),
        fetch_follows(caching_enabled, folder, event, other),
    ensures
        one == other,
{
    match event {
        FetchEventView::CacheLooked(_, Some(held)) => {
            let a = one->Emit_0->Ok_0->GotLyrics_0;
            let b = other->Emit_0->Ok_0->GotLyrics_0;
            lemma_stable_sort_unique(a.lyrics, b.lyrics, held);
        },
        FetchEventView::Answered(_, Ok(answer)) => {
            let a = one->Store_song;
            let b = other->Store_song;
            lemma_stable_sort_unique(
                a.lyrics,
                b.lyrics,
                collected_cues(answer.synced_lyrics, false),
            );
        },
        _ => {},
    }
}

/// What is written to the cache for a request comes back the same: where the cache
/// holds for a key the timeline that was stored under it, a later fetch for the same
/// request looks under that key and hands on the very song that was stored.
pub proof fn lemma_cache_round_trip(
    folder: Seq<char>,
    request: RequestView,
    answer: AnswerView,
    stored: FetchStepView,
    asked: FetchStepView,
    found: FetchStepView,
)
    requires
        dispatchable(request),
        fetch_follows(true, folder, FetchEventView::Answered(request, Ok(answer)), stored),
        fetch_follows(true, folder, FetchEventView::Begin(request), asked),
        stored matches FetchStepView::Store { song, .. } && fetch_follows(
            true,
            folder,
            FetchEventView::CacheLooked(request, Some(song.lyrics)),
            found,
        ),
    ensures
        stored matches FetchStepView::Store { key: written, song, .. } && asked
            == (FetchStepView::LookInCache { folder, key: written, request }) && found
            == FetchStepView::Emit(Ok(MessageView::GotLyrics(song))),
{
    let song = stored->Store_song;
    let again = found->Emit_0->Ok_0->GotLyrics_0;
    lemma_stable_sort_unique(again.lyrics, song.lyrics, song.lyrics);
}

} // verus!
