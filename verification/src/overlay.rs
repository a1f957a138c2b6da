//! What the display knows and shows: how the coordinator's messages change it, which
//! screen is up, and how each line of the lyrics is set off against the one that is
//! sung. The drawing itself is the caller's part.

use crate::lyrics_fetch::{
    fetcher_error_message, FetcherErrView, LyricsRequestInfo, RequestView, SongView,
    SongWithLyrics,
};
use crate::lyrics_parser::{position_at, LyricPosition};
use crate::runtime::{IntentView, MessageToRT, MessageToUI, MessageView};
use crate::spotify::{track_kind, CurrentlyPlayingResponse, PlaybackView};
use crate::text::text_of;
use vstd::prelude::*;

verus! {

/// What the display knows, as a value of the model.
pub struct UiView {
    pub is_auth: bool,
    pub error: Option<Seq<char>>,
    pub playing: Option<PlaybackView>,
    pub song: Option<SongView>,
    pub nothing_playing: bool,
}

/// What the display knows.
#[derive(Debug)]
pub struct UiState {
    is_auth: bool,
    error_string: Option<String>,
    currently_playing: Option<CurrentlyPlayingResponse>,
    current_song_with_lyrics: Option<SongWithLyrics>,
    nothing_playing: bool,
}

/// The view of an optional playback report.
pub open spec fn playing_view(playing: Option<CurrentlyPlayingResponse>) -> Option<PlaybackView> {
    match playing {
        Some(p) => Some(p@),
        None => None,
    }
}

/// The view of an optional song.
pub open spec fn song_view(song: Option<SongWithLyrics>) -> Option<SongView> {
    match song {
        Some(s) => Some(s@),
        None => None,
    }
}

/// The view of an optional request to the coordinator.
pub open spec fn request_view(request: Option<MessageToRT>) -> Option<IntentView> {
    match request {
        Some(r) => Some(r@),
        None => None,
    }
}

impl View for UiState {
    type V = UiView;

    closed spec fn view(&self) -> UiView {
        UiView {
            is_auth: self.is_auth,
            error: text_of(self.error_string),
            playing: playing_view(self.currently_playing),
            song: song_view(self.current_song_with_lyrics),
            nothing_playing: self.nothing_playing,
        }
    }
}

/// What a message makes the display do beside changing what it knows.
#[derive(Debug)]
pub struct UiEffect {
    /// What to ask of the coordinator next, if anything.
    pub request: Option<MessageToRT>,
    /// Whether a report of playback came in, from which time is counted anew.
    pub restart_clock: bool,
}

/// The screens of the display.
#[derive(Debug, Clone, Copy, PartialEq, Eq, Structural)]
pub enum Screen {
    /// The invitation to connect to the music provider.
    Authentication,
    /// The note that nothing plays, or no track.
    NothingPlaying,
    /// The lyrics of the song.
    Lyrics,
    /// The title of the track while its lyrics are awaited.
    Waiting,
}

/// Whether a playback report holds a track whose lyrics can be asked for.
pub open spec fn reports_track(playing: PlaybackView) -> bool {
    playing.kind == track_kind() && playing.item is Some
}

/// The request for the lyrics of the track that `playing` reports.
pub open spec fn lyrics_request(playing: PlaybackView) -> RequestView
    recommends
        reports_track(playing),
{
    let track = playing.item.unwrap();
    RequestView {
        spotify_id: Some(track.id),
        duration_ms: track.duration_ms,
        track_name: track.name,
        artist_name: track.artists[0],
        album_name: track.album,
    }
}

/// What the display knows after a message, and what it asks of the coordinator.
///
/// Once authenticated it asks what plays. A report of a track is kept and its
/// lyrics are asked for; a report without a track is kept and shown as a failure.
/// Lyrics are kept, a failure is kept to be shown, and the news that nothing plays
/// takes the report away.
pub open spec fn after_message(state: UiView, message: MessageView) -> (UiView, Option<IntentView>) {
    match message {
        MessageView::Authenticated => (
            UiView { is_auth: true, ..state },
            Some(IntentView::GetCurrentTrack),
        ),
        MessageView::CurrentlyPlaying(playing) => if reports_track(playing) {
            (
                UiView { playing: Some(playing), nothing_playing: false, ..state },
                Some(IntentView::GetLyrics(lyrics_request(playing))),
            )
        } else {
            (
                UiView {
                    playing: Some(playing),
                    nothing_playing: false,
                    error: Some(fetcher_error_message(FetcherErrView::NoTrack)),
                    ..state
                },
                None,
            )
        },
        MessageView::DisplayError(text) => (UiView { error: Some(text), ..state }, None),
        MessageView::GotLyrics(song) => (UiView { song: Some(song), ..state }, None),
        MessageView::NothingPlaying => (
            UiView { playing: None, nothing_playing: true, ..state },
            None,
        ),
        MessageView::NotATrack => (UiView { playing: None, nothing_playing: true, ..state }, None),
    }
}

/// The screen that is up.
pub open spec fn screen_of(state: UiView) -> Screen {
    if !state.is_auth {
        Screen::Authentication
    } else if state.nothing_playing {
        Screen::NothingPlaying
    } else if state.song is Some {
        Screen::Lyrics
    } else {
        Screen::Waiting
    }
}

/// How far into the track playback was at the last report; 0 without a report.
pub open spec fn last_progress(state: UiView) -> nat {
    match state.playing {
        Some(p) => p.progress_ms,
        None => 0,
    }
}

impl UiState {
    /// What a display knows before anything happened.
    pub fn new() -> (state: UiState)
        ensures
            state@ == (UiView {
                is_auth: false,
                error: None,
                playing: None,
                song: None,
                nothing_playing: false,
            }),
    {
        UiState {
            is_auth: false,
            error_string: None,
            currently_playing: None,
            current_song_with_lyrics: None,
            nothing_playing: false,
        }
    }

    /// Takes in one message of the coordinator.
    pub fn on_message(&mut self, message: MessageToUI) -> (effect: UiEffect)
        ensures
            (final(self)@, request_view(effect.request)) == after_message(old(self)@, message@),
            effect.restart_clock == message@ is CurrentlyPlaying,
    {
        match message {
            MessageToUI::Authenticated => {
                self.is_auth = true;
                UiEffect { request: Some(MessageToRT::GetCurrentTrack), restart_clock: false }
            },
            MessageToUI::CurrentlyPlaying(playing) => {
                let request: Option<MessageToRT> = match LyricsRequestInfo::from_spotify_response(
                    &playing,
                ) {
                    Ok(request) => Some(MessageToRT::GetLyrics(request)),
                    Err(e) => {
                        self.error_string = Some(e.message());
                        None
                    },
                };
                self.currently_playing = Some(playing);
                self.nothing_playing = false;
                UiEffect { request, restart_clock: true }
            },
            MessageToUI::DisplayError(text) => {
                self.error_string = Some(text);
                UiEffect { request: None, restart_clock: false }
            },
            MessageToUI::GotLyrics(song) => {
                self.current_song_with_lyrics = Some(song);
                UiEffect { request: None, restart_clock: false }
            },
            MessageToUI::NothingPlaying => {
                self.currently_playing = None;
                self.nothing_playing = true;
                UiEffect { request: None, restart_clock: false }
            },
            MessageToUI::NotATrack => {
                self.currently_playing = None;
                self.nothing_playing = true;
                UiEffect { request: None, restart_clock: false }
            },
        }
    }

    /// The screen that is up.
    pub fn screen(&self) -> (screen: Screen)
        ensures
            screen == screen_of(self@),
    {
        if !self.is_auth {
            Screen::Authentication
        } else if self.nothing_playing {
            Screen::NothingPlaying
        } else if self.current_song_with_lyrics.is_some() {
            Screen::Lyrics
        } else {
            Screen::Waiting
        }
    }

    /// The failure to show, if there is one.
    pub fn error(&self) -> (text: Option<&str>)
        ensures
            text is Some == self@.error is Some,
            text matches Some(t) ==> t@ == self@.error.unwrap(),
    {
        match &self.error_string {
            Some(text) => Some(text.as_str()),
            None => None,
        }
    }

    /// The title of the track that plays, if one is known.
    pub fn title(&self) -> (title: Option<String>)
        ensures
            title is Some == (self@.playing is Some && self@.playing.unwrap().item is Some),
            title matches Some(t) ==> t@ == self@.playing.unwrap().item.unwrap().name,
    {
        match &self.currently_playing {
            Some(playing) => playing.get_track_title(),
            None => None,
        }
    }

    /// The song whose lyrics are shown, if there is one.
    pub fn song(&self) -> (song: Option<&SongWithLyrics>)
        ensures
            song is Some == self@.song is Some,
            song matches Some(s) ==> s@ == self@.song.unwrap(),
    {
        self.current_song_with_lyrics.as_ref()
    }

    /// The position in the lyrics `since_poll_ms` milliseconds after the last report
    /// of playback: playback is taken to have run on since. Before any lyrics have
    /// come it is before the start.
    pub fn position(&self, since_poll_ms: u64) -> (position: LyricPosition)
        ensures
            position == match self@.song {
                Some(song) => position_at(
                    song.lyrics,
                    (last_progress(self@) + since_poll_ms) as nat,
                ),
                None => LyricPosition::BeforeStart,
            },
    {
        let progress_ms: u64 = match &self.currently_playing {
            Some(playing) => playing.progress() as u64,
            None => 0,
        };
        match &self.current_song_with_lyrics {
            Some(song) => song.lyrics().position_after(progress_ms, since_poll_ms),
            None => LyricPosition::BeforeStart,
        }
    }
}

/// How a line is drawn.
#[derive(Debug, Clone, Copy, PartialEq, Eq, Structural)]
pub struct LineStyle {
    /// The size of the letters, in points.
    pub size: u8,
    pub red: u8,
    pub green: u8,
    pub blue: u8,
    /// How opaque the line is, 255 being fully so.
    pub alpha: u8,
}

/// The index of the line that is sung, if one is.
pub open spec fn current_line(position: LyricPosition) -> Option<usize> {
    match position {
        LyricPosition::Line(n) => Some(n),
        _ => None,
    }
}

/// How far the line `index` is from the one that is sung; 99 where none is sung.
pub open spec fn distance(current: Option<usize>, index: usize) -> nat {
    match current {
        Some(c) => if index >= c {
            (index - c) as nat
        } else {
            (c - index) as nat
        },
        None => 99,
    }
}

/// How the line `index` is drawn while `current` is sung. The line that is sung is
/// large, white and opaque; its neighbours are smaller and fainter, the further the
/// more; lines that were sung lean to purple, lines to come to blue. Where no line is
/// sung, all are small, faint and grey.
pub open spec fn style_of(current: Option<usize>, index: usize) -> LineStyle {
    let d = distance(current, index);
    let (size, alpha) = if d == 0 {
        (26u8, 255u8)
    } else if d == 1 {
        (20u8, 180u8)
    } else if d == 2 {
        (17u8, 110u8)
    } else {
        (15u8, 55u8)
    };
    let (red, green, blue) = match current {
        None => (200u8, 200u8, 200u8),
        Some(c) => if index < c {
            (200u8, 180u8, 255u8)
        } else if index == c {
            (255u8, 255u8, 255u8)
        } else {
            (180u8, 210u8, 255u8)
        },
    };
    LineStyle { size, red, green, blue, alpha }
}

/// The index of the line that is sung at `position`, if one is.
pub fn current_index(position: &LyricPosition) -> (current: Option<usize>)
    ensures
        current == current_line(*position),
{
    match position {
        LyricPosition::Line(n) => Some(*n),
        _ => None,
    }
}

/// How the line `index` is drawn while `current` is sung.
pub fn line_style(current: Option<usize>, index: usize) -> (style: LineStyle)
    ensures
        style == style_of(current, index),
{
    let d: usize = match current {
        Some(c) => if index >= c {
            index - c
        } else {
            c - index
        },
        None => 99,
    };
    let (size, alpha): (u8, u8) = if d == 0 {
        (26, 255)
    } else if d == 1 {
        (20, 180)
    } else if d == 2 {
        (17, 110)
    } else {
        (15, 55)
    };
    let (red, green, blue): (u8, u8, u8) = match current {
        None => (200, 200, 200),
        Some(c) => if index < c {
            (200, 180, 255)
        } else if index == c {
            (255, 255, 255)
        } else {
            (180, 210, 255)
        },
    };
    LineStyle { size, red, green, blue, alpha }
}

} // verus!
