use lyrics_overlay::lyrics_fetch::{LyricsRequestInfo, SongWithLyrics};
use lyrics_overlay::lyrics_parser::{LyricPosition, SongLyrics};
use lyrics_overlay::overlay::{current_index, line_style, LineStyle, Screen, UiState};
use lyrics_overlay::runtime::{MessageToRT, MessageToUI};
use lyrics_overlay::spotify::{Album, Artist, CurrentlyPlayingResponse, Track};

fn report(kind: &str, with_item: bool, progress_ms: usize) -> CurrentlyPlayingResponse {
    let item = if with_item {
        Track::new(
            "Title".to_string(),
            "id1".to_string(),
            61_500,
            vec![Artist::new("First".to_string())],
            Album::new("Album".to_string()),
        )
    } else {
        None
    };
    CurrentlyPlayingResponse::new(kind.to_string(), item, true, progress_ms)
}

fn song(content: &str) -> SongWithLyrics {
    SongWithLyrics::new(
        SongLyrics::parse(content, false),
        LyricsRequestInfo::new(None, 61_500, "Title".to_string(), "First".to_string(), "Album".to_string()),
    )
}

#[test]
fn at_first_the_display_asks_to_connect() {
    let state = UiState::new();
    assert_eq!(state.screen(), Screen::Authentication);
    assert_eq!(state.error(), None);
    assert_eq!(state.title(), None);
    assert!(state.song().is_none());
    assert_eq!(state.position(1_000), LyricPosition::BeforeStart);
}

#[test]
fn once_authenticated_it_asks_what_plays() {
    let mut state = UiState::new();
    let effect = state.on_message(MessageToUI::Authenticated);
    assert!(matches!(effect.request, Some(MessageToRT::GetCurrentTrack)));
    assert!(!effect.restart_clock);
    assert_eq!(state.screen(), Screen::Waiting);
}

#[test]
fn a_report_of_a_track_asks_for_its_lyrics() {
    let mut state = UiState::new();
    state.on_message(MessageToUI::Authenticated);
    let effect = state.on_message(MessageToUI::CurrentlyPlaying(report("track", true, 10)));
    assert!(effect.restart_clock);
    match effect.request {
        Some(MessageToRT::GetLyrics(request)) => {
            assert_eq!(request.get_track_identifier(), "Title-First.61.5")
        }
        other => panic!("{:?}", other),
    }
    assert_eq!(state.title(), Some("Title".to_string()));
    assert_eq!(state.screen(), Screen::Waiting);
    assert_eq!(state.error(), None);
}

#[test]
fn a_report_without_a_track_is_shown_as_a_failure() {
    let mut state = UiState::new();
    state.on_message(MessageToUI::Authenticated);
    let effect = state.on_message(MessageToUI::CurrentlyPlaying(report("track", false, 10)));
    assert!(effect.request.is_none());
    assert!(effect.restart_clock);
    assert_eq!(state.error(), Some("No track in current response for fetcher"));
    assert_eq!(state.title(), None);
}

#[test]
fn a_failure_is_kept_to_be_shown() {
    let mut state = UiState::new();
    let effect = state.on_message(MessageToUI::DisplayError("first".to_string()));
    assert!(effect.request.is_none());
    assert!(!effect.restart_clock);
    assert_eq!(state.error(), Some("first"));
    state.on_message(MessageToUI::DisplayError("second".to_string()));
    assert_eq!(state.error(), Some("second"));
    assert_eq!(state.screen(), Screen::Authentication);
}

#[test]
fn lyrics_are_shown_once_they_are_there() {
    let mut state = UiState::new();
    state.on_message(MessageToUI::Authenticated);
    state.on_message(MessageToUI::CurrentlyPlaying(report("track", true, 1_500)));
    let effect = state.on_message(MessageToUI::GotLyrics(song("[00:01.00]a\n[00:02.00]b\n[00:03.00]c")));
    assert!(effect.request.is_none());
    assert!(!effect.restart_clock);
    assert_eq!(state.screen(), Screen::Lyrics);
    assert_eq!(state.song().unwrap().lyrics.len(), 3);
    assert_eq!(state.position(0), LyricPosition::Line(0));
    assert_eq!(state.position(499), LyricPosition::Line(0));
    assert_eq!(state.position(500), LyricPosition::Line(1));
    assert_eq!(state.position(1_500), LyricPosition::AfterEnd);
    assert_eq!(state.position(u64::MAX), LyricPosition::AfterEnd);
}

#[test]
fn without_a_report_time_counts_from_the_start() {
    let mut state = UiState::new();
    state.on_message(MessageToUI::GotLyrics(song("[00:01.00]a\n[00:02.00]b")));
    assert_eq!(state.position(999), LyricPosition::BeforeStart);
    assert_eq!(state.position(1_000), LyricPosition::Line(0));
    assert_eq!(state.screen(), Screen::Authentication);
}

#[test]
fn nothing_playing_is_shown_as_such() {
    for message in [MessageToUI::NothingPlaying, MessageToUI::NotATrack] {
        let mut state = UiState::new();
        state.on_message(MessageToUI::Authenticated);
        state.on_message(MessageToUI::CurrentlyPlaying(report("track", true, 10)));
        let effect = state.on_message(message);
        assert!(effect.request.is_none());
        assert!(!effect.restart_clock);
        assert_eq!(state.screen(), Screen::NothingPlaying);
        assert_eq!(state.title(), None);
        assert_eq!(state.error(), None);
        state.on_message(MessageToUI::CurrentlyPlaying(report("track", true, 10)));
        assert_eq!(state.screen(), Screen::Waiting);
    }
}

#[test]
fn the_line_that_is_sung() {
    assert_eq!(current_index(&LyricPosition::BeforeStart), None);
    assert_eq!(current_index(&LyricPosition::AfterEnd), None);
    assert_eq!(current_index(&LyricPosition::Line(0)), Some(0));
    assert_eq!(current_index(&LyricPosition::Line(41)), Some(41));
}

#[test]
fn how_lines_are_set_off() {
    let s = |size, red, green, blue, alpha| LineStyle { size, red, green, blue, alpha };
    assert_eq!(line_style(Some(5), 5), s(26, 255, 255, 255, 255));
    assert_eq!(line_style(Some(5), 4), s(20, 200, 180, 255, 180));
    assert_eq!(line_style(Some(5), 6), s(20, 180, 210, 255, 180));
    assert_eq!(line_style(Some(5), 3), s(17, 200, 180, 255, 110));
    assert_eq!(line_style(Some(5), 7), s(17, 180, 210, 255, 110));
    assert_eq!(line_style(Some(5), 2), s(15, 200, 180, 255, 55));
    assert_eq!(line_style(Some(5), 8), s(15, 180, 210, 255, 55));
    assert_eq!(line_style(Some(5), 0), s(15, 200, 180, 255, 55));
    assert_eq!(line_style(Some(0), usize::MAX), s(15, 180, 210, 255, 55));
    assert_eq!(line_style(Some(usize::MAX), 0), s(15, 200, 180, 255, 55));
    assert_eq!(line_style(None, 0), s(15, 200, 200, 200, 55));
    assert_eq!(line_style(None, 99), s(15, 200, 200, 200, 55));
}
