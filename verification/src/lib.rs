//! Lyrics in time with the music: the core of an overlay that shows the lyrics of
//! the track that plays, line by line.
//!
//! The core reads time-stamped lyrics into a timeline and finds the line that is
//! sung at a given moment ([`lyrics_parser`], with what holds of every timeline in
//! [`lyrics_laws`]). It decides how to authenticate with the music provider
//! ([`auth`]), how to ask what plays ([`spotify`]), where to get lyrics from
//! ([`lyrics_fetch`]), how the coordinator answers the display ([`runtime`]) and
//! what the display shows ([`overlay`]).
//!
//! The core makes no request, opens no file and draws nothing. Wherever the outside
//! world is needed, it works as a machine: the caller tells it what happened, and it
//! says what to do next.

pub mod auth;
pub mod lyrics_fetch;
pub mod lyrics_laws;
pub mod lyrics_parser;
pub mod overlay;
pub mod runtime;
pub mod settings;
pub mod spotify;
pub mod text;
