//! Playback engine core: the play queue, the decode session, the output
//! endpoint's callback logic and the actor that ties them together.
//!
//! The library decides and computes; the program around it owns the
//! threads, the audio device and the files, and calls in with plain values.
//! Everything here is verified, against what `codec` states of the decoder
//! library that the session reads its audio with. The session plays WAV
//! files with uncompressed samples.
//!
//! - `queue`: the play queue and its cursor.
//! - `time`: spans of playback time and the clock of a track.
//! - `transport`: the playhead of a session.
//! - `codec`: the door to the decoder library.
//! - `screen`: the look at a file's bytes before they go there.
//! - `source`: the decode session.
//! - `speaker`: the output endpoint as its device callback sees it.
//! - `player`: the actor's decisions.
//! - `remote`: what the network layer computes.
//! - `song`: the library store's record of a song.

pub mod song;
pub mod queue;
pub mod time;
pub mod transport;
pub mod codec;
pub mod screen;
pub mod source;
pub mod speaker;
pub mod player;
pub mod remote;
