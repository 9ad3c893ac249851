//! A client library for the YouTube Lounge API, which controls playback on
//! TVs and other connected screens: pairing, binding a session, the framing
//! and processing of the event stream, and the playback commands.

pub mod codec;
pub mod commands;
pub mod error;
pub mod events;
pub mod form;
pub mod manager;
pub mod models;
pub mod protocol;
pub mod settings;
pub mod state;
pub mod text;
pub mod utils;

pub use codec::LoungeCodec;
pub use commands::PlaybackCommand;
pub use error::LoungeError;
pub use events::{LoungeEvent, PlaybackStatus};
pub use models::{
    AdState, AudioTrackChanged, AutoplayModeChanged, AutoplayUpNext, Device, DeviceInfo,
    HasPreviousNextChanged, LoungeStatus, NowPlaying, PlaybackState, PlaylistModeChanged,
    PlaylistModified, Screen, ScreenResponse, ScreensResponse, SubtitlesTrackChanged, VideoData,
    VideoQualityChanged, VolumeChanged,
};
pub use state::{ConnectionState, ConnectionStatus};
pub use utils::youtube_parse;
