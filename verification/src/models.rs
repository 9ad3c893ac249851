//! The data the Lounge API exchanges: screens, devices, and the payloads of
//! the events a screen reports. Numbers and flags arrive as strings.

use vstd::prelude::*;
use crate::events::{status_of_state, PlaybackStatus};
use crate::text::{parse_i32_spec, split_on, trim};
use crate::utils::youtube_parse::{parse_bool, parse_bool_spec, parse_int, parse_int_spec, parse_list};

verus! {

/// A copy of an optional string.
pub fn copy_opt_string(o: &Option<String>) -> (r: Option<String>)
    ensures
        r == *o,
{
    match o {
        Some(s) => Some(s.clone()),
        None => None,
    }
}

/// A paired screen: its id, its lounge token and its name.
#[derive(Debug)]
pub struct Screen {
    pub name: Option<String>,
    pub screen_id: String,
    pub lounge_token: String,
}

impl Clone for Screen {
    fn clone(&self) -> (r: Self)
        ensures
            r == *self,
    {
        Screen {
            name: copy_opt_string(&self.name),
            screen_id: self.screen_id.clone(),
            lounge_token: self.lounge_token.clone(),
        }
    }
}

/// The answer to a pairing request.
#[derive(Debug)]
pub struct ScreenResponse {
    pub screen: Screen,
}

/// The answer to a token refresh request.
#[derive(Debug)]
pub struct ScreensResponse {
    pub screens: Vec<Screen>,
}

/// Details on a connected device.
#[derive(Debug)]
pub struct DeviceInfo {
    pub brand: String,
    pub model: String,
    pub device_type: String,
}

impl Clone for DeviceInfo {
    fn clone(&self) -> (r: Self)
        ensures
            r == *self,
    {
        DeviceInfo {
            brand: self.brand.clone(),
            model: self.model.clone(),
            device_type: self.device_type.clone(),
        }
    }
}

/// A device connected to the lounge.
#[derive(Debug)]
pub struct Device {
    pub app: String,
    pub name: String,
    pub id: String,
    pub device_type: String,
    pub device_info_raw: String,
    pub device_info: Option<DeviceInfo>,
}

impl Clone for Device {
    fn clone(&self) -> (r: Self)
        ensures
            r == *self,
    {
        Device {
            app: self.app.clone(),
            name: self.name.clone(),
            id: self.id.clone(),
            device_type: self.device_type.clone(),
            device_info_raw: self.device_info_raw.clone(),
            device_info: match &self.device_info {
                Some(i) => Some(i.clone()),
                None => None,
            },
        }
    }
}

/// Metadata of a video.
#[derive(Debug, Default)]
pub struct VideoData {
    pub video_id: String,
    pub author: String,
    pub title: String,
    pub is_playable: bool,
}

impl Clone for VideoData {
    fn clone(&self) -> (r: Self)
        ensures
            r == *self,
    {
        VideoData {
            video_id: self.video_id.clone(),
            author: self.author.clone(),
            title: self.title.clone(),
            is_playable: self.is_playable,
        }
    }
}

/// The payload of a state change.
#[derive(Debug)]
pub struct PlaybackState {
    pub current_time: String,
    pub state: String,
    pub duration: String,
    pub cpn: Option<String>,
    pub loaded_time: String,
}

impl Clone for PlaybackState {
    fn clone(&self) -> (r: Self)
        ensures
            r == *self,
    {
        PlaybackState {
            current_time: self.current_time.clone(),
            state: self.state.clone(),
            duration: self.duration.clone(),
            cpn: copy_opt_string(&self.cpn),
            loaded_time: self.loaded_time.clone(),
        }
    }
}

/// The state assumed when none is given: "-1", that is, stopped.
pub open spec fn default_state_spec() -> Seq<char> {
    "-1"@
}

/// The state assumed when none is given: "-1" (stopped).
pub fn default_state() -> (r: String)
    ensures
        r@ == default_state_spec(),
{
    "-1".to_string()
}

impl PlaybackState {
    /// Get the current playback status as enum.
    pub fn status(&self) -> (r: PlaybackStatus)
        ensures
            r == status_of_state(self.state@),
    {
        PlaybackStatus::from_state(self.state.as_str())
    }
}

/// The payload of a now-playing event.
#[derive(Debug)]
pub struct NowPlaying {
    pub video_id: String,
    pub current_time: String,
    pub state: String,
    pub video_data: Option<VideoData>,
    pub cpn: Option<String>,
    pub list_id: Option<String>,
    pub duration: String,
    pub loaded_time: String,
    pub seekable_start_time: String,
    pub seekable_end_time: String,
}

impl Clone for NowPlaying {
    fn clone(&self) -> (r: Self)
        ensures
            r == *self,
    {
        NowPlaying {
            video_id: self.video_id.clone(),
            current_time: self.current_time.clone(),
            state: self.state.clone(),
            video_data: match &self.video_data {
                Some(d) => Some(d.clone()),
                None => None,
            },
            cpn: copy_opt_string(&self.cpn),
            list_id: copy_opt_string(&self.list_id),
            duration: self.duration.clone(),
            loaded_time: self.loaded_time.clone(),
            seekable_start_time: self.seekable_start_time.clone(),
            seekable_end_time: self.seekable_end_time.clone(),
        }
    }
}

impl NowPlaying {
    /// Get the current playback status as enum.
    pub fn status(&self) -> (r: PlaybackStatus)
        ensures
            r == status_of_state(self.state@),
    {
        PlaybackStatus::from_state(self.state.as_str())
    }
}

/// The payload of an advertisement state change.
#[derive(Debug)]
pub struct AdState {
    pub ad_state: String,
    pub content_video_id: Option<String>,
    pub current_time: String,
    pub is_skip_enabled: String,
}

impl Clone for AdState {
    fn clone(&self) -> (r: Self)
        ensures
            r == *self,
    {
        AdState {
            ad_state: self.ad_state.clone(),
            content_video_id: copy_opt_string(&self.content_video_id),
            current_time: self.current_time.clone(),
            is_skip_enabled: self.is_skip_enabled.clone(),
        }
    }
}

#[derive(Debug)]
pub struct SubtitlesTrackChanged {
    pub video_id: String,
}

impl Clone for SubtitlesTrackChanged {
    fn clone(&self) -> (r: Self)
        ensures
            r == *self,
    {
        SubtitlesTrackChanged {
            video_id: self.video_id.clone(),
        }
    }
}

#[derive(Debug)]
pub struct AudioTrackChanged {
    pub audio_track_id: String,
    pub video_id: String,
}

impl Clone for AudioTrackChanged {
    fn clone(&self) -> (r: Self)
        ensures
            r == *self,
    {
        AudioTrackChanged {
            audio_track_id: self.audio_track_id.clone(),
            video_id: self.video_id.clone(),
        }
    }
}

#[derive(Debug)]
pub struct AutoplayModeChanged {
    pub autoplay_mode: String,
}

impl Clone for AutoplayModeChanged {
    fn clone(&self) -> (r: Self)
        ensures
            r == *self,
    {
        AutoplayModeChanged {
            autoplay_mode: self.autoplay_mode.clone(),
        }
    }
}

#[derive(Debug)]
pub struct HasPreviousNextChanged {
    pub has_next: String,
    pub has_previous: String,
}

impl Clone for HasPreviousNextChanged {
    fn clone(&self) -> (r: Self)
        ensures
            r == *self,
    {
        HasPreviousNextChanged {
            has_next: self.has_next.clone(),
            has_previous: self.has_previous.clone(),
        }
    }
}

#[derive(Debug)]
pub struct VideoQualityChanged {
    pub available_quality_levels: String,
    pub quality_level: String,
    pub video_id: String,
}

impl Clone for VideoQualityChanged {
    fn clone(&self) -> (r: Self)
        ensures
            r == *self,
    {
        VideoQualityChanged {
            available_quality_levels: self.available_quality_levels.clone(),
            quality_level: self.quality_level.clone(),
            video_id: self.video_id.clone(),
        }
    }
}

#[derive(Debug)]
pub struct VolumeChanged {
    pub muted: String,
    pub volume: String,
}

impl Clone for VolumeChanged {
    fn clone(&self) -> (r: Self)
        ensures
            r == *self,
    {
        VolumeChanged {
            muted: self.muted.clone(),
            volume: self.volume.clone(),
        }
    }
}

#[derive(Debug)]
pub struct PlaylistModified {
    pub current_index: Option<String>,
    pub first_video_id: String,
    pub list_id: String,
    pub video_id: String,
}

impl Clone for PlaylistModified {
    fn clone(&self) -> (r: Self)
        ensures
            r == *self,
    {
        PlaylistModified {
            current_index: copy_opt_string(&self.current_index),
            first_video_id: self.first_video_id.clone(),
            list_id: self.list_id.clone(),
            video_id: self.video_id.clone(),
        }
    }
}

#[derive(Debug)]
pub struct PlaylistModeChanged {
    pub loop_enabled: String,
    pub shuffle_enabled: String,
}

impl Clone for PlaylistModeChanged {
    fn clone(&self) -> (r: Self)
        ensures
            r == *self,
    {
        PlaylistModeChanged {
            loop_enabled: self.loop_enabled.clone(),
            shuffle_enabled: self.shuffle_enabled.clone(),
        }
    }
}

#[derive(Debug)]
pub struct AutoplayUpNext {
    pub video_id: String,
}

impl Clone for AutoplayUpNext {
    fn clone(&self) -> (r: Self)
        ensures
            r == *self,
    {
        AutoplayUpNext {
            video_id: self.video_id.clone(),
        }
    }
}

/// The payload of a lounge status event: the devices, as a JSON string, and the queue.
#[derive(Debug)]
pub struct LoungeStatus {
    pub devices: String,
    pub queue_id: Option<String>,
}

impl Clone for LoungeStatus {
    fn clone(&self) -> (r: Self)
        ensures
            r == *self,
    {
        LoungeStatus { devices: self.devices.clone(), queue_id: copy_opt_string(&self.queue_id) }
    }
}

impl HasPreviousNextChanged {
    pub fn has_next(&self) -> (r: bool)
        ensures
            r == parse_bool_spec(self.has_next@),
    {
        parse_bool(self.has_next.as_str())
    }

    pub fn has_previous(&self) -> (r: bool)
        ensures
            r == parse_bool_spec(self.has_previous@),
    {
        parse_bool(self.has_previous.as_str())
    }
}

impl VideoQualityChanged {
    /// The available qualities, one per comma-separated item.
    pub fn available_qualities(&self) -> (r: Vec<String>)
        ensures
            r@.len() == split_on(self.available_quality_levels@, ',').len(),
            forall|i: int|
                0 <= i < r@.len() ==> #[trigger] r@[i]@ == trim(
                    split_on(self.available_quality_levels@, ',')[i],
                ),
    {
        parse_list(self.available_quality_levels.as_str())
    }
}

impl VolumeChanged {
    pub fn is_muted(&self) -> (r: bool)
        ensures
            r == parse_bool_spec(self.muted@),
    {
        parse_bool(self.muted.as_str())
    }

    pub fn volume_level(&self) -> (r: i32)
        ensures
            r == parse_int_spec(self.volume@),
    {
        parse_int(self.volume.as_str())
    }
}

impl PlaylistModified {
    pub fn current_index_value(&self) -> (r: Option<i32>)
        ensures
            match self.current_index {
                Some(idx) => r == Some(parse_int_spec(idx@)),
                None => r is None,
            },
    {
        match &self.current_index {
            Some(idx) => Some(parse_int(idx.as_str())),
            None => None,
        }
    }
}

impl PlaylistModeChanged {
    pub fn is_loop_enabled(&self) -> (r: bool)
        ensures
            r == parse_bool_spec(self.loop_enabled@),
    {
        parse_bool(self.loop_enabled.as_str())
    }

    pub fn is_shuffle_enabled(&self) -> (r: bool)
        ensures
            r == parse_bool_spec(self.shuffle_enabled@),
    {
        parse_bool(self.shuffle_enabled.as_str())
    }
}

impl AdState {
    pub fn is_skippable(&self) -> (r: bool)
        ensures
            r == parse_bool_spec(self.is_skip_enabled@),
    {
        parse_bool(self.is_skip_enabled.as_str())
    }

    /// The content video's id, or the empty string when there is none.
    pub fn get_content_video_id(&self) -> (r: &str)
        ensures
            match self.content_video_id {
                Some(id) => r@ == id@,
                None => r@ == Seq::<char>::empty(),
            },
    {
        match &self.content_video_id {
            Some(id) => id.as_str(),
            None => {
                proof {
                    reveal_strlit("");
                }
                ""
            },
        }
    }
}

} // verus!
