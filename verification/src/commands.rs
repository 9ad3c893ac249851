//! Playback commands and the form fields a command is sent with.
//!
//! Times are held as the decimal text in which they are sent (a float is
//! turned into that text where the command is built from one).

use vstd::prelude::*;
use crate::models::copy_opt_string;
use crate::text::{decimal, decimal_int, format_i64, format_u64};

verus! {

/// Playback commands.
#[derive(Debug)]
pub enum PlaybackCommand {
    Play,
    Pause,
    Next,
    Previous,
    SkipAd,
    /// Set and play a video or playlist, replacing current content.
    ///
    /// At least one of video_id or list_id must have a value.
    SetPlaylist {
        /// ID of the video to play (can be empty if list_id is provided)
        video_id: String,
        current_index: Option<i32>,
        /// ID of the playlist to play (optional, but required if video_id is empty)
        list_id: Option<String>,
        /// Start position in seconds, as decimal text
        current_time: Option<String>,
        audio_only: Option<bool>,
        params: Option<String>,
        player_params: Option<String>,
    },
    /// Add a video to the queue without interrupting current playback.
    AddVideo { video_id: String, video_sources: Option<String> },
    /// Seek to a position in seconds, given as decimal text.
    SeekTo { new_time: String },
    SetAutoplayMode { autoplay_mode: String },
    SetVolume { volume: i32 },
    Mute,
    Unmute,
}

impl Clone for PlaybackCommand {
    fn clone(&self) -> (r: Self)
        ensures
            r == *self,
    {
        match self {
            PlaybackCommand::Play => PlaybackCommand::Play,
            PlaybackCommand::Pause => PlaybackCommand::Pause,
            PlaybackCommand::Next => PlaybackCommand::Next,
            PlaybackCommand::Previous => PlaybackCommand::Previous,
            PlaybackCommand::SkipAd => PlaybackCommand::SkipAd,
            PlaybackCommand::SetPlaylist {
                video_id,
                current_index,
                list_id,
                current_time,
                audio_only,
                params,
                player_params,
            } => PlaybackCommand::SetPlaylist {
                video_id: video_id.clone(),
                current_index: *current_index,
                list_id: copy_opt_string(list_id),
                current_time: copy_opt_string(current_time),
                audio_only: *audio_only,
                params: copy_opt_string(params),
                player_params: copy_opt_string(player_params),
            },
            PlaybackCommand::AddVideo { video_id, video_sources } => PlaybackCommand::AddVideo {
                video_id: video_id.clone(),
                video_sources: copy_opt_string(video_sources),
            },
            PlaybackCommand::SeekTo { new_time } => PlaybackCommand::SeekTo {
                new_time: new_time.clone(),
            },
            PlaybackCommand::SetAutoplayMode { autoplay_mode } => PlaybackCommand::SetAutoplayMode {
                autoplay_mode: autoplay_mode.clone(),
            },
            PlaybackCommand::SetVolume { volume } => PlaybackCommand::SetVolume { volume: *volume },
            PlaybackCommand::Mute => PlaybackCommand::Mute,
            PlaybackCommand::Unmute => PlaybackCommand::Unmute,
        }
    }
}

/// The name under which a command is sent.
pub open spec fn command_name(c: PlaybackCommand) -> Seq<char> {
    match c {
        PlaybackCommand::Play => "play"@,
        PlaybackCommand::Pause => "pause"@,
        PlaybackCommand::Next => "next"@,
        PlaybackCommand::Previous => "previous"@,
        PlaybackCommand::SkipAd => "skipAd"@,
        PlaybackCommand::SetPlaylist { .. } => "setPlaylist"@,
        PlaybackCommand::AddVideo { .. } => "addVideo"@,
        PlaybackCommand::SeekTo { .. } => "seekTo"@,
        PlaybackCommand::SetAutoplayMode { .. } => "setAutoplayMode"@,
        PlaybackCommand::SetVolume { .. } => "setVolume"@,
        PlaybackCommand::Mute => "mute"@,
        PlaybackCommand::Unmute => "unMute"@,
    }
}

/// Get the command name for a PlaybackCommand.
pub fn get_command_name(command: &PlaybackCommand) -> (r: String)
    ensures
        r@ == command_name(*command),
{
    match command {
        PlaybackCommand::Play => "play".to_string(),
        PlaybackCommand::Pause => "pause".to_string(),
        PlaybackCommand::Next => "next".to_string(),
        PlaybackCommand::Previous => "previous".to_string(),
        PlaybackCommand::SkipAd => "skipAd".to_string(),
        PlaybackCommand::SetPlaylist { .. } => "setPlaylist".to_string(),
        PlaybackCommand::AddVideo { .. } => "addVideo".to_string(),
        PlaybackCommand::SeekTo { .. } => "seekTo".to_string(),
        PlaybackCommand::SetAutoplayMode { .. } => "setAutoplayMode".to_string(),
        PlaybackCommand::SetVolume { .. } => "setVolume".to_string(),
        PlaybackCommand::Mute => "mute".to_string(),
        PlaybackCommand::Unmute => "unMute".to_string(),
    }
}

/// The start time every constructor below uses: zero seconds, as `0.0` is written.
pub open spec fn zero_time() -> Seq<char> {
    "0"@
}

/// A `SetPlaylist` command with the defaults the constructors below share.
pub open spec fn set_playlist_spec(
    video_id: Seq<char>,
    current_index: i32,
    list_id: Option<Seq<char>>,
    c: PlaybackCommand,
) -> bool {
    match c {
        PlaybackCommand::SetPlaylist {
            video_id: v,
            current_index: ci,
            list_id: l,
            current_time: t,
            audio_only: a,
            params: p,
            player_params: pp,
        } => {
            &&& v@ == video_id
            &&& ci == Some(current_index)
            &&& opt_view(l) == list_id
            &&& opt_view(t) == Some(zero_time())
            &&& a == Some(false)
            &&& p is None
            &&& pp is None
        },
        _ => false,
    }
}

impl PlaybackCommand {
    /// Plays a video by its id, replacing the current content.
    pub fn set_playlist(video_id: String) -> (r: Self)
        ensures
            set_playlist_spec(video_id@, -1i32, None, r),
    {
        PlaybackCommand::SetPlaylist {
            video_id,
            current_index: Some(-1),
            list_id: None,
            current_time: Some("0".to_string()),
            audio_only: Some(false),
            params: None,
            player_params: None,
        }
    }

    /// Plays a playlist by its id, from its first video.
    pub fn set_playlist_by_id(list_id: String) -> (r: Self)
        ensures
            set_playlist_spec(Seq::empty(), 0, Some(list_id@), r),
    {
        let video_id = String::new();
        PlaybackCommand::SetPlaylist {
            video_id,
            current_index: Some(0),
            list_id: Some(list_id),
            current_time: Some("0".to_string()),
            audio_only: Some(false),
            params: None,
            player_params: None,
        }
    }

    /// Plays the video at `index` of a playlist.
    pub fn set_playlist_with_index(list_id: String, index: i32) -> (r: Self)
        ensures
            set_playlist_spec(Seq::empty(), index, Some(list_id@), r),
    {
        let video_id = String::new();
        PlaybackCommand::SetPlaylist {
            video_id,
            current_index: Some(index),
            list_id: Some(list_id),
            current_time: Some("0".to_string()),
            audio_only: Some(false),
            params: None,
            player_params: None,
        }
    }

    /// Adds a video to the end of the queue.
    pub fn add_video(video_id: String) -> (r: Self)
        ensures
            r matches PlaybackCommand::AddVideo { video_id: v, video_sources: s } && v@ == video_id@
                && s is None,
    {
        PlaybackCommand::AddVideo { video_id, video_sources: None }
    }
}

// ---------------------------------------------------------------- form fields

/// A name/value pair of a request.
pub type Pair = (Seq<char>, Seq<char>);

/// The view of a list of pairs.
pub open spec fn pairs_view(v: Seq<(String, String)>) -> Seq<Pair> {
    v.map_values(|p: (String, String)| (p.0@, p.1@))
}

pub open spec fn bool_text(b: bool) -> Seq<char> {
    if b {
        "true"@
    } else {
        "false"@
    }
}

/// One optional field: present when the value is.
pub open spec fn opt_field(name: Seq<char>, v: Option<Seq<char>>) -> Seq<Pair> {
    match v {
        Some(x) => seq![(name, x)],
        None => Seq::empty(),
    }
}

pub open spec fn opt_view(o: Option<String>) -> Option<Seq<char>> {
    match o {
        Some(s) => Some(s@),
        None => None,
    }
}

/// The fields a command's own arguments add to its request.
pub open spec fn command_fields(c: PlaybackCommand) -> Seq<Pair> {
    match c {
        PlaybackCommand::SetPlaylist {
            video_id,
            current_index,
            list_id,
            current_time,
            audio_only,
            params,
            player_params,
        } => seq![("req0_videoId"@, video_id@)] + opt_field(
            "req0_currentIndex"@,
            match current_index {
                Some(i) => Some(decimal_int(i as int)),
                None => None,
            },
        ) + opt_field("req0_listId"@, opt_view(list_id)) + opt_field(
            "req0_currentTime"@,
            opt_view(current_time),
        ) + opt_field(
            "req0_audioOnly"@,
            match audio_only {
                Some(b) => Some(bool_text(b)),
                None => None,
            },
        ) + opt_field("req0_params"@, opt_view(params)) + opt_field(
            "req0_playerParams"@,
            opt_view(player_params),
        ) + seq![("req0_prioritizeMobileSenderPlaybackStateOnConnection"@, "true"@)],
        PlaybackCommand::AddVideo { video_id, video_sources } => seq![
            ("req0_videoId"@, video_id@),
        ] + opt_field("req0_videoSources"@, opt_view(video_sources)),
        PlaybackCommand::SeekTo { new_time } => seq![("req0_newTime"@, new_time@)],
        PlaybackCommand::SetVolume { volume } => seq![("req0_volume"@, decimal_int(volume as int))],
        PlaybackCommand::SetAutoplayMode { autoplay_mode } => seq![
            ("req0_autoplayMode"@, autoplay_mode@),
        ],
        _ => Seq::empty(),
    }
}

/// The form of a command request sent with offset `ofs`.
pub open spec fn command_form(c: PlaybackCommand, ofs: u32) -> Seq<Pair> {
    seq![("count"@, "1"@), ("ofs"@, decimal(ofs as nat)), ("req0__sc"@, command_name(c))]
        + command_fields(c)
}

/// Appends the pair `(name, value)`.
pub fn push_pair(v: &mut Vec<(String, String)>, name: &str, value: String)
    ensures
        pairs_view(final(v)@) == pairs_view(old(v)@).push((name@, value@)),
{
    let ghost before = v@;
    v.push((name.to_string(), value));
    assert(pairs_view(v@) =~= pairs_view(before).push((name@, value@)));
}

fn push_opt(v: &mut Vec<(String, String)>, name: &str, value: &Option<String>)
    ensures
        pairs_view(final(v)@) == pairs_view(old(v)@) + opt_field(name@, opt_view(*value)),
{
    match value {
        Some(x) => {
            push_pair(v, name, x.clone());
            assert(pairs_view(old(v)@).push((name@, x@)) =~= pairs_view(old(v)@) + seq![(name@, x@)]);
        },
        None => {
            assert(pairs_view(v@) =~= pairs_view(v@) + Seq::<Pair>::empty());
        },
    }
}

/// The text of a boolean (`bool::to_string`).
pub fn bool_to_string(b: bool) -> (r: String)
    ensures
        r@ == bool_text(b),
{
    if b {
        "true".to_string()
    } else {
        "false".to_string()
    }
}

/// Appends the fields of the command's own arguments.
pub fn push_command_fields(v: &mut Vec<(String, String)>, command: &PlaybackCommand)
    ensures
        pairs_view(final(v)@) == pairs_view(old(v)@) + command_fields(*command),
{
    let ghost start = pairs_view(v@);
    match command {
        PlaybackCommand::SetPlaylist {
            video_id,
            current_index,
            list_id,
            current_time,
            audio_only,
            params,
            player_params,
        } => {
            push_pair(v, "req0_videoId", video_id.clone());
            let idx = match current_index {
                Some(i) => Some(format_i64(*i as i64)),
                None => None,
            };
            push_opt(v, "req0_currentIndex", &idx);
            push_opt(v, "req0_listId", list_id);
            push_opt(v, "req0_currentTime", current_time);
            let audio = match audio_only {
                Some(b) => Some(bool_to_string(*b)),
                None => None,
            };
            push_opt(v, "req0_audioOnly", &audio);
            push_opt(v, "req0_params", params);
            push_opt(v, "req0_playerParams", player_params);
            push_pair(
                v,
                "req0_prioritizeMobileSenderPlaybackStateOnConnection",
                "true".to_string(),
            );
            assert(pairs_view(v@) =~= start + command_fields(*command));
        },
        PlaybackCommand::AddVideo { video_id, video_sources } => {
            push_pair(v, "req0_videoId", video_id.clone());
            push_opt(v, "req0_videoSources", video_sources);
            assert(pairs_view(v@) =~= start + command_fields(*command));
        },
        PlaybackCommand::SeekTo { new_time } => {
            push_pair(v, "req0_newTime", new_time.clone());
            assert(pairs_view(v@) =~= start + command_fields(*command));
        },
        PlaybackCommand::SetVolume { volume } => {
            push_pair(v, "req0_volume", format_i64(*volume as i64));
            assert(pairs_view(v@) =~= start + command_fields(*command));
        },
        PlaybackCommand::SetAutoplayMode { autoplay_mode } => {
            push_pair(v, "req0_autoplayMode", autoplay_mode.clone());
            assert(pairs_view(v@) =~= start + command_fields(*command));
        },
        _ => {
            assert(pairs_view(v@) =~= start + command_fields(*command));
        },
    }
}

/// The form fields of a command request sent with offset `ofs`.
pub fn command_form_fields(command: &PlaybackCommand, ofs: u32) -> (r: Vec<(String, String)>)
    ensures
        pairs_view(r@) == command_form(*command, ofs),
{
    let mut v: Vec<(String, String)> = Vec::new();
    push_pair(&mut v, "count", "1".to_string());
    push_pair(&mut v, "ofs", format_u64(ofs as u64));
    push_pair(&mut v, "req0__sc", get_command_name(command));
    push_command_fields(&mut v, command);
    assert(pairs_view(v@) =~= command_form(*command, ofs));
    v
}


// ---------------------------------------------------------------- laws

/// The query or form `q` carries `v` under `name`: some field has that name
/// and value, and every field of that name has that value.
pub open spec fn sends(q: Seq<Pair>, name: Seq<char>, v: Seq<char>) -> bool {
    &&& exists|i: int| 0 <= i < q.len() && #[trigger] q[i] == (name, v)
    &&& forall|i: int| 0 <= i < q.len() && (#[trigger] q[i]).0 == name ==> q[i].1 == v
}

/// A field that is the only one of its name is what the query carries under it.
pub proof fn lemma_sends_at(q: Seq<Pair>, name: Seq<char>, v: Seq<char>, k: int)
    requires
        0 <= k < q.len(),
        q[k] == (name, v),
        forall|i: int| 0 <= i < q.len() && i != k ==> (#[trigger] q[i]).0 != name,
    ensures
        sends(q, name, v),
{
    assert(q[k] == (name, v));
}

/// Each command is sent, third in its form and under `req0__sc`, with its
/// documented name: play, pause, next, previous, skipAd, setPlaylist,
/// addVideo, seekTo, setAutoplayMode, setVolume, mute, unMute.
pub proof fn lemma_command_sent_names(c: PlaybackCommand, ofs: u32)
    ensures
        command_form(c, ofs).len() >= 3,
        c is Play ==> command_form(c, ofs)[2] == ("req0__sc"@, "play"@),
        c is Pause ==> command_form(c, ofs)[2] == ("req0__sc"@, "pause"@),
        c is Next ==> command_form(c, ofs)[2] == ("req0__sc"@, "next"@),
        c is Previous ==> command_form(c, ofs)[2] == ("req0__sc"@, "previous"@),
        c is SkipAd ==> command_form(c, ofs)[2] == ("req0__sc"@, "skipAd"@),
        c is SetPlaylist ==> command_form(c, ofs)[2] == ("req0__sc"@, "setPlaylist"@),
        c is AddVideo ==> command_form(c, ofs)[2] == ("req0__sc"@, "addVideo"@),
        c is SeekTo ==> command_form(c, ofs)[2] == ("req0__sc"@, "seekTo"@),
        c is SetAutoplayMode ==> command_form(c, ofs)[2] == ("req0__sc"@, "setAutoplayMode"@),
        c is SetVolume ==> command_form(c, ofs)[2] == ("req0__sc"@, "setVolume"@),
        c is Mute ==> command_form(c, ofs)[2] == ("req0__sc"@, "mute"@),
        c is Unmute ==> command_form(c, ofs)[2] == ("req0__sc"@, "unMute"@),
{
}

/// Distinct kinds of command are sent under distinct names.
pub proof fn lemma_command_names_distinct(a: PlaybackCommand, b: PlaybackCommand)
    requires
        command_name(a) == command_name(b),
    ensures
        a is Play <==> b is Play,
        a is Pause <==> b is Pause,
        a is Next <==> b is Next,
        a is Previous <==> b is Previous,
        a is SkipAd <==> b is SkipAd,
        a is SetPlaylist <==> b is SetPlaylist,
        a is AddVideo <==> b is AddVideo,
        a is SeekTo <==> b is SeekTo,
        a is SetAutoplayMode <==> b is SetAutoplayMode,
        a is SetVolume <==> b is SetVolume,
        a is Mute <==> b is Mute,
        a is Unmute <==> b is Unmute,
{
    reveal_strlit("play");
    reveal_strlit("pause");
    reveal_strlit("next");
    reveal_strlit("previous");
    reveal_strlit("skipAd");
    reveal_strlit("setPlaylist");
    reveal_strlit("addVideo");
    reveal_strlit("seekTo");
    reveal_strlit("setAutoplayMode");
    reveal_strlit("setVolume");
    reveal_strlit("mute");
    reveal_strlit("unMute");
    let x = command_name(a);
    let y = command_name(b);
    assert(x.len() == y.len());
    assert(x[0] == y[0]);
    assert(x[1] == y[1]);
}

/// Every command form starts with `count=1`, then its offset in decimal, then
/// its name; argument-less commands send nothing more, and each argument is
/// sent under its own name.
pub proof fn lemma_command_form_fields(c: PlaybackCommand, ofs: u32)
    ensures
        command_form(c, ofs)[0] == ("count"@, "1"@),
        command_form(c, ofs)[1] == ("ofs"@, decimal(ofs as nat)),
        command_form(c, ofs)[2] == ("req0__sc"@, command_name(c)),
        (c is Play || c is Pause || c is Next || c is Previous || c is SkipAd || c is Mute
            || c is Unmute) ==> command_form(c, ofs).len() == 3,
        c matches PlaybackCommand::SetVolume { volume } ==> sends(
            command_form(c, ofs),
            "req0_volume"@,
            decimal_int(volume as int),
        ),
        c matches PlaybackCommand::SeekTo { new_time } ==> sends(
            command_form(c, ofs),
            "req0_newTime"@,
            new_time@,
        ),
        c matches PlaybackCommand::SetAutoplayMode { autoplay_mode } ==> sends(
            command_form(c, ofs),
            "req0_autoplayMode"@,
            autoplay_mode@,
        ),
        c matches PlaybackCommand::AddVideo { video_id, .. } ==> sends(
            command_form(c, ofs),
            "req0_videoId"@,
            video_id@,
        ),
        c matches PlaybackCommand::SetPlaylist { video_id, .. } ==> command_form(c, ofs)[3] == (
            "req0_videoId"@,
            video_id@,
        ) && command_form(c, ofs).last() == (
            "req0_prioritizeMobileSenderPlaybackStateOnConnection"@,
            "true"@,
        ),
{
    reveal_strlit("count");
    reveal_strlit("ofs");
    reveal_strlit("req0__sc");
    reveal_strlit("req0_volume");
    reveal_strlit("req0_newTime");
    reveal_strlit("req0_autoplayMode");
    reveal_strlit("req0_videoId");
    reveal_strlit("req0_videoSources");
    let q = command_form(c, ofs);
    match c {
        PlaybackCommand::SetVolume { volume } => {
            assert forall|i: int| 0 <= i < q.len() && i != 3 implies (#[trigger] q[i]).0
                != "req0_volume"@ by {
                assert(q[i].0.len() != "req0_volume"@.len());
            }
            lemma_sends_at(q, "req0_volume"@, decimal_int(volume as int), 3);
        },
        PlaybackCommand::SeekTo { new_time } => {
            assert forall|i: int| 0 <= i < q.len() && i != 3 implies (#[trigger] q[i]).0
                != "req0_newTime"@ by {
                assert(q[i].0.len() != "req0_newTime"@.len());
            }
            lemma_sends_at(q, "req0_newTime"@, new_time@, 3);
        },
        PlaybackCommand::SetAutoplayMode { autoplay_mode } => {
            assert forall|i: int| 0 <= i < q.len() && i != 3 implies (#[trigger] q[i]).0
                != "req0_autoplayMode"@ by {
                assert(q[i].0.len() != "req0_autoplayMode"@.len());
            }
            lemma_sends_at(q, "req0_autoplayMode"@, autoplay_mode@, 3);
        },
        PlaybackCommand::AddVideo { video_id, video_sources } => {
            assert forall|i: int| 0 <= i < q.len() && i != 3 implies (#[trigger] q[i]).0
                != "req0_videoId"@ by {
                assert(q[i].0.len() != "req0_videoId"@.len());
            }
            lemma_sends_at(q, "req0_videoId"@, video_id@, 3);
        },
        _ => {},
    }
}

} // verus!
