//! Playback status codes, the events the library reports, and the
//! processing of the event batches a screen sends.

use vstd::prelude::*;
use vstd::std_specs::convert::FromSpecImpl;
use crate::models::{
    AdState, AudioTrackChanged, AutoplayModeChanged, AutoplayUpNext, Device, DeviceInfo,
    HasPreviousNextChanged, LoungeStatus, NowPlaying, PlaybackState, PlaylistModified,
    SubtitlesTrackChanged, VideoQualityChanged, VolumeChanged,
};
use crate::text::{is_blank, parse_i32, parse_i32_spec, same_chars, trim};

verus! {

/// Represents the playback status codes from YouTube.
#[derive(Debug, Clone, Copy, PartialEq, Eq, Structural)]
pub enum PlaybackStatus {
    Stopped,
    Buffering,
    Playing,
    Paused,
    Starting,
    Advertisement,
    Unknown,
}

/// The status that a state string denotes: the integer it parses to, if any.
pub open spec fn status_of_state(state: Seq<char>) -> PlaybackStatus {
    match parse_i32_spec(state) {
        Some(v) => if v == -1 {
            PlaybackStatus::Stopped
        } else if v == 0 {
            PlaybackStatus::Buffering
        } else if v == 1 {
            PlaybackStatus::Playing
        } else if v == 2 {
            PlaybackStatus::Paused
        } else if v == 3 {
            PlaybackStatus::Starting
        } else if v == 1081 {
            PlaybackStatus::Advertisement
        } else {
            PlaybackStatus::Unknown
        },
        None => PlaybackStatus::Unknown,
    }
}

/// The name under which a status is displayed.
pub open spec fn status_label(s: PlaybackStatus) -> Seq<char> {
    match s {
        PlaybackStatus::Stopped => "Stopped"@,
        PlaybackStatus::Buffering => "Buffering"@,
        PlaybackStatus::Playing => "Playing"@,
        PlaybackStatus::Paused => "Paused"@,
        PlaybackStatus::Starting => "Starting"@,
        PlaybackStatus::Advertisement => "Advertisement"@,
        PlaybackStatus::Unknown => "Unknown"@,
    }
}

impl PlaybackStatus {
    /// The status a state string denotes.
    pub fn from_state(state: &str) -> (r: PlaybackStatus)
        ensures
            r == status_of_state(state@),
    {
        match parse_i32(state) {
            Some(v) => {
                if v == -1 {
                    PlaybackStatus::Stopped
                } else if v == 0 {
                    PlaybackStatus::Buffering
                } else if v == 1 {
                    PlaybackStatus::Playing
                } else if v == 2 {
                    PlaybackStatus::Paused
                } else if v == 3 {
                    PlaybackStatus::Starting
                } else if v == 1081 {
                    PlaybackStatus::Advertisement
                } else {
                    PlaybackStatus::Unknown
                }
            },
            None => PlaybackStatus::Unknown,
        }
    }

    /// The status's display name.
    pub fn label(&self) -> (r: String)
        ensures
            r@ == status_label(*self),
    {
        match self {
            PlaybackStatus::Stopped => "Stopped".to_string(),
            PlaybackStatus::Buffering => "Buffering".to_string(),
            PlaybackStatus::Playing => "Playing".to_string(),
            PlaybackStatus::Paused => "Paused".to_string(),
            PlaybackStatus::Starting => "Starting".to_string(),
            PlaybackStatus::Advertisement => "Advertisement".to_string(),
            PlaybackStatus::Unknown => "Unknown".to_string(),
        }
    }
}

impl<'a> From<&'a str> for PlaybackStatus {
    fn from(state: &'a str) -> (r: PlaybackStatus) {
        PlaybackStatus::from_state(state)
    }
}

impl<'a> FromSpecImpl<&'a str> for PlaybackStatus {
    open spec fn obeys_from_spec() -> bool {
        true
    }

    open spec fn from_spec(state: &'a str) -> PlaybackStatus {
        status_of_state(state@)
    }
}

// ---------------------------------------------------------------- events

/// What a screen reports, as the library hands it on.
#[derive(Debug)]
pub enum LoungeEvent {
    StateChange(PlaybackState),
    NowPlaying(NowPlaying),
    /// A playback session is due, to be made from this now-playing record
    /// and this state (matched by their CPN, or derived from the record).
    PlaybackSession(NowPlaying, PlaybackState),
    LoungeStatus(Vec<Device>, Option<String>),
    ScreenDisconnected,
    SessionEstablished,
    AdStateChange(AdState),
    SubtitlesTrackChanged(SubtitlesTrackChanged),
    AudioTrackChanged(AudioTrackChanged),
    AutoplayModeChanged(AutoplayModeChanged),
    HasPreviousNextChanged(HasPreviousNextChanged),
    VideoQualityChanged(VideoQualityChanged),
    VolumeChanged(VolumeChanged),
    PlaylistModified(PlaylistModified),
    AutoplayUpNext(AutoplayUpNext),
    Unknown(String),
}

/// The kinds of event a screen sends, by name.
#[derive(Debug, Clone, Copy, PartialEq, Eq, Structural)]
pub enum EventKind {
    StateChange,
    NowPlaying,
    LoungeStatus,
    ScreenDisconnected,
    AdStateChange,
    SubtitlesTrackChanged,
    AudioTrackChanged,
    AutoplayModeChanged,
    HasPreviousNextChanged,
    VideoQualityChanged,
    VolumeChanged,
    PlaylistModified,
    AutoplayUpNext,
    Unknown,
}

/// The kind of event an event name denotes.
pub open spec fn kind_of_name(name: Seq<char>) -> EventKind {
    if name == "onStateChange"@ {
        EventKind::StateChange
    } else if name == "nowPlaying"@ {
        EventKind::NowPlaying
    } else if name == "loungeStatus"@ {
        EventKind::LoungeStatus
    } else if name == "loungeScreenDisconnected"@ {
        EventKind::ScreenDisconnected
    } else if name == "onAdStateChange"@ {
        EventKind::AdStateChange
    } else if name == "onSubtitlesTrackChanged"@ {
        EventKind::SubtitlesTrackChanged
    } else if name == "onAudioTrackChanged"@ {
        EventKind::AudioTrackChanged
    } else if name == "onAutoplayModeChanged"@ {
        EventKind::AutoplayModeChanged
    } else if name == "onHasPreviousNextChanged"@ {
        EventKind::HasPreviousNextChanged
    } else if name == "onVideoQualityChanged"@ {
        EventKind::VideoQualityChanged
    } else if name == "onVolumeChanged"@ {
        EventKind::VolumeChanged
    } else if name == "playlistModified"@ {
        EventKind::PlaylistModified
    } else if name == "autoplayUpNext"@ {
        EventKind::AutoplayUpNext
    } else {
        EventKind::Unknown
    }
}

/// The kind of event an event name denotes (it decides what its payload is decoded as).
pub fn event_kind(name: &str) -> (r: EventKind)
    ensures
        r == kind_of_name(name@),
{
    if same_chars(name, "onStateChange") {
        EventKind::StateChange
    } else if same_chars(name, "nowPlaying") {
        EventKind::NowPlaying
    } else if same_chars(name, "loungeStatus") {
        EventKind::LoungeStatus
    } else if same_chars(name, "loungeScreenDisconnected") {
        EventKind::ScreenDisconnected
    } else if same_chars(name, "onAdStateChange") {
        EventKind::AdStateChange
    } else if same_chars(name, "onSubtitlesTrackChanged") {
        EventKind::SubtitlesTrackChanged
    } else if same_chars(name, "onAudioTrackChanged") {
        EventKind::AudioTrackChanged
    } else if same_chars(name, "onAutoplayModeChanged") {
        EventKind::AutoplayModeChanged
    } else if same_chars(name, "onHasPreviousNextChanged") {
        EventKind::HasPreviousNextChanged
    } else if same_chars(name, "onVideoQualityChanged") {
        EventKind::VideoQualityChanged
    } else if same_chars(name, "onVolumeChanged") {
        EventKind::VolumeChanged
    } else if same_chars(name, "playlistModified") {
        EventKind::PlaylistModified
    } else if same_chars(name, "autoplayUpNext") {
        EventKind::AutoplayUpNext
    } else {
        EventKind::Unknown
    }
}

/// A device of a lounge status, with its `deviceInfo` string decoded when it decodes.
#[derive(Debug)]
pub struct DecodedDevice {
    pub device: Device,
    pub info: Option<DeviceInfo>,
}

/// The payload of an event, decoded as its kind requires; `Absent` where
/// it did not decode or the kind takes none.
#[derive(Debug)]
pub enum Payload {
    Absent,
    StateChange(PlaybackState),
    NowPlaying(NowPlaying),
    /// The status, and its devices string decoded (`None` where it does not decode).
    LoungeStatus(LoungeStatus, Option<Vec<DecodedDevice>>),
    AdStateChange(AdState),
    SubtitlesTrackChanged(SubtitlesTrackChanged),
    AudioTrackChanged(AudioTrackChanged),
    AutoplayModeChanged(AutoplayModeChanged),
    HasPreviousNextChanged(HasPreviousNextChanged),
    VideoQualityChanged(VideoQualityChanged),
    VolumeChanged(VolumeChanged),
    PlaylistModified(PlaylistModified),
    AutoplayUpNext(AutoplayUpNext),
}

/// The inner array of an event entry: `[name, payload, ...]`.
#[derive(Debug)]
pub struct RawBody {
    /// How many elements the array has.
    pub len: usize,
    /// Its first element, when that is a string.
    pub name: Option<String>,
    /// Its second element as JSON text (empty when there is none).
    pub payload_text: String,
    /// Its second element, decoded.
    pub payload: Payload,
}

/// One entry of an event batch: `[id, [name, payload]]`.
#[derive(Debug)]
pub struct RawEvent {
    /// How many elements the entry has.
    pub len: usize,
    /// Its first element, when that is an integer.
    pub id: Option<i64>,
    /// Its second element, when that is an array.
    pub body: Option<RawBody>,
}

/// What the event processing remembers between batches.
#[derive(Debug)]
pub struct EventState {
    /// The last now-playing record that carried a CPN.
    pub latest_now_playing: Option<NowPlaying>,
    /// The id of the last event seen (sent back as `AID`).
    pub aid: u32,
}

impl EventState {
    pub fn new() -> (r: Self)
        ensures
            r.latest_now_playing is None,
            r.aid == 0,
    {
        EventState { latest_now_playing: None, aid: 0 }
    }
}

/// What an entry makes the library emit, as a specification.
pub enum Emitted {
    /// Exactly this event.
    Exact(LoungeEvent),
    /// A lounge status with these devices and this queue.
    Status(Seq<Device>, Option<String>),
    /// The session of a stopped video, made from its last record.
    StopSession(NowPlaying),
    /// An event of an unknown kind, described by this text.
    UnknownText(Seq<char>),
}

/// The state a stopped video is reported with: time 0, state -1, and the
/// duration and CPN of its last record.
pub open spec fn is_stop_state(s: PlaybackState, prev: NowPlaying) -> bool {
    &&& s.current_time@ == "0"@
    &&& s.state@ == "-1"@
    &&& s.duration == prev.duration
    &&& s.cpn == prev.cpn
    &&& s.loaded_time@ == "0"@
}

/// Whether an emitted event is what the specification describes.
pub open spec fn emitted_matches(e: LoungeEvent, spec: Emitted) -> bool {
    match spec {
        Emitted::Exact(x) => e == x,
        Emitted::Status(devices, queue) => e matches LoungeEvent::LoungeStatus(v, q) && v@
            == devices && q == queue,
        Emitted::StopSession(prev) => e matches LoungeEvent::PlaybackSession(np, st) && np == prev
            && is_stop_state(st, prev),
        Emitted::UnknownText(t) => e matches LoungeEvent::Unknown(m) && m@ == t,
    }
}

/// The state a now-playing record carries itself.
pub open spec fn state_of_record(np: NowPlaying) -> PlaybackState {
    PlaybackState {
        current_time: np.current_time,
        state: np.state,
        duration: np.duration,
        cpn: np.cpn,
        loaded_time: np.loaded_time,
    }
}

/// A device of a lounge status: its decoded info attached when its info
/// string is not blank and decoded.
pub open spec fn settled_device(d: DecodedDevice) -> Device {
    if trim(d.device.device_info_raw@).len() > 0 && d.info is Some {
        Device { device_info: d.info, ..d.device }
    } else {
        d.device
    }
}

/// The effect of a decoded payload of a known kind: the new latest record and what is emitted.
pub open spec fn payload_effect(kind: EventKind, payload: Payload, latest: Option<NowPlaying>) -> (Option<NowPlaying>, Seq<Emitted>) {
    match (kind, payload) {
        (EventKind::StateChange, Payload::StateChange(st)) => {
            let ev = seq![Emitted::Exact(LoungeEvent::StateChange(st))];
            match latest {
                Some(np) => if st.cpn is Some && np.cpn is Some && st.cpn->0@ == np.cpn->0@ {
                    (latest, ev.push(Emitted::Exact(LoungeEvent::PlaybackSession(np, st))))
                } else {
                    (latest, ev)
                },
                None => (latest, ev),
            }
        },
        (EventKind::NowPlaying, Payload::NowPlaying(np)) => {
            let ev = seq![Emitted::Exact(LoungeEvent::NowPlaying(np))];
            let latest2 = if np.cpn is Some { Some(np) } else { latest };
            if np.state@ == "-1"@ && np.video_id@.len() == 0 {
                match latest2 {
                    Some(prev) => (latest2, ev.push(Emitted::StopSession(prev))),
                    None => (latest2, ev),
                }
            } else if np.video_id@.len() > 0 && np.duration@.len() > 0 && np.current_time@.len() > 0 {
                (latest2, ev.push(Emitted::Exact(LoungeEvent::PlaybackSession(np, state_of_record(np)))))
            } else {
                (latest2, ev)
            }
        },
        (EventKind::LoungeStatus, Payload::LoungeStatus(status, devices)) => match devices {
            Some(ds) => (latest, seq![Emitted::Status(ds@.map_values(|d: DecodedDevice| settled_device(d)), status.queue_id)]),
            None => (latest, Seq::empty()),
        },
        (EventKind::AdStateChange, Payload::AdStateChange(x)) => (latest, seq![Emitted::Exact(LoungeEvent::AdStateChange(x))]),
        (EventKind::SubtitlesTrackChanged, Payload::SubtitlesTrackChanged(x)) => (latest, seq![Emitted::Exact(LoungeEvent::SubtitlesTrackChanged(x))]),
        (EventKind::AudioTrackChanged, Payload::AudioTrackChanged(x)) => (latest, seq![Emitted::Exact(LoungeEvent::AudioTrackChanged(x))]),
        (EventKind::AutoplayModeChanged, Payload::AutoplayModeChanged(x)) => (latest, seq![Emitted::Exact(LoungeEvent::AutoplayModeChanged(x))]),
        (EventKind::HasPreviousNextChanged, Payload::HasPreviousNextChanged(x)) => (latest, seq![Emitted::Exact(LoungeEvent::HasPreviousNextChanged(x))]),
        (EventKind::VideoQualityChanged, Payload::VideoQualityChanged(x)) => (latest, seq![Emitted::Exact(LoungeEvent::VideoQualityChanged(x))]),
        (EventKind::VolumeChanged, Payload::VolumeChanged(x)) => (latest, seq![Emitted::Exact(LoungeEvent::VolumeChanged(x))]),
        (EventKind::PlaylistModified, Payload::PlaylistModified(x)) => (latest, seq![Emitted::Exact(LoungeEvent::PlaylistModified(x))]),
        (EventKind::AutoplayUpNext, Payload::AutoplayUpNext(x)) => (latest, seq![Emitted::Exact(LoungeEvent::AutoplayUpNext(x))]),
        _ => (latest, Seq::empty()),
    }
}

/// The effect of one entry: the new latest record, the new event id, and what is emitted.
pub open spec fn entry_effect(latest: Option<NowPlaying>, aid: u32, ev: RawEvent) -> (Option<NowPlaying>, u32, Seq<Emitted>) {
    if ev.len < 2 {
        (latest, aid, Seq::empty())
    } else {
        let aid2 = match ev.id {
            Some(i) => i as u32,
            None => aid,
        };
        match ev.body {
            Some(b) => if b.len < 2 {
                (latest, aid2, Seq::empty())
            } else {
                match b.name {
                    Some(name) => {
                        let kind = kind_of_name(name@);
                        if kind == EventKind::ScreenDisconnected {
                            (latest, aid2, seq![Emitted::Exact(LoungeEvent::ScreenDisconnected)])
                        } else if kind == EventKind::Unknown {
                            (latest, aid2, seq![Emitted::UnknownText(name@ + " - payload: "@ + b.payload_text@)])
                        } else {
                            let (l2, out) = payload_effect(kind, b.payload, latest);
                            (l2, aid2, out)
                        }
                    },
                    None => (latest, aid2, Seq::empty()),
                }
            },
            None => (latest, aid2, Seq::empty()),
        }
    }
}

/// The effect of a batch of entries, processed in order.
pub open spec fn batch_effect(latest: Option<NowPlaying>, aid: u32, evs: Seq<RawEvent>) -> (Option<NowPlaying>, u32, Seq<Emitted>)
    decreases evs.len(),
{
    if evs.len() == 0 {
        (latest, aid, Seq::empty())
    } else {
        let (l1, a1, o1) = batch_effect(latest, aid, evs.drop_last());
        let (l2, a2, o2) = entry_effect(l1, a1, evs.last());
        (l2, a2, o1 + o2)
    }
}

/// The emitted events `out` are what `spec` describes, one for one.
pub open spec fn all_match(out: Seq<LoungeEvent>, spec: Seq<Emitted>) -> bool {
    out.len() == spec.len() && forall|i: int| 0 <= i < out.len() ==> #[trigger] emitted_matches(out[i], spec[i])
}

/// Whether a chunk holds nothing but whitespace (such a chunk is skipped).
pub fn chunk_is_blank(chunk: &str) -> (r: bool)
    ensures
        r == (trim(chunk@).len() == 0),
{
    is_blank(chunk)
}

fn copy_opt_np(o: &Option<NowPlaying>) -> (r: Option<NowPlaying>)
    ensures
        r == *o,
{
    match o {
        Some(np) => Some(np.clone()),
        None => None,
    }
}

fn settle_devices(ds: &Vec<DecodedDevice>) -> (r: Vec<Device>)
    ensures
        r@ == ds@.map_values(|d: DecodedDevice| settled_device(d)),
{
    let mut r: Vec<Device> = Vec::new();
    let mut i: usize = 0;
    while i < ds.len()
        invariant
            i <= ds@.len(),
            r@ == ds@.subrange(0, i as int).map_values(|d: DecodedDevice| settled_device(d)),
        decreases ds@.len() - i,
    {
        let d = &ds[i];
        let mut dev = d.device.clone();
        if !is_blank(d.device.device_info_raw.as_str()) {
            match &d.info {
                Some(info) => {
                    dev.device_info = Some(info.clone());
                },
                None => {},
            }
        }
        assert(dev == settled_device(ds@[i as int]));
        r.push(dev);
        assert(ds@.subrange(0, i + 1) =~= ds@.subrange(0, i as int).push(ds@[i as int]));
        assert(r@ =~= ds@.subrange(0, i + 1).map_values(|d: DecodedDevice| settled_device(d)));
        i += 1;
    }
    assert(ds@.subrange(0, i as int) =~= ds@);
    r
}

fn emit(out: &mut Vec<LoungeEvent>, e: LoungeEvent, Ghost(spec): Ghost<Seq<Emitted>>, Ghost(x): Ghost<Emitted>)
    requires
        all_match(old(out)@, spec),
        emitted_matches(e, x),
    ensures
        all_match(final(out)@, spec.push(x)),
{
    out.push(e);
    assert forall|i: int| 0 <= i < out@.len() implies #[trigger] emitted_matches(out@[i], spec.push(x)[i]) by {
        if i < spec.len() {
            assert(out@[i] == old(out)@[i]);
        }
    }
}

/// Processes one decoded payload of a known kind.
fn process_payload(
    state: &mut EventState,
    kind: EventKind,
    payload: &Payload,
    out: &mut Vec<LoungeEvent>,
    Ghost(before): Ghost<Seq<Emitted>>,
)
    requires
        all_match(old(out)@, before),
        kind != EventKind::ScreenDisconnected,
        kind != EventKind::Unknown,
    ensures
        final(state).aid == old(state).aid,
        final(state).latest_now_playing == payload_effect(kind, *payload, old(state).latest_now_playing).0,
        all_match(final(out)@, before + payload_effect(kind, *payload, old(state).latest_now_playing).1),
{
    let ghost latest = state.latest_now_playing;
    let ghost eff = payload_effect(kind, *payload, latest);
    match (kind, payload) {
        (EventKind::StateChange, Payload::StateChange(st)) => {
            let ghost e0 = Emitted::Exact(LoungeEvent::StateChange(*st));
            emit(out, LoungeEvent::StateChange(st.clone()), Ghost(before), Ghost(e0));
            let mut matched = false;
            match &state.latest_now_playing {
                Some(np) => {
                    match (&st.cpn, &np.cpn) {
                        (Some(c1), Some(c2)) => {
                            if same_chars(c1.as_str(), c2.as_str()) {
                                let ghost e1 = Emitted::Exact(LoungeEvent::PlaybackSession(*np, *st));
                                emit(out, LoungeEvent::PlaybackSession(np.clone(), st.clone()), Ghost(before.push(e0)), Ghost(e1));
                                assert(before.push(e0).push(e1) =~= before + eff.1);
                                matched = true;
                            }
                        },
                        _ => {},
                    }
                },
                None => {},
            }
            if !matched {
                assert(before.push(e0) =~= before + eff.1);
            }
        },
        (EventKind::NowPlaying, Payload::NowPlaying(np)) => {
            let ghost e0 = Emitted::Exact(LoungeEvent::NowPlaying(*np));
            emit(out, LoungeEvent::NowPlaying(np.clone()), Ghost(before), Ghost(e0));
            if np.cpn.is_some() {
                state.latest_now_playing = Some(np.clone());
            }
            let ghost b1 = before.push(e0);
            if same_chars(np.state.as_str(), "-1") && np.video_id.as_str().unicode_len() == 0 {
                match copy_opt_np(&state.latest_now_playing) {
                    Some(prev) => {
                        let st = PlaybackState {
                            current_time: "0".to_string(),
                            state: "-1".to_string(),
                            duration: prev.duration.clone(),
                            cpn: crate::models::copy_opt_string(&prev.cpn),
                            loaded_time: "0".to_string(),
                        };
                        let ghost e1 = Emitted::StopSession(prev);
                        emit(out, LoungeEvent::PlaybackSession(prev, st), Ghost(b1), Ghost(e1));
                        assert(b1.push(e1) =~= before + eff.1);
                    },
                    None => {
                        assert(b1 =~= before + eff.1);
                    },
                }
            } else if np.video_id.as_str().unicode_len() > 0 && np.duration.as_str().unicode_len() > 0
                && np.current_time.as_str().unicode_len() > 0 {
                let st = PlaybackState {
                    current_time: np.current_time.clone(),
                    state: np.state.clone(),
                    duration: np.duration.clone(),
                    cpn: crate::models::copy_opt_string(&np.cpn),
                    loaded_time: np.loaded_time.clone(),
                };
                let ghost e1 = Emitted::Exact(LoungeEvent::PlaybackSession(*np, state_of_record(*np)));
                emit(out, LoungeEvent::PlaybackSession(np.clone(), st), Ghost(b1), Ghost(e1));
                assert(b1.push(e1) =~= before + eff.1);
            } else {
                assert(b1 =~= before + eff.1);
            }
        },
        (EventKind::LoungeStatus, Payload::LoungeStatus(status, devices)) => {
            match devices {
                Some(ds) => {
                    let settled = settle_devices(ds);
                    let ghost e0 = Emitted::Status(ds@.map_values(|d: DecodedDevice| settled_device(d)), status.queue_id);
                    emit(out, LoungeEvent::LoungeStatus(settled, crate::models::copy_opt_string(&status.queue_id)), Ghost(before), Ghost(e0));
                    assert(before.push(e0) =~= before + eff.1);
                },
                None => {
                    assert(before =~= before + eff.1);
                },
            }
        },
        (EventKind::AdStateChange, Payload::AdStateChange(x)) => {
            let ghost e0 = Emitted::Exact(LoungeEvent::AdStateChange(*x));
            emit(out, LoungeEvent::AdStateChange(x.clone()), Ghost(before), Ghost(e0));
            assert(before.push(e0) =~= before + eff.1);
        },
        (EventKind::SubtitlesTrackChanged, Payload::SubtitlesTrackChanged(x)) => {
            let ghost e0 = Emitted::Exact(LoungeEvent::SubtitlesTrackChanged(*x));
            emit(out, LoungeEvent::SubtitlesTrackChanged(x.clone()), Ghost(before), Ghost(e0));
            assert(before.push(e0) =~= before + eff.1);
        },
        (EventKind::AudioTrackChanged, Payload::AudioTrackChanged(x)) => {
            let ghost e0 = Emitted::Exact(LoungeEvent::AudioTrackChanged(*x));
            emit(out, LoungeEvent::AudioTrackChanged(x.clone()), Ghost(before), Ghost(e0));
            assert(before.push(e0) =~= before + eff.1);
        },
        (EventKind::AutoplayModeChanged, Payload::AutoplayModeChanged(x)) => {
            let ghost e0 = Emitted::Exact(LoungeEvent::AutoplayModeChanged(*x));
            emit(out, LoungeEvent::AutoplayModeChanged(x.clone()), Ghost(before), Ghost(e0));
            assert(before.push(e0) =~= before + eff.1);
        },
        (EventKind::HasPreviousNextChanged, Payload::HasPreviousNextChanged(x)) => {
            let ghost e0 = Emitted::Exact(LoungeEvent::HasPreviousNextChanged(*x));
            emit(out, LoungeEvent::HasPreviousNextChanged(x.clone()), Ghost(before), Ghost(e0));
            assert(before.push(e0) =~= before + eff.1);
        },
        (EventKind::VideoQualityChanged, Payload::VideoQualityChanged(x)) => {
            let ghost e0 = Emitted::Exact(LoungeEvent::VideoQualityChanged(*x));
            emit(out, LoungeEvent::VideoQualityChanged(x.clone()), Ghost(before), Ghost(e0));
            assert(before.push(e0) =~= before + eff.1);
        },
        (EventKind::VolumeChanged, Payload::VolumeChanged(x)) => {
            let ghost e0 = Emitted::Exact(LoungeEvent::VolumeChanged(*x));
            emit(out, LoungeEvent::VolumeChanged(x.clone()), Ghost(before), Ghost(e0));
            assert(before.push(e0) =~= before + eff.1);
        },
        (EventKind::PlaylistModified, Payload::PlaylistModified(x)) => {
            let ghost e0 = Emitted::Exact(LoungeEvent::PlaylistModified(*x));
            emit(out, LoungeEvent::PlaylistModified(x.clone()), Ghost(before), Ghost(e0));
            assert(before.push(e0) =~= before + eff.1);
        },
        (EventKind::AutoplayUpNext, Payload::AutoplayUpNext(x)) => {
            let ghost e0 = Emitted::Exact(LoungeEvent::AutoplayUpNext(*x));
            emit(out, LoungeEvent::AutoplayUpNext(x.clone()), Ghost(before), Ghost(e0));
            assert(before.push(e0) =~= before + eff.1);
        },
        _ => {
            assert(before =~= before + eff.1);
        },
    }
}

/// Processes one entry of a batch.
fn process_entry(state: &mut EventState, ev: &RawEvent, out: &mut Vec<LoungeEvent>, Ghost(before): Ghost<Seq<Emitted>>)
    requires
        all_match(old(out)@, before),
    ensures
        final(state).latest_now_playing == entry_effect(old(state).latest_now_playing, old(state).aid, *ev).0,
        final(state).aid == entry_effect(old(state).latest_now_playing, old(state).aid, *ev).1,
        all_match(final(out)@, before + entry_effect(old(state).latest_now_playing, old(state).aid, *ev).2),
{
    let ghost eff = entry_effect(state.latest_now_playing, state.aid, *ev);
    if ev.len < 2 {
        assert(before =~= before + eff.2);
        return;
    }
    match ev.id {
        Some(i) => {
            state.aid = i as u32;
        },
        None => {},
    }
    match &ev.body {
        Some(b) => {
            if b.len < 2 {
                assert(before =~= before + eff.2);
                return;
            }
            match &b.name {
                Some(name) => {
                    let kind = event_kind(name.as_str());
                    match kind {
                        EventKind::ScreenDisconnected => {
                            let ghost e0 = Emitted::Exact(LoungeEvent::ScreenDisconnected);
                            emit(out, LoungeEvent::ScreenDisconnected, Ghost(before), Ghost(e0));
                            assert(before.push(e0) =~= before + eff.2);
                        },
                        EventKind::Unknown => {
                            let mut text = name.clone();
                            text.append(" - payload: ");
                            text.append(b.payload_text.as_str());
                            let ghost e0 = Emitted::UnknownText(name@ + " - payload: "@ + b.payload_text@);
                            emit(out, LoungeEvent::Unknown(text), Ghost(before), Ghost(e0));
                            assert(before.push(e0) =~= before + eff.2);
                        },
                        _ => {
                            process_payload(state, kind, &b.payload, out, Ghost(before));
                        },
                    }
                },
                None => {
                    assert(before =~= before + eff.2);
                },
            }
        },
        None => {
            assert(before =~= before + eff.2);
        },
    }
}

/// Processes a decoded batch of events in order: updates the remembered
/// record and event id, and returns what is to be reported.
pub fn process_events(state: &mut EventState, events: &Vec<RawEvent>) -> (out: Vec<LoungeEvent>)
    ensures
        final(state).latest_now_playing == batch_effect(old(state).latest_now_playing, old(state).aid, events@).0,
        final(state).aid == batch_effect(old(state).latest_now_playing, old(state).aid, events@).1,
        all_match(out@, batch_effect(old(state).latest_now_playing, old(state).aid, events@).2),
{
    let mut out: Vec<LoungeEvent> = Vec::new();
    let ghost l0 = state.latest_now_playing;
    let ghost a0 = state.aid;
    let mut i: usize = 0;
    while i < events.len()
        invariant
            i <= events@.len(),
            state.latest_now_playing == batch_effect(l0, a0, events@.subrange(0, i as int)).0,
            state.aid == batch_effect(l0, a0, events@.subrange(0, i as int)).1,
            all_match(out@, batch_effect(l0, a0, events@.subrange(0, i as int)).2),
        decreases events@.len() - i,
    {
        let ghost pre = events@.subrange(0, i as int);
        let ghost so_far = batch_effect(l0, a0, pre).2;
        process_entry(state, &events[i], &mut out, Ghost(so_far));
        assert(events@.subrange(0, i + 1).drop_last() =~= pre);
        i += 1;
    }
    assert(events@.subrange(0, i as int) =~= events@);
    out
}

// ---------------------------------------------------------------- laws

/// A state change is always reported; a playback session is also due exactly
/// when the last now-playing record carries the same CPN as the state.
pub proof fn lemma_state_change_reported(latest: Option<NowPlaying>, aid: u32, ev: RawEvent, st: PlaybackState)
    requires
        ev.len >= 2,
        ev.body is Some,
        ev.body->0.len >= 2,
        ev.body->0.name is Some,
        kind_of_name(ev.body->0.name->0@) == EventKind::StateChange,
        ev.body->0.payload == Payload::StateChange(st),
    ensures
        entry_effect(latest, aid, ev).0 == latest,
        entry_effect(latest, aid, ev).2.len() >= 1,
        entry_effect(latest, aid, ev).2[0] == Emitted::Exact(LoungeEvent::StateChange(st)),
        entry_effect(latest, aid, ev).2.len() == 2 <==> (latest matches Some(np) && st.cpn is Some
            && np.cpn is Some && st.cpn->0@ == np.cpn->0@),
        entry_effect(latest, aid, ev).2.len() == 2 ==> entry_effect(latest, aid, ev).2[1]
            == Emitted::Exact(LoungeEvent::PlaybackSession(latest->0, st)),
{
}

/// A now-playing record with a CPN becomes the remembered record; one without
/// leaves the remembered record as it was.
pub proof fn lemma_now_playing_remembered(latest: Option<NowPlaying>, aid: u32, ev: RawEvent, np: NowPlaying)
    requires
        ev.len >= 2,
        ev.body is Some,
        ev.body->0.len >= 2,
        ev.body->0.name is Some,
        kind_of_name(ev.body->0.name->0@) == EventKind::NowPlaying,
        ev.body->0.payload == Payload::NowPlaying(np),
    ensures
        np.cpn is Some ==> entry_effect(latest, aid, ev).0 == Some(np),
        np.cpn is None ==> entry_effect(latest, aid, ev).0 == latest,
        entry_effect(latest, aid, ev).2[0] == Emitted::Exact(LoungeEvent::NowPlaying(np)),
{
}

/// Entries too short to carry an event (such as the keep-alive `[n, ["noop"]]`)
/// report nothing and leave the remembered record alone.
pub proof fn lemma_short_entries_ignored(latest: Option<NowPlaying>, aid: u32, ev: RawEvent)
    requires
        ev.len < 2 || (ev.body matches Some(b) && b.len < 2),
    ensures
        entry_effect(latest, aid, ev).0 == latest,
        entry_effect(latest, aid, ev).2.len() == 0,
{
}

/// After a batch whose last entry carries an id, that id is the one remembered.
pub proof fn lemma_last_id_remembered(latest: Option<NowPlaying>, aid: u32, evs: Seq<RawEvent>, i: i64)
    requires
        evs.len() > 0,
        evs.last().len >= 2,
        evs.last().id == Some(i),
    ensures
        batch_effect(latest, aid, evs).1 == i as u32,
{
}

/// Processing a batch in two parts, the second from where the first left
/// off, gives what processing it whole gives.
pub proof fn lemma_batch_split(latest: Option<NowPlaying>, aid: u32, a: Seq<RawEvent>, b: Seq<RawEvent>)
    ensures
        ({
            let (l1, a1, o1) = batch_effect(latest, aid, a);
            let (l2, a2, o2) = batch_effect(l1, a1, b);
            batch_effect(latest, aid, a + b) == (l2, a2, o1 + o2)
        }),
    decreases b.len(),
{
    if b.len() == 0 {
        assert(a + b =~= a);
        let o1 = batch_effect(latest, aid, a).2;
        assert(o1 + Seq::<Emitted>::empty() =~= o1);
    } else {
        lemma_batch_split(latest, aid, a, b.drop_last());
        assert((a + b).drop_last() =~= a + b.drop_last());
        assert((a + b).last() == b.last());
        let (l1, a1, o1) = batch_effect(latest, aid, a);
        let (lm, am, om) = batch_effect(l1, a1, b.drop_last());
        let (l2, a2, o2) = entry_effect(lm, am, b.last());
        assert(o1 + om + o2 =~= o1 + (om + o2));
    }
}


/// A now-playing record with a video id, a duration and a current time is
/// reported, then paired into a playback session of that record whose state
/// is made of the record's own fields, unchanged.
pub proof fn lemma_now_playing_session(latest: Option<NowPlaying>, aid: u32, ev: RawEvent, np: NowPlaying)
    requires
        ev.len >= 2,
        ev.body is Some,
        ev.body->0.len >= 2,
        ev.body->0.name is Some,
        kind_of_name(ev.body->0.name->0@) == EventKind::NowPlaying,
        ev.body->0.payload == Payload::NowPlaying(np),
        np.video_id@.len() > 0,
        np.duration@.len() > 0,
        np.current_time@.len() > 0,
    ensures
        entry_effect(latest, aid, ev).2.len() == 2,
        entry_effect(latest, aid, ev).2[0] == Emitted::Exact(LoungeEvent::NowPlaying(np)),
        entry_effect(latest, aid, ev).2[1] matches Emitted::Exact(LoungeEvent::PlaybackSession(rec, st))
            && rec == np
            && st.current_time == np.current_time
            && st.state == np.state
            && st.duration == np.duration
            && st.cpn == np.cpn
            && st.loaded_time == np.loaded_time,
{
}

/// A stop record (state "-1", no video id) is paired with the remembered
/// record (itself when it carries a CPN): the session reports time "0",
/// state "-1", loaded time "0", and the remembered duration and CPN.
pub proof fn lemma_stop_session(latest: Option<NowPlaying>, aid: u32, ev: RawEvent, np: NowPlaying, e: LoungeEvent)
    requires
        ev.len >= 2,
        ev.body is Some,
        ev.body->0.len >= 2,
        ev.body->0.name is Some,
        kind_of_name(ev.body->0.name->0@) == EventKind::NowPlaying,
        ev.body->0.payload == Payload::NowPlaying(np),
        np.state@ == "-1"@,
        np.video_id@.len() == 0,
        np.cpn is Some || latest is Some,
        entry_effect(latest, aid, ev).2.len() == 2,
        emitted_matches(e, entry_effect(latest, aid, ev).2[1]),
    ensures
        ({
            let prev = if np.cpn is Some { np } else { latest->0 };
            e matches LoungeEvent::PlaybackSession(rec, st)
                && rec == prev
                && st.current_time@ == "0"@
                && st.state@ == "-1"@
                && st.loaded_time@ == "0"@
                && st.duration == prev.duration
                && st.cpn == prev.cpn
        }),
{
}

/// With no record remembered, a stop record without a CPN is only reported.
pub proof fn lemma_stop_without_record(aid: u32, ev: RawEvent, np: NowPlaying)
    requires
        ev.len >= 2,
        ev.body is Some,
        ev.body->0.len >= 2,
        ev.body->0.name is Some,
        kind_of_name(ev.body->0.name->0@) == EventKind::NowPlaying,
        ev.body->0.payload == Payload::NowPlaying(np),
        np.state@ == "-1"@,
        np.video_id@.len() == 0,
        np.cpn is None,
    ensures
        entry_effect(None, aid, ev).2 == seq![Emitted::Exact(LoungeEvent::NowPlaying(np))],
{
}

/// A lounge status whose device list decoded is reported once, with its queue
/// id and every device in order: each device's own fields unchanged, and its
/// decoded info attached exactly when its info string is not blank and
/// decoded. A status whose device list did not decode reports nothing.
pub proof fn lemma_lounge_status_devices(
    latest: Option<NowPlaying>,
    aid: u32,
    ev: RawEvent,
    status: LoungeStatus,
    decoded: Option<Vec<DecodedDevice>>,
)
    requires
        ev.len >= 2,
        ev.body is Some,
        ev.body->0.len >= 2,
        ev.body->0.name is Some,
        kind_of_name(ev.body->0.name->0@) == EventKind::LoungeStatus,
        ev.body->0.payload == Payload::LoungeStatus(status, decoded),
    ensures
        entry_effect(latest, aid, ev).0 == latest,
        decoded is None ==> entry_effect(latest, aid, ev).2.len() == 0,
        decoded matches Some(ds) ==> {
            &&& entry_effect(latest, aid, ev).2.len() == 1
            &&& entry_effect(latest, aid, ev).2[0] matches Emitted::Status(v, q) && q
                == status.queue_id && v.len() == ds@.len() && forall|i: int|
                0 <= i < v.len() ==> {
                    let d = #[trigger] ds@[i];
                    &&& v[i].app == d.device.app
                    &&& v[i].name == d.device.name
                    &&& v[i].id == d.device.id
                    &&& v[i].device_type == d.device.device_type
                    &&& v[i].device_info_raw == d.device.device_info_raw
                    &&& v[i].device_info == if trim(d.device.device_info_raw@).len() > 0
                        && d.info is Some {
                        d.info
                    } else {
                        d.device.device_info
                    }
                }
        },
{
}

/// An event of an unknown name is reported as `<name> - payload: <payload>`,
/// and a screen-disconnected event as such; neither touches the remembered record.
pub proof fn lemma_unknown_and_disconnect_events(latest: Option<NowPlaying>, aid: u32, ev: RawEvent)
    requires
        ev.len >= 2,
        ev.body is Some,
        ev.body->0.len >= 2,
        ev.body->0.name is Some,
    ensures
        kind_of_name(ev.body->0.name->0@) == EventKind::Unknown ==> entry_effect(latest, aid, ev).0
            == latest && entry_effect(latest, aid, ev).2 == seq![
            Emitted::UnknownText(ev.body->0.name->0@ + " - payload: "@ + ev.body->0.payload_text@),
        ],
        ev.body->0.name->0@ == "loungeScreenDisconnected"@ ==> entry_effect(latest, aid, ev).0
            == latest && entry_effect(latest, aid, ev).2 == seq![
            Emitted::Exact(LoungeEvent::ScreenDisconnected),
        ],
{
    reveal_strlit("onStateChange");
    reveal_strlit("nowPlaying");
    reveal_strlit("loungeStatus");
    reveal_strlit("loungeScreenDisconnected");
    if ev.body->0.name->0@ == "loungeScreenDisconnected"@ {
        assert("loungeScreenDisconnected"@.len() != "onStateChange"@.len());
        assert("loungeScreenDisconnected"@.len() != "nowPlaying"@.len());
        assert("loungeScreenDisconnected"@.len() != "loungeStatus"@.len());
        assert(kind_of_name(ev.body->0.name->0@) == EventKind::ScreenDisconnected);
    }
}

/// Each event name of the API denotes its own kind, and every other name is
/// of an unknown kind.
pub proof fn lemma_event_kinds(name: Seq<char>)
    ensures
        kind_of_name(name) == EventKind::StateChange <==> name == "onStateChange"@,
        kind_of_name(name) == EventKind::NowPlaying <==> name == "nowPlaying"@,
        kind_of_name(name) == EventKind::LoungeStatus <==> name == "loungeStatus"@,
        kind_of_name(name) == EventKind::ScreenDisconnected <==> name == "loungeScreenDisconnected"@,
        kind_of_name(name) == EventKind::AdStateChange <==> name == "onAdStateChange"@,
        kind_of_name(name) == EventKind::SubtitlesTrackChanged <==> name == "onSubtitlesTrackChanged"@,
        kind_of_name(name) == EventKind::AudioTrackChanged <==> name == "onAudioTrackChanged"@,
        kind_of_name(name) == EventKind::AutoplayModeChanged <==> name == "onAutoplayModeChanged"@,
        kind_of_name(name) == EventKind::HasPreviousNextChanged <==> name == "onHasPreviousNextChanged"@,
        kind_of_name(name) == EventKind::VideoQualityChanged <==> name == "onVideoQualityChanged"@,
        kind_of_name(name) == EventKind::VolumeChanged <==> name == "onVolumeChanged"@,
        kind_of_name(name) == EventKind::PlaylistModified <==> name == "playlistModified"@,
        kind_of_name(name) == EventKind::AutoplayUpNext <==> name == "autoplayUpNext"@,
{
    reveal_strlit("onStateChange");
    reveal_strlit("nowPlaying");
    reveal_strlit("loungeStatus");
    reveal_strlit("loungeScreenDisconnected");
    reveal_strlit("onAdStateChange");
    reveal_strlit("onSubtitlesTrackChanged");
    reveal_strlit("onAudioTrackChanged");
    reveal_strlit("onAutoplayModeChanged");
    reveal_strlit("onHasPreviousNextChanged");
    reveal_strlit("onVideoQualityChanged");
    reveal_strlit("onVolumeChanged");
    reveal_strlit("playlistModified");
    reveal_strlit("autoplayUpNext");
    assert("nowPlaying"@.len() != "onStateChange"@.len());
    assert("loungeStatus"@.len() != "onStateChange"@.len());
    assert("loungeStatus"@.len() != "nowPlaying"@.len());
    assert("loungeScreenDisconnected"@.len() != "onStateChange"@.len());
    assert("loungeScreenDisconnected"@.len() != "nowPlaying"@.len());
    assert("loungeScreenDisconnected"@.len() != "loungeStatus"@.len());
    assert("onAdStateChange"@.len() != "onStateChange"@.len());
    assert("onAdStateChange"@.len() != "nowPlaying"@.len());
    assert("onAdStateChange"@.len() != "loungeStatus"@.len());
    assert("onAdStateChange"@.len() != "loungeScreenDisconnected"@.len());
    assert("onSubtitlesTrackChanged"@.len() != "onStateChange"@.len());
    assert("onSubtitlesTrackChanged"@.len() != "nowPlaying"@.len());
    assert("onSubtitlesTrackChanged"@.len() != "loungeStatus"@.len());
    assert("onSubtitlesTrackChanged"@.len() != "loungeScreenDisconnected"@.len());
    assert("onSubtitlesTrackChanged"@.len() != "onAdStateChange"@.len());
    assert("onAudioTrackChanged"@.len() != "onStateChange"@.len());
    assert("onAudioTrackChanged"@.len() != "nowPlaying"@.len());
    assert("onAudioTrackChanged"@.len() != "loungeStatus"@.len());
    assert("onAudioTrackChanged"@.len() != "loungeScreenDisconnected"@.len());
    assert("onAudioTrackChanged"@.len() != "onAdStateChange"@.len());
    assert("onAudioTrackChanged"@.len() != "onSubtitlesTrackChanged"@.len());
    assert("onAutoplayModeChanged"@.len() != "onStateChange"@.len());
    assert("onAutoplayModeChanged"@.len() != "nowPlaying"@.len());
    assert("onAutoplayModeChanged"@.len() != "loungeStatus"@.len());
    assert("onAutoplayModeChanged"@.len() != "loungeScreenDisconnected"@.len());
    assert("onAutoplayModeChanged"@.len() != "onAdStateChange"@.len());
    assert("onAutoplayModeChanged"@.len() != "onSubtitlesTrackChanged"@.len());
    assert("onAutoplayModeChanged"@.len() != "onAudioTrackChanged"@.len());
    assert("onHasPreviousNextChanged"@.len() != "onStateChange"@.len());
    assert("onHasPreviousNextChanged"@.len() != "nowPlaying"@.len());
    assert("onHasPreviousNextChanged"@.len() != "loungeStatus"@.len());
    assert("onHasPreviousNextChanged"@[0] != "loungeScreenDisconnected"@[0]);
    assert("onHasPreviousNextChanged"@.len() != "onAdStateChange"@.len());
    assert("onHasPreviousNextChanged"@.len() != "onSubtitlesTrackChanged"@.len());
    assert("onHasPreviousNextChanged"@.len() != "onAudioTrackChanged"@.len());
    assert("onHasPreviousNextChanged"@.len() != "onAutoplayModeChanged"@.len());
    assert("onVideoQualityChanged"@.len() != "onStateChange"@.len());
    assert("onVideoQualityChanged"@.len() != "nowPlaying"@.len());
    assert("onVideoQualityChanged"@.len() != "loungeStatus"@.len());
    assert("onVideoQualityChanged"@.len() != "loungeScreenDisconnected"@.len());
    assert("onVideoQualityChanged"@.len() != "onAdStateChange"@.len());
    assert("onVideoQualityChanged"@.len() != "onSubtitlesTrackChanged"@.len());
    assert("onVideoQualityChanged"@.len() != "onAudioTrackChanged"@.len());
    assert("onVideoQualityChanged"@[2] != "onAutoplayModeChanged"@[2]);
    assert("onVideoQualityChanged"@.len() != "onHasPreviousNextChanged"@.len());
    assert("onVolumeChanged"@.len() != "onStateChange"@.len());
    assert("onVolumeChanged"@.len() != "nowPlaying"@.len());
    assert("onVolumeChanged"@.len() != "loungeStatus"@.len());
    assert("onVolumeChanged"@.len() != "loungeScreenDisconnected"@.len());
    assert("onVolumeChanged"@[2] != "onAdStateChange"@[2]);
    assert("onVolumeChanged"@.len() != "onSubtitlesTrackChanged"@.len());
    assert("onVolumeChanged"@.len() != "onAudioTrackChanged"@.len());
    assert("onVolumeChanged"@.len() != "onAutoplayModeChanged"@.len());
    assert("onVolumeChanged"@.len() != "onHasPreviousNextChanged"@.len());
    assert("onVolumeChanged"@.len() != "onVideoQualityChanged"@.len());
    assert("playlistModified"@.len() != "onStateChange"@.len());
    assert("playlistModified"@.len() != "nowPlaying"@.len());
    assert("playlistModified"@.len() != "loungeStatus"@.len());
    assert("playlistModified"@.len() != "loungeScreenDisconnected"@.len());
    assert("playlistModified"@.len() != "onAdStateChange"@.len());
    assert("playlistModified"@.len() != "onSubtitlesTrackChanged"@.len());
    assert("playlistModified"@.len() != "onAudioTrackChanged"@.len());
    assert("playlistModified"@.len() != "onAutoplayModeChanged"@.len());
    assert("playlistModified"@.len() != "onHasPreviousNextChanged"@.len());
    assert("playlistModified"@.len() != "onVideoQualityChanged"@.len());
    assert("playlistModified"@.len() != "onVolumeChanged"@.len());
    assert("autoplayUpNext"@.len() != "onStateChange"@.len());
    assert("autoplayUpNext"@.len() != "nowPlaying"@.len());
    assert("autoplayUpNext"@.len() != "loungeStatus"@.len());
    assert("autoplayUpNext"@.len() != "loungeScreenDisconnected"@.len());
    assert("autoplayUpNext"@.len() != "onAdStateChange"@.len());
    assert("autoplayUpNext"@.len() != "onSubtitlesTrackChanged"@.len());
    assert("autoplayUpNext"@.len() != "onAudioTrackChanged"@.len());
    assert("autoplayUpNext"@.len() != "onAutoplayModeChanged"@.len());
    assert("autoplayUpNext"@.len() != "onHasPreviousNextChanged"@.len());
    assert("autoplayUpNext"@.len() != "onVideoQualityChanged"@.len());
    assert("autoplayUpNext"@.len() != "onVolumeChanged"@.len());
    assert("autoplayUpNext"@.len() != "playlistModified"@.len());
}

} // verus!
