use youtube_lounge_rs::events::{
    chunk_is_blank, event_kind, process_events, DecodedDevice, EventKind, EventState, Payload,
    RawBody, RawEvent,
};
use youtube_lounge_rs::models::{Device, DeviceInfo, LoungeStatus, NowPlaying, PlaybackState, VolumeChanged};
use youtube_lounge_rs::LoungeEvent;

fn entry(id: i64, name: &str, payload: Payload, text: &str) -> RawEvent {
    RawEvent {
        len: 2,
        id: Some(id),
        body: Some(RawBody { len: 2, name: Some(name.to_string()), payload_text: text.to_string(), payload }),
    }
}

fn state(cpn: Option<&str>) -> PlaybackState {
    PlaybackState {
        current_time: "42.5".into(),
        state: "1".into(),
        duration: "180.0".into(),
        cpn: cpn.map(|c| c.to_string()),
        loaded_time: "60.0".into(),
    }
}

fn now_playing(video: &str, st: &str, cpn: Option<&str>) -> NowPlaying {
    NowPlaying {
        video_id: video.into(),
        current_time: "1.0".into(),
        state: st.into(),
        video_data: None,
        cpn: cpn.map(|c| c.to_string()),
        list_id: Some("PL1".into()),
        duration: "212.0".into(),
        loaded_time: "5.0".into(),
        seekable_start_time: String::new(),
        seekable_end_time: String::new(),
    }
}

#[test]
fn event_names_are_classified() {
    assert_eq!(event_kind("onStateChange"), EventKind::StateChange);
    assert_eq!(event_kind("nowPlaying"), EventKind::NowPlaying);
    assert_eq!(event_kind("loungeStatus"), EventKind::LoungeStatus);
    assert_eq!(event_kind("loungeScreenDisconnected"), EventKind::ScreenDisconnected);
    assert_eq!(event_kind("onAdStateChange"), EventKind::AdStateChange);
    assert_eq!(event_kind("onSubtitlesTrackChanged"), EventKind::SubtitlesTrackChanged);
    assert_eq!(event_kind("onAudioTrackChanged"), EventKind::AudioTrackChanged);
    assert_eq!(event_kind("onAutoplayModeChanged"), EventKind::AutoplayModeChanged);
    assert_eq!(event_kind("onHasPreviousNextChanged"), EventKind::HasPreviousNextChanged);
    assert_eq!(event_kind("onVideoQualityChanged"), EventKind::VideoQualityChanged);
    assert_eq!(event_kind("onVolumeChanged"), EventKind::VolumeChanged);
    assert_eq!(event_kind("playlistModified"), EventKind::PlaylistModified);
    assert_eq!(event_kind("autoplayUpNext"), EventKind::AutoplayUpNext);
    assert_eq!(event_kind("noop"), EventKind::Unknown);
    assert_eq!(event_kind("onstatechange"), EventKind::Unknown);
}

#[test]
fn state_change_matched_by_cpn_gives_a_session() {
    let mut st = EventState::new();
    let events = vec![
        entry(3, "nowPlaying", Payload::NowPlaying(now_playing("", "3", Some("c1"))), "{}"),
        entry(4, "onStateChange", Payload::StateChange(state(Some("c1"))), "{}"),
        entry(5, "onStateChange", Payload::StateChange(state(Some("other"))), "{}"),
    ];
    let out = process_events(&mut st, &events);
    assert_eq!(st.aid, 5);
    assert_eq!(out.len(), 4);
    assert!(matches!(&out[0], LoungeEvent::NowPlaying(np) if np.cpn.as_deref() == Some("c1")));
    assert!(matches!(&out[1], LoungeEvent::StateChange(s) if s.cpn.as_deref() == Some("c1")));
    match &out[2] {
        LoungeEvent::PlaybackSession(np, s) => {
            assert_eq!(np.list_id.as_deref(), Some("PL1"));
            assert_eq!(s.current_time, "42.5");
        }
        other => panic!("unexpected {:?}", other),
    }
    assert!(matches!(&out[3], LoungeEvent::StateChange(_)));
}

#[test]
fn now_playing_sessions() {
    // a playing record with all its times gives a session of its own
    let mut st = EventState::new();
    let out = process_events(&mut st, &vec![entry(1, "nowPlaying", Payload::NowPlaying(now_playing("vid", "1", None)), "")]);
    assert_eq!(out.len(), 2);
    match &out[1] {
        LoungeEvent::PlaybackSession(np, s) => {
            assert_eq!(np.video_id, "vid");
            assert_eq!((s.current_time.as_str(), s.state.as_str(), s.duration.as_str()), ("1.0", "1", "212.0"));
        }
        other => panic!("unexpected {:?}", other),
    }
    assert!(st.latest_now_playing.is_none());

    // a stop without a video reports the last record as stopped
    let mut st = EventState::new();
    let events = vec![
        entry(1, "nowPlaying", Payload::NowPlaying(now_playing("vid", "1", Some("c9"))), ""),
        entry(2, "nowPlaying", Payload::NowPlaying(now_playing("", "-1", None)), ""),
    ];
    let out = process_events(&mut st, &events);
    assert_eq!(out.len(), 4);
    match &out[3] {
        LoungeEvent::PlaybackSession(np, s) => {
            assert_eq!(np.video_id, "vid");
            assert_eq!((s.current_time.as_str(), s.state.as_str(), s.loaded_time.as_str()), ("0", "-1", "0"));
            assert_eq!(s.duration, "212.0");
            assert_eq!(s.cpn.as_deref(), Some("c9"));
        }
        other => panic!("unexpected {:?}", other),
    }
}

#[test]
fn short_and_unknown_entries() {
    let mut st = EventState::new();
    let events = vec![
        RawEvent { len: 1, id: Some(9), body: None },
        RawEvent {
            len: 2,
            id: Some(10),
            body: Some(RawBody { len: 1, name: Some("noop".into()), payload_text: String::new(), payload: Payload::Absent }),
        },
        entry(11, "somethingNew", Payload::Absent, "{\"a\":1}"),
        entry(12, "loungeScreenDisconnected", Payload::Absent, "{}"),
        entry(13, "onVolumeChanged", Payload::Absent, "{}"),
        entry(14, "onVolumeChanged", Payload::VolumeChanged(VolumeChanged { muted: "false".into(), volume: "7".into() }), "{}"),
    ];
    let out = process_events(&mut st, &events);
    assert_eq!(st.aid, 14);
    assert_eq!(out.len(), 3);
    match &out[0] {
        LoungeEvent::Unknown(t) => assert_eq!(t, "somethingNew - payload: {\"a\":1}"),
        other => panic!("unexpected {:?}", other),
    }
    assert!(matches!(&out[1], LoungeEvent::ScreenDisconnected));
    assert!(matches!(&out[2], LoungeEvent::VolumeChanged(v) if v.volume_level() == 7));
}

#[test]
fn lounge_status_devices() {
    let device = |info_raw: &str| Device {
        app: "YouTube".into(),
        name: "TV".into(),
        id: "d1".into(),
        device_type: "SMART_TV".into(),
        device_info_raw: info_raw.into(),
        device_info: None,
    };
    let info = DeviceInfo { brand: "LG".into(), model: "OLED65".into(), device_type: "TV".into() };
    let status = LoungeStatus { devices: "[...]".into(), queue_id: Some("RQ1".into()) };
    let mut st = EventState::new();
    let devices = vec![
        DecodedDevice { device: device("{\"brand\":\"LG\"}"), info: Some(info.clone()) },
        DecodedDevice { device: device("   "), info: Some(info.clone()) },
        DecodedDevice { device: device("{bad"), info: None },
    ];
    let out = process_events(&mut st, &vec![entry(1, "loungeStatus", Payload::LoungeStatus(status.clone(), Some(devices)), "")]);
    match &out[..] {
        [LoungeEvent::LoungeStatus(ds, q)] => {
            assert_eq!(q.as_deref(), Some("RQ1"));
            assert_eq!(ds.len(), 3);
            assert_eq!(ds[0].device_info.as_ref().map(|i| i.model.as_str()), Some("OLED65"));
            assert!(ds[1].device_info.is_none());
            assert!(ds[2].device_info.is_none());
        }
        other => panic!("unexpected {:?}", other),
    }
    let out = process_events(&mut st, &vec![entry(2, "loungeStatus", Payload::LoungeStatus(status, None), "")]);
    assert!(out.is_empty());
}

#[test]
fn blank_chunks() {
    assert!(chunk_is_blank(""));
    assert!(chunk_is_blank(" \r\n"));
    assert!(!chunk_is_blank(" [] "));
}
