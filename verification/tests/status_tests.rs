use youtube_lounge_rs::models::{
    AdState, HasPreviousNextChanged, NowPlaying, PlaybackState, PlaylistModeChanged,
    PlaylistModified, VideoQualityChanged,
};
use youtube_lounge_rs::models::default_state;
use youtube_lounge_rs::utils::state::PlaybackStatus as Code;
use youtube_lounge_rs::PlaybackStatus;

#[test]
fn status_of_state_strings() {
    let cases = [
        ("-1", PlaybackStatus::Stopped),
        ("0", PlaybackStatus::Buffering),
        ("1", PlaybackStatus::Playing),
        ("2", PlaybackStatus::Paused),
        ("3", PlaybackStatus::Starting),
        ("1081", PlaybackStatus::Advertisement),
        ("5", PlaybackStatus::Unknown),
        ("+1", PlaybackStatus::Playing),
        ("playing", PlaybackStatus::Unknown),
        ("", PlaybackStatus::Unknown),
    ];
    for (s, expected) in cases {
        assert_eq!(PlaybackStatus::from(s), expected, "state {:?}", s);
        assert_eq!(PlaybackStatus::from_state(s), expected);
    }
    assert_eq!(PlaybackStatus::Advertisement.label(), "Advertisement");
    assert_eq!(PlaybackStatus::Buffering.label(), "Buffering");
}

#[test]
fn models_report_their_status() {
    let st = PlaybackState {
        current_time: "0".into(),
        state: default_state(),
        duration: String::new(),
        cpn: None,
        loaded_time: String::new(),
    };
    assert_eq!(default_state(), "-1");
    assert_eq!(st.status(), PlaybackStatus::Stopped);
    let np = NowPlaying {
        video_id: "v".into(),
        current_time: "0".into(),
        state: "2".into(),
        video_data: None,
        cpn: None,
        list_id: None,
        duration: String::new(),
        loaded_time: String::new(),
        seekable_start_time: String::new(),
        seekable_end_time: String::new(),
    };
    assert_eq!(np.status(), PlaybackStatus::Paused);
}

#[test]
fn integer_codes_round_trip() {
    let all = [
        Code::Stopped,
        Code::BufferingBetween,
        Code::Playing,
        Code::Paused,
        Code::Starting,
        Code::Ended,
        Code::Advertisement,
        Code::Unknown,
    ];
    for s in all {
        assert_eq!(Code::from_i32(s.to_i32()), s);
    }
    for n in -100..1200 {
        let known = [-1, 0, 1, 2, 3, 5, 1081, -99].contains(&n);
        assert_eq!(Code::from_i32(n).to_i32() == n, known, "code {}", n);
    }
    assert_eq!(Code::Ended.as_str(), "ENDED");
    assert_eq!(Code::BufferingBetween.as_str(), "BUFFERING_BETWEEN");
    assert_eq!(Code::Unknown.to_i32(), -99);
}

#[test]
fn helper_methods() {
    let hpn = HasPreviousNextChanged { has_next: "true".into(), has_previous: "false".into() };
    assert!(hpn.has_next());
    assert!(!hpn.has_previous());
    let q = VideoQualityChanged {
        available_quality_levels: "hd1080, hd720,small".into(),
        quality_level: "hd720".into(),
        video_id: "v".into(),
    };
    assert_eq!(q.available_qualities(), vec!["hd1080", "hd720", "small"]);
    let pm = PlaylistModified {
        current_index: Some("3".into()),
        first_video_id: String::new(),
        list_id: String::new(),
        video_id: String::new(),
    };
    assert_eq!(pm.current_index_value(), Some(3));
    let pm2 = PlaylistModified { current_index: None, ..pm.clone() };
    assert_eq!(pm2.current_index_value(), None);
    let mode = PlaylistModeChanged { loop_enabled: "true".into(), shuffle_enabled: "nope".into() };
    assert!(mode.is_loop_enabled());
    assert!(!mode.is_shuffle_enabled());
    let ad = AdState {
        ad_state: "1".into(),
        content_video_id: Some("content123".into()),
        current_time: "0".into(),
        is_skip_enabled: "true".into(),
    };
    assert!(ad.is_skippable());
    assert_eq!(ad.get_content_video_id(), "content123");
    let ad2 = AdState { content_video_id: None, is_skip_enabled: "false".into(), ..ad.clone() };
    assert!(!ad2.is_skippable());
    assert_eq!(ad2.get_content_video_id(), "");
}
