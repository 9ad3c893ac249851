use youtube_lounge_rs::models::AdState;
use youtube_lounge_rs::protocol::get_thumbnail_url;
use youtube_lounge_rs::youtube_parse;
use youtube_lounge_rs::{LoungeEvent, NowPlaying, PlaybackCommand, PlaybackState};

// Command builders
#[test]
fn test_playback_commands() {
    let video_id = "dQw4w9WgXcQ";
    let set_playlist = PlaybackCommand::set_playlist(video_id.to_string());
    match set_playlist {
        PlaybackCommand::SetPlaylist {
            video_id: vid,
            current_index,
            list_id,
            ..
        } => {
            assert_eq!(vid, video_id);
            assert_eq!(current_index, Some(-1));
            assert_eq!(list_id, None);
        }
        _ => panic!("Wrong command type returned"),
    }

    let playlist_id = "PL12345";
    let set_playlist = PlaybackCommand::set_playlist_by_id(playlist_id.to_string());
    match set_playlist {
        PlaybackCommand::SetPlaylist {
            video_id,
            current_index,
            list_id,
            ..
        } => {
            assert_eq!(video_id, "");
            assert_eq!(current_index, Some(0));
            assert_eq!(list_id, Some(playlist_id.to_string()));
        }
        _ => panic!("Wrong command type returned"),
    }

    let add_video = PlaybackCommand::add_video(video_id.to_string());
    match add_video {
        PlaybackCommand::AddVideo { video_id: vid, .. } => {
            assert_eq!(vid, video_id);
        }
        _ => panic!("Wrong command type returned"),
    }
}

// Thumbnail URL generation
#[test]
fn test_thumbnail_url() {
    let video_id = "dQw4w9WgXcQ";
    let url = get_thumbnail_url(video_id, 0);
    assert_eq!(url, "https://img.youtube.com/vi/dQw4w9WgXcQ/0.jpg");
}

#[test]
fn test_events() {
    let playback_state = PlaybackState {
        state: "1".to_string(),
        current_time: "42.5".to_string(),
        duration: "180.0".to_string(),
        cpn: Some("test_cpn".to_string()),
        loaded_time: "60.0".to_string(),
    };
    let event = LoungeEvent::StateChange(playback_state);
    match event {
        LoungeEvent::StateChange(state) => {
            assert_eq!(state.current_time, "42.5");
            assert_eq!(state.state, "1");
            assert_eq!(state.duration, "180.0");
        }
        _ => panic!("Expected StateChange event"),
    }

    let now_playing = NowPlaying {
        video_id: "dQw4w9WgXcQ".to_string(),
        current_time: "42.5".to_string(),
        state: "1".to_string(),
        video_data: None,
        cpn: Some("test_cpn".to_string()),
        list_id: Some("PLtestlist".to_string()),
        duration: String::new(),
        loaded_time: String::new(),
        seekable_start_time: String::new(),
        seekable_end_time: String::new(),
    };
    let event = LoungeEvent::NowPlaying(now_playing);
    match event {
        LoungeEvent::NowPlaying(np) => {
            assert_eq!(np.video_id, "dQw4w9WgXcQ");
            assert_eq!(np.current_time, "42.5");
        }
        _ => panic!("Expected NowPlaying event"),
    }

    let ad_state = AdState {
        ad_state: "1".to_string(),
        content_video_id: Some("adVideoId123".to_string()),
        current_time: "0".to_string(),
        is_skip_enabled: "true".to_string(),
    };
    let event = LoungeEvent::AdStateChange(ad_state);
    match event {
        LoungeEvent::AdStateChange(ad) => {
            assert_eq!(ad.content_video_id, Some("adVideoId123".to_string()));
            assert_eq!(ad.is_skip_enabled, "true");
            assert!(ad.is_skippable());
        }
        _ => panic!("Expected AdStateChange event"),
    }
}

#[test]
fn test_youtube_value_parser() {
    assert_eq!(youtube_parse::parse_int("42"), 42);
    assert_eq!(youtube_parse::parse_int("not_a_number"), 0);

    assert!(youtube_parse::parse_bool("true"));
    assert!(!youtube_parse::parse_bool("false"));
    assert!(!youtube_parse::parse_bool("anything_else"));

    let list = youtube_parse::parse_list("item1,item2,item3");
    assert_eq!(list, vec!["item1", "item2", "item3"]);

    // The playback session is handed on as its record and state, paired by CPN.
    let state = PlaybackState {
        state: "1".to_string(),
        current_time: "42.5".to_string(),
        duration: "180.0".to_string(),
        cpn: Some("test_cpn".to_string()),
        loaded_time: "60.0".to_string(),
    };
    let np = NowPlaying {
        video_id: "dQw4w9WgXcQ".to_string(),
        current_time: "42.5".to_string(),
        state: "1".to_string(),
        video_data: None,
        cpn: Some("test_cpn".to_string()),
        list_id: Some("PLtestlist".to_string()),
        duration: String::new(),
        loaded_time: String::new(),
        seekable_start_time: String::new(),
        seekable_end_time: String::new(),
    };
    let event = LoungeEvent::PlaybackSession(np, state);
    match event {
        LoungeEvent::PlaybackSession(np, state) => {
            assert_eq!(np.video_id, "dQw4w9WgXcQ");
            assert_eq!(state.current_time, "42.5");
            assert_eq!(state.duration, "180.0");
            assert_eq!(state.state, "1");
            assert_eq!(state.loaded_time, "60.0");
            assert_eq!(np.list_id, Some("PLtestlist".to_string()));
            assert_eq!(state.cpn, Some("test_cpn".to_string()));
        }
        _ => panic!("Expected PlaybackSession event"),
    }
}
