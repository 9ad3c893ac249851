use youtube_lounge_rs::commands::get_command_name;
use youtube_lounge_rs::protocol::get_thumbnail_url;
use youtube_lounge_rs::PlaybackCommand;

// get_thumbnail_url generates the correct URL
#[test]
fn test_get_thumbnail_url() {
    let video_id = "dQw4w9WgXcQ";
    let thumbnail_idx = 0;

    let url = get_thumbnail_url(video_id, thumbnail_idx);

    assert_eq!(url, "https://img.youtube.com/vi/dQw4w9WgXcQ/0.jpg");
}

// Command name generation
#[test]
fn test_command_names() {
    assert_eq!(get_command_name(&PlaybackCommand::Play), "play");
    assert_eq!(get_command_name(&PlaybackCommand::Pause), "pause");
    assert_eq!(get_command_name(&PlaybackCommand::Next), "next");
    assert_eq!(get_command_name(&PlaybackCommand::Previous), "previous");
    assert_eq!(get_command_name(&PlaybackCommand::SkipAd), "skipAd");

    // Commands with parameters
    assert_eq!(
        get_command_name(&PlaybackCommand::SetPlaylist {
            video_id: "dQw4w9WgXcQ".to_string(),
            current_index: Some(-1),
            list_id: None,
            current_time: Some("0".to_string()),
            audio_only: Some(false),
            params: None,
            player_params: None,
        }),
        "setPlaylist"
    );
    assert_eq!(
        get_command_name(&PlaybackCommand::AddVideo {
            video_id: "dQw4w9WgXcQ".to_string(),
            video_sources: None,
        }),
        "addVideo"
    );
    assert_eq!(
        get_command_name(&PlaybackCommand::SeekTo {
            new_time: "42".to_string()
        }),
        "seekTo"
    );
    assert_eq!(
        get_command_name(&PlaybackCommand::SetAutoplayMode {
            autoplay_mode: "ENABLED".to_string()
        }),
        "setAutoplayMode"
    );
    assert_eq!(
        get_command_name(&PlaybackCommand::SetVolume { volume: 50 }),
        "setVolume"
    );
}

// Helper constructors for commands
#[test]
fn test_command_constructors() {
    let video_id = "dQw4w9WgXcQ".to_string();
    let set_playlist = PlaybackCommand::set_playlist(video_id.clone());

    match set_playlist {
        PlaybackCommand::SetPlaylist {
            video_id: vid,
            current_index,
            list_id,
            current_time,
            audio_only,
            params,
            player_params,
        } => {
            assert_eq!(vid, video_id);
            assert_eq!(current_index, Some(-1));
            assert_eq!(list_id, None);
            assert_eq!(current_time, Some("0".to_string()));
            assert_eq!(audio_only, Some(false));
            assert_eq!(params, None);
            assert_eq!(player_params, None);
        }
        _ => panic!("Wrong command type returned by set_playlist"),
    }

    let playlist_id = "PLxxx123456".to_string();
    let play_playlist = PlaybackCommand::set_playlist_by_id(playlist_id.clone());

    match play_playlist {
        PlaybackCommand::SetPlaylist {
            video_id,
            current_index,
            list_id,
            current_time,
            audio_only,
            params,
            player_params,
        } => {
            assert_eq!(video_id, "");
            assert_eq!(current_index, Some(0));
            assert_eq!(list_id, Some(playlist_id.clone()));
            assert_eq!(current_time, Some("0".to_string()));
            assert_eq!(audio_only, Some(false));
            assert_eq!(params, None);
            assert_eq!(player_params, None);
        }
        _ => panic!("Wrong command type returned by set_playlist_by_id"),
    }

    let index = 3;
    let play_playlist_at_index =
        PlaybackCommand::set_playlist_with_index(playlist_id.clone(), index);

    match play_playlist_at_index {
        PlaybackCommand::SetPlaylist {
            video_id,
            current_index,
            list_id,
            current_time,
            audio_only,
            params,
            player_params,
        } => {
            assert_eq!(video_id, "");
            assert_eq!(current_index, Some(index));
            assert_eq!(list_id, Some(playlist_id));
            assert_eq!(current_time, Some("0".to_string()));
            assert_eq!(audio_only, Some(false));
            assert_eq!(params, None);
            assert_eq!(player_params, None);
        }
        _ => panic!("Wrong command type returned by set_playlist_with_index"),
    }

    let add_video = PlaybackCommand::add_video(video_id.clone());

    match add_video {
        PlaybackCommand::AddVideo {
            video_id: vid,
            video_sources,
        } => {
            assert_eq!(vid, video_id);
            assert_eq!(video_sources, None);
        }
        _ => panic!("Wrong command type returned by add_video"),
    }
}
