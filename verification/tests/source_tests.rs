use wavelet_audio::source::{
    audio_file_indices, file_extension, file_stem, first_playable_track, is_audio_extension,
    is_audio_file_name, next_packet_action, plan_audio_stream, track_signal_info, DirEntryInfo,
    OpenError, OverlapSaveIter, PacketAction, PacketEvent, TrackInfo,
};

#[test]
fn extensions_follow_path_rules() {
    assert_eq!(file_extension("song.flac"), Some("flac"));
    assert_eq!(file_extension("archive.tar.gz"), Some("gz"));
    assert_eq!(file_extension("noext"), None);
    assert_eq!(file_extension(".hidden"), None);
    assert_eq!(file_extension(".hidden.wav"), Some("wav"));
    assert_eq!(file_extension("trailing."), Some(""));
    assert_eq!(file_extension(".."), None);
    assert_eq!(file_extension("..."), Some(""));
    assert_eq!(file_extension(""), None);
}

#[test]
fn stems_follow_path_rules() {
    assert_eq!(file_stem("song.flac"), "song");
    assert_eq!(file_stem("archive.tar.gz"), "archive.tar");
    assert_eq!(file_stem("noext"), "noext");
    assert_eq!(file_stem(".hidden"), ".hidden");
    assert_eq!(file_stem("trailing."), "trailing");
    assert_eq!(file_stem(".."), "..");
    assert_eq!(file_stem("..."), "..");
    assert_eq!(file_stem("été.wav"), "été");
}

#[test]
fn stem_dot_extension_rebuilds_the_name() {
    for name in ["a.b", "x.tar.gz", ".h.mp3", "q.", "...", "été.FLAC"] {
        let ext = file_extension(name).unwrap();
        assert_eq!(format!("{}.{}", file_stem(name), ext), name);
        assert!(!ext.contains('.'));
    }
    for name in ["plain", ".hidden", "..", ""] {
        assert_eq!(file_extension(name), None);
        assert_eq!(file_stem(name), name);
    }
}

#[test]
fn audio_extensions_ignore_case() {
    for e in ["flac", "FLAC", "Flac", "wav", "WAV", "mp3", "MP3", "mP3"] {
        assert!(is_audio_extension(e), "{}", e);
    }
    for e in ["ogg", "wave", "mp4", "fla", "", "flac ", "ｗav"] {
        assert!(!is_audio_extension(e), "{}", e);
    }
}

#[test]
fn audio_file_names() {
    assert!(is_audio_file_name("take1.WAV"));
    assert!(is_audio_file_name("a.b.mp3"));
    assert!(!is_audio_file_name("notes.txt"));
    assert!(!is_audio_file_name(".flac"));
    assert!(!is_audio_file_name("flac"));
}

fn entry(name: Option<&str>, is_file: bool) -> DirEntryInfo {
    DirEntryInfo { file_name: name.map(|s| s.to_string()), is_file }
}

#[test]
fn listing_keeps_audio_files_in_order() {
    let entries = vec![
        entry(Some("a.wav"), true),
        entry(Some("b.txt"), true),
        entry(Some("c.FLAC"), true),
        entry(Some("dir.mp3"), false),
        entry(None, true),
        entry(Some("d.Mp3"), true),
        entry(Some(".mp3"), true),
    ];
    assert_eq!(audio_file_indices(&entries), vec![0, 2, 5]);
    assert_eq!(audio_file_indices(&Vec::new()), Vec::<usize>::new());
}

fn track(id: u32, is_audio: bool, null: bool) -> TrackInfo {
    TrackInfo {
        id,
        is_audio,
        codec_is_null: null,
        sample_rate: Some(44_100),
        num_frames: Some(1_000),
        channel_count: Some(2),
    }
}

#[test]
fn first_playable_track_skips_others() {
    let tracks = vec![track(1, false, false), track(2, true, true), track(3, true, false), track(4, true, false)];
    assert_eq!(first_playable_track(&tracks), Some(2));
    assert_eq!(first_playable_track(&vec![track(1, false, false)]), None);
    assert_eq!(first_playable_track(&Vec::new()), None);
}

#[test]
fn plan_reads_metadata_of_the_chosen_track() {
    let tracks = vec![track(7, false, false), track(9, true, false)];
    let plan = plan_audio_stream("/data/song.flac", Some("song.flac"), &tracks).unwrap();
    assert_eq!(plan.track_index, 1);
    assert_eq!(plan.track_id, 9);
    assert_eq!(plan.info.get_name(), "song");
    assert_eq!(plan.info.get_path(), Some("/data/song.flac"));
    assert_eq!(plan.info.get_sample_rate(), 44_100);
    assert_eq!(plan.info.get_n_samples(), 1_000);
    assert_eq!(plan.info.get_n_channels(), 2);
}

#[test]
fn plan_errors() {
    assert_eq!(
        plan_audio_stream("x", Some("x"), &vec![track(1, false, false)]).unwrap_err(),
        OpenError::NoAudioTrack
    );
    let mut t = track(1, true, false);
    t.sample_rate = None;
    t.num_frames = None;
    assert_eq!(plan_audio_stream("x", None, &vec![t]).unwrap_err(), OpenError::UnknownSampleRate);
    let mut t = track(1, true, false);
    t.num_frames = None;
    assert_eq!(plan_audio_stream("x", None, &vec![t]).unwrap_err(), OpenError::UnknownTrackSize);
    assert_eq!(OpenError::NoAudioTrack.message(), "No audio tracks found");
    assert_eq!(OpenError::UnknownSampleRate.message(), "Unknown sample rate!");
    assert_eq!(OpenError::UnknownTrackSize.message(), "Unknown track size!");
}

#[test]
fn track_metadata_defaults() {
    let mut t = track(1, true, false);
    t.channel_count = None;
    let info = track_signal_info("p", None, &t).unwrap();
    assert_eq!(info.get_name(), "Unknown file name");
    assert_eq!(info.get_n_channels(), 1);
    t.channel_count = Some(65_537);
    let info = track_signal_info("p", Some(".hidden"), &t).unwrap();
    assert_eq!(info.get_n_channels(), 1);
    assert_eq!(info.get_name(), ".hidden");
}

#[test]
fn packet_routing() {
    assert_eq!(next_packet_action(3, PacketEvent::Packet { track_id: 3 }), PacketAction::Decode);
    assert_eq!(next_packet_action(3, PacketEvent::Packet { track_id: 4 }), PacketAction::Skip);
    assert_eq!(next_packet_action(3, PacketEvent::ResetRequired), PacketAction::ResetDecoder);
    assert_eq!(next_packet_action(3, PacketEvent::ReadFailed), PacketAction::Fail);
    assert_eq!(next_packet_action(3, PacketEvent::EndOfStream), PacketAction::Finish);
}

#[test]
fn overlap_save_iter_exists() {
    assert_eq!(OverlapSaveIter {}, OverlapSaveIter {});
}
