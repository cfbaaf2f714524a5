use hibiki::board::Board;
use hibiki::error::{HibikiError, SourceFault};
use hibiki::probe::Probe;
use hibiki::scene::{Scene, SceneEntry};
use hibiki::sound::{Audio, Sound, SoundKind, SoundSource};
use hibiki::trigger::{Action, Event, Stream};

/// A mono 16-bit PCM file of 64 frames at 8 kHz.
fn wav_bytes() -> Vec<u8> {
    let frames: u32 = 64;
    let data_len: u32 = frames * 2;
    let mut bytes: Vec<u8> = Vec::new();
    bytes.extend_from_slice(b"RIFF");
    bytes.extend_from_slice(&(36 + data_len).to_le_bytes());
    bytes.extend_from_slice(b"WAVE");
    bytes.extend_from_slice(b"fmt ");
    bytes.extend_from_slice(&16u32.to_le_bytes());
    bytes.extend_from_slice(&1u16.to_le_bytes());
    bytes.extend_from_slice(&1u16.to_le_bytes());
    bytes.extend_from_slice(&8000u32.to_le_bytes());
    bytes.extend_from_slice(&16000u32.to_le_bytes());
    bytes.extend_from_slice(&2u16.to_le_bytes());
    bytes.extend_from_slice(&16u16.to_le_bytes());
    bytes.extend_from_slice(b"data");
    bytes.extend_from_slice(&data_len.to_le_bytes());
    for frame in 0..frames {
        let sample: i16 = ((frame % 16) as i16 - 8) * 1000;
        bytes.extend_from_slice(&sample.to_le_bytes());
    }
    bytes
}

fn heard(bytes: Vec<u8>) -> Probe<Audio> {
    Probe::Found(Audio { bytes, accepted: false })
}

fn source(path: &str) -> SoundSource {
    SoundSource::from_decoded(path.to_string(), vec![1u8, 2, 3], Ok(())).unwrap()
}

fn clip(path: &str, kind: SoundKind) -> Sound {
    let mut sound = Sound::new(source(path));
    sound.set_kind(kind);
    sound
}

fn three_clips() -> Board {
    Board::new(
        "scene.hibiki.ron".to_string(),
        Some(vec![
            clip("a.wav", SoundKind::Fire),
            clip("b.wav", SoundKind::ToggleLatch),
            clip("c.wav", SoundKind::HoldLoop),
        ]),
    )
}

fn paths(board: &Board) -> Vec<String> {
    board.sounds().iter().map(|sound| sound.source().path().clone()).collect()
}

fn example_entries() -> Vec<SceneEntry> {
    vec![
        SceneEntry {
            sound_path: "kick.wav".to_string(),
            controller: SoundKind::Fire,
            volume: 1000,
            pan: 0,
            color: [80, 80, 80],
        },
        SceneEntry {
            sound_path: "loop.wav".to_string(),
            controller: SoundKind::HoldLoop,
            volume: 800,
            pan: -300,
            color: [10, 200, 10],
        },
    ]
}

fn found_all(entries: &[SceneEntry]) -> Vec<(SceneEntry, Probe<Audio>)> {
    entries.iter().map(|entry| (entry.clone(), heard(wav_bytes()))).collect()
}

#[test]
fn new_board_without_clips() {
    let board = Board::new("scene.hibiki.ron".to_string(), None);
    assert!(board.sounds().is_empty());
    assert_eq!(board.selected(), None);
    assert_eq!(board.scene_path(), "scene.hibiki.ron");
}

#[test]
fn new_board_keeps_the_loaded_clips() {
    let board = three_clips();
    assert_eq!(paths(&board), vec!["a.wav", "b.wav", "c.wav"]);
    assert_eq!(board.selected(), None);
}

#[test]
fn example_scene_loads_in_order_and_holds() {
    let entries = example_entries();
    let mut toasts: Vec<String> = Vec::new();
    let sounds = Board::load_sounds(found_all(&entries), &mut toasts);
    assert!(toasts.is_empty());
    let mut board = Board::new("scene.hibiki.ron".to_string(), Some(sounds));
    assert_eq!(board.sounds().len(), 2);
    assert_eq!(paths(&board), vec!["kick.wav", "loop.wav"]);
    assert_eq!(board.sounds()[0].kind(), SoundKind::Fire);
    assert_eq!(board.sounds()[0].volume(), 1000);
    assert_eq!(board.sounds()[0].pan(), 0);
    assert_eq!(board.sounds()[0].color(), [80, 80, 80]);
    assert_eq!(board.sounds()[1].kind(), SoundKind::HoldLoop);
    assert_eq!(board.sounds()[1].volume(), 800);
    assert_eq!(board.sounds()[1].pan(), -300);
    assert_eq!(board.sounds()[1].color(), [10, 200, 10]);

    assert_eq!(board.dispatch(1, Event::HoldBegin), Action::Restart(Stream::Looped));
    assert!(board.sounds()[1].is_active());
    assert_eq!(board.dispatch(1, Event::HoldEnd), Action::Stop);
    assert!(board.sounds()[1].handle().is_empty());
    assert!(!board.sounds()[1].state());
    assert!(board.sounds()[0].handle().is_empty());
    assert_eq!(board.selected(), None);
}

#[test]
fn missing_scene_gives_an_empty_board() {
    let mut toasts: Vec<String> = Vec::new();
    let scene = Scene::load(&"scene.hibiki.ron".to_string(), Probe::Missing).unwrap();
    let sounds = Board::load_sounds(found_all(&scene.entries), &mut toasts);
    let board = Board::new("scene.hibiki.ron".to_string(), Some(sounds));
    assert!(board.sounds().is_empty());
    assert!(toasts.is_empty());
}

#[test]
fn load_skips_a_missing_sound_file_and_tells() {
    let entries = vec![
        SceneEntry {
            sound_path: "kick.wav".to_string(),
            controller: SoundKind::Fire,
            volume: 1000,
            pan: 0,
            color: [80, 80, 80],
        },
        SceneEntry {
            sound_path: "gone.wav".to_string(),
            controller: SoundKind::CutRetrigger,
            volume: 500,
            pan: 100,
            color: [1, 2, 3],
        },
        SceneEntry {
            sound_path: "loop.wav".to_string(),
            controller: SoundKind::HoldLoop,
            volume: 800,
            pan: -300,
            color: [10, 200, 10],
        },
    ];
    let loaded = vec![
        (entries[0].clone(), heard(wav_bytes())),
        (entries[1].clone(), Probe::Missing),
        (entries[2].clone(), heard(wav_bytes())),
    ];
    let mut toasts: Vec<String> = vec!["earlier".to_string()];
    let sounds = Board::load_sounds(loaded, &mut toasts);
    assert_eq!(sounds.len(), 2);
    assert_eq!(sounds[0].entry(), entries[0]);
    assert_eq!(sounds[1].entry(), entries[2]);
    assert_eq!(
        toasts,
        vec![
            "earlier".to_string(),
            "File at '\"gone.wav\"' does not exist.".to_string()
        ]
    );
}

#[test]
fn load_skips_bad_audio_and_goes_on() {
    let entries = example_entries();
    let loaded = vec![
        (entries[0].clone(), heard(b"no audio".to_vec())),
        (entries[1].clone(), heard(wav_bytes())),
    ];
    let mut toasts: Vec<String> = Vec::new();
    let sounds = Board::load_sounds(loaded, &mut toasts);
    assert_eq!(sounds.len(), 1);
    assert_eq!(sounds[0].entry(), entries[1]);
    assert_eq!(toasts, vec!["'\"kick.wav\"' holds no audio that can be played.".to_string()]);
}

#[test]
fn load_with_every_file_failing() {
    let entries = example_entries();
    let loaded = vec![
        (entries[0].clone(), Probe::NotAFile),
        (entries[1].clone(), Probe::Unreadable("denied".to_string())),
    ];
    let mut toasts: Vec<String> = Vec::new();
    let sounds = Board::load_sounds(loaded, &mut toasts);
    assert!(sounds.is_empty());
    assert_eq!(
        toasts,
        vec![
            "'\"kick.wav\"' is not a file.".to_string(),
            "Internal error occured: denied".to_string()
        ]
    );
}

#[test]
fn loaded_clips_keep_the_bytes_of_their_files() {
    let entries = example_entries();
    let mut toasts: Vec<String> = Vec::new();
    let sounds = Board::load_sounds(found_all(&entries), &mut toasts);
    assert_eq!(sounds[0].source().path(), "kick.wav");
    assert_eq!(sounds[0].source().data(), &wav_bytes());
    assert_eq!(sounds[1].source().path(), "loop.wav");
}

#[test]
fn load_brings_volume_and_pan_into_range() {
    let entries = vec![SceneEntry {
        sound_path: "loud.wav".to_string(),
        controller: SoundKind::ToggleLoopLatch,
        volume: 12_000,
        pan: -1500,
        color: [255, 0, 255],
    }];
    let mut toasts: Vec<String> = Vec::new();
    let sounds = Board::load_sounds(found_all(&entries), &mut toasts);
    assert_eq!(sounds[0].volume(), 10_000);
    assert_eq!(sounds[0].pan(), -1000);
    assert_eq!(sounds[0].kind(), SoundKind::ToggleLoopLatch);
    assert_eq!(sounds[0].color(), [255, 0, 255]);
}

#[test]
fn add_sounds_appends_what_loads_and_tells_the_rest() {
    let mut board = three_clips();
    board.dispatch(0, Event::SecondaryActivate);
    let mut toasts: Vec<String> = Vec::new();
    board.add_sounds(
        vec![
            ("d.wav".to_string(), heard(wav_bytes())),
            ("sounds".to_string(), Probe::NotAFile),
            ("notes.txt".to_string(), heard(b"plain text".to_vec())),
            ("e.wav".to_string(), heard(wav_bytes())),
        ],
        &mut toasts,
    );
    assert_eq!(paths(&board), vec!["a.wav", "b.wav", "c.wav", "d.wav", "e.wav"]);
    assert_eq!(board.sounds()[3].kind(), SoundKind::Fire);
    assert_eq!(board.sounds()[4].volume(), 1000);
    assert_eq!(board.sounds()[4].pan(), 0);
    assert_eq!(board.sounds()[4].color(), [80, 80, 80]);
    assert_eq!(board.selected(), Some(0));
    assert_eq!(
        toasts,
        vec![
            "'\"sounds\"' is not a file.".to_string(),
            "'\"notes.txt\"' holds no audio that can be played.".to_string()
        ]
    );
}

#[test]
fn other_containers_go_by_the_caller_verdict() {
    let mut board = three_clips();
    let mut toasts: Vec<String> = Vec::new();
    let tune: Vec<u8> = b"ID3 stands in for a tune".to_vec();
    board.add_sounds(
        vec![
            ("tune.mp3".to_string(), Probe::Found(Audio { bytes: tune.clone(), accepted: true })),
            ("bad.mp3".to_string(), Probe::Found(Audio { bytes: tune.clone(), accepted: false })),
        ],
        &mut toasts,
    );
    assert_eq!(paths(&board), vec!["a.wav", "b.wav", "c.wav", "tune.mp3"]);
    assert_eq!(board.sounds()[3].source().data(), &tune);
    assert_eq!(toasts, vec!["'\"bad.mp3\"' holds no audio that can be played.".to_string()]);
    assert_eq!(
        board.add("bad.ogg".to_string(), Probe::Found(Audio { bytes: tune.clone(), accepted: false })),
        Err(HibikiError::UnsupportedOrCorruptAudio("bad.ogg".to_string()))
    );
    assert_eq!(
        board.add("good.ogg".to_string(), Probe::Found(Audio { bytes: tune, accepted: true })),
        Ok(4)
    );
}

#[test]
fn wave_streams_do_not_go_by_the_caller_verdict() {
    let mut board = three_clips();
    let mut broken = wav_bytes();
    broken[20] = 0x55;
    assert_eq!(
        board.add("broken.wav".to_string(), Probe::Found(Audio { bytes: broken, accepted: true })),
        Err(HibikiError::UnsupportedOrCorruptAudio("broken.wav".to_string()))
    );
    assert_eq!(
        board.add("fine.wav".to_string(), Probe::Found(Audio { bytes: wav_bytes(), accepted: false })),
        Ok(3)
    );
}

#[test]
fn add_sounds_with_nothing_picked() {
    let mut board = three_clips();
    let mut toasts: Vec<String> = Vec::new();
    board.add_sounds(Vec::new(), &mut toasts);
    assert_eq!(paths(&board), vec!["a.wav", "b.wav", "c.wav"]);
    assert!(toasts.is_empty());
}

#[test]
fn pack_after_load_gives_the_records_back() {
    let entries = example_entries();
    let mut toasts: Vec<String> = Vec::new();
    let board = Board::new(
        "scene.hibiki.ron".to_string(),
        Some(Board::load_sounds(found_all(&entries), &mut toasts)),
    );
    let packed = board.pack_scene();
    assert_eq!(packed.entries, entries);

    let again = Board::new(
        "scene.hibiki.ron".to_string(),
        Some(Board::load_sounds(found_all(&packed.entries), &mut toasts)),
    );
    assert_eq!(again.pack_scene(), packed);
    assert!(toasts.is_empty());
}

#[test]
fn pack_scene_drops_latch_and_handle() {
    let mut board = three_clips();
    let before = board.pack_scene();
    board.dispatch(1, Event::Activate);
    board.dispatch(2, Event::HoldBegin);
    board.dispatch(0, Event::SecondaryActivate);
    assert_eq!(board.pack_scene(), before);
    assert_eq!(before.entries.len(), 3);
    assert_eq!(before.entries[1].sound_path, "b.wav");
    assert_eq!(before.entries[1].controller, SoundKind::ToggleLatch);
}

#[test]
fn pack_scene_of_an_empty_board() {
    let board = Board::new("scene.hibiki.ron".to_string(), None);
    assert_eq!(board.pack_scene(), Scene { entries: Vec::new() });
}

#[test]
fn add_appends_a_default_clip() {
    let mut board = three_clips();
    board.dispatch(1, Event::SecondaryActivate);
    let index = board.add("d.wav".to_string(), heard(wav_bytes())).unwrap();
    assert_eq!(index, 3);
    assert_eq!(paths(&board), vec!["a.wav", "b.wav", "c.wav", "d.wav"]);
    let added = &board.sounds()[3];
    assert_eq!(added.kind(), SoundKind::Fire);
    assert_eq!(added.volume(), 1000);
    assert_eq!(added.pan(), 0);
    assert_eq!(added.color(), [80, 80, 80]);
    assert!(added.handle().is_empty());
    assert_eq!(added.source().data(), &wav_bytes());
    assert_eq!(board.selected(), Some(1));
}

#[test]
fn add_to_an_empty_board_gives_index_zero() {
    let mut board = Board::new("scene.hibiki.ron".to_string(), None);
    assert_eq!(board.add("a.wav".to_string(), heard(wav_bytes())), Ok(0));
    assert_eq!(board.add("b.wav".to_string(), heard(wav_bytes())), Ok(1));
}

#[test]
fn add_failure_leaves_the_board_unchanged() {
    let mut board = three_clips();
    board.dispatch(2, Event::SecondaryActivate);
    assert_eq!(
        board.add("gone.wav".to_string(), Probe::Missing),
        Err(HibikiError::InvalidSource("gone.wav".to_string(), SourceFault::DoesNotExist))
    );
    assert_eq!(
        board.add("sounds".to_string(), Probe::NotAFile),
        Err(HibikiError::InvalidSource("sounds".to_string(), SourceFault::NotAFile))
    );
    assert_eq!(
        board.add("notes.txt".to_string(), heard(b"plain text".to_vec())),
        Err(HibikiError::UnsupportedOrCorruptAudio("notes.txt".to_string()))
    );
    assert_eq!(
        board.add("locked.wav".to_string(), Probe::Unreadable("denied".to_string())),
        Err(HibikiError::InternalError("denied".to_string()))
    );
    assert_eq!(paths(&board), vec!["a.wav", "b.wav", "c.wav"]);
    assert_eq!(board.selected(), Some(2));
}

#[test]
fn remove_selected_clears_the_selection() {
    let mut board = three_clips();
    board.dispatch(1, Event::SecondaryActivate);
    let removed = board.remove_at(1).unwrap();
    assert_eq!(removed.source().path(), "b.wav");
    assert_eq!(board.selected(), None);
    assert_eq!(paths(&board), vec!["a.wav", "c.wav"]);
}

#[test]
fn remove_before_selected_moves_the_selection_down() {
    let mut board = three_clips();
    board.dispatch(2, Event::SecondaryActivate);
    board.remove_at(0);
    assert_eq!(board.selected(), Some(1));
    assert_eq!(board.sounds()[1].source().path(), "c.wav");
}

#[test]
fn remove_after_selected_leaves_the_selection() {
    let mut board = three_clips();
    board.dispatch(0, Event::SecondaryActivate);
    board.remove_at(2);
    assert_eq!(board.selected(), Some(0));
    assert_eq!(paths(&board), vec!["a.wav", "b.wav"]);
}

#[test]
fn remove_without_selection() {
    let mut board = three_clips();
    board.remove_at(1);
    assert_eq!(board.selected(), None);
    assert_eq!(paths(&board), vec!["a.wav", "c.wav"]);
}

#[test]
fn remove_out_of_range_does_nothing() {
    let mut board = three_clips();
    board.dispatch(2, Event::SecondaryActivate);
    assert!(board.remove_at(3).is_none());
    assert!(board.remove_at(usize::MAX).is_none());
    assert_eq!(paths(&board), vec!["a.wav", "b.wav", "c.wav"]);
    assert_eq!(board.selected(), Some(2));
}

#[test]
fn remove_last_clip_leaves_an_empty_board() {
    let mut board = Board::new("s.ron".to_string(), Some(vec![clip("a.wav", SoundKind::Fire)]));
    board.dispatch(0, Event::SecondaryActivate);
    board.remove_at(0);
    assert!(board.sounds().is_empty());
    assert_eq!(board.selected(), None);
}

#[test]
fn secondary_activation_toggles_the_selection() {
    let mut board = three_clips();
    assert_eq!(board.dispatch(1, Event::SecondaryActivate), Action::Idle);
    assert_eq!(board.selected(), Some(1));
    assert_eq!(board.dispatch(2, Event::SecondaryActivate), Action::Idle);
    assert_eq!(board.selected(), Some(2));
    assert_eq!(board.dispatch(2, Event::SecondaryActivate), Action::Idle);
    assert_eq!(board.selected(), None);
    for sound in board.sounds() {
        assert!(sound.handle().is_empty());
        assert!(!sound.state());
    }
}

#[test]
fn audio_events_leave_the_selection() {
    let mut board = three_clips();
    board.dispatch(0, Event::SecondaryActivate);
    assert_eq!(board.dispatch(1, Event::Activate), Action::Restart(Stream::Once));
    assert_eq!(board.dispatch(2, Event::HoldBegin), Action::Restart(Stream::Looped));
    assert_eq!(board.dispatch(2, Event::HoldEnd), Action::Stop);
    assert_eq!(board.dispatch(0, Event::Activate), Action::Fire(1000));
    assert_eq!(board.selected(), Some(0));
}

#[test]
fn dispatch_touches_only_the_addressed_clip() {
    let mut board = three_clips();
    assert_eq!(board.dispatch(1, Event::Activate), Action::Restart(Stream::Once));
    assert!(board.sounds()[1].state());
    assert!(board.sounds()[1].is_active());
    assert!(!board.sounds()[0].state());
    assert!(!board.sounds()[0].is_active());
    assert!(!board.sounds()[2].state());
    assert!(!board.sounds()[2].is_active());
    assert_eq!(board.dispatch(1, Event::Activate), Action::Clear);
    assert!(!board.sounds()[1].state());
    assert!(!board.sounds()[1].is_active());
}

#[test]
fn dispatch_out_of_range_does_nothing() {
    let mut board = three_clips();
    assert_eq!(board.dispatch(3, Event::Activate), Action::Idle);
    assert_eq!(board.dispatch(3, Event::SecondaryActivate), Action::Idle);
    assert_eq!(board.selected(), None);
    let mut empty = Board::new("s.ron".to_string(), None);
    assert_eq!(empty.dispatch(0, Event::SecondaryActivate), Action::Idle);
    assert_eq!(empty.selected(), None);
}

#[test]
fn sound_trigger_says_when_to_toggle_the_selection() {
    let mut sound = clip("a.wav", SoundKind::CutRetrigger);
    assert_eq!(
        Board::sound_trigger(&mut sound, Event::Activate),
        (Action::Restart(Stream::Once), false)
    );
    assert_eq!(Board::sound_trigger(&mut sound, Event::SecondaryActivate), (Action::Idle, true));
    assert_eq!(Board::sound_trigger(&mut sound, Event::HoldBegin), (Action::Idle, false));
    assert_eq!(sound.handle().queued(), 1);
}

#[test]
fn drained_empties_one_handle() {
    let mut board = three_clips();
    board.dispatch(1, Event::Activate);
    board.dispatch(2, Event::HoldBegin);
    board.drained(1);
    assert!(!board.sounds()[1].is_active());
    assert!(board.sounds()[1].state());
    assert!(board.sounds()[2].is_active());
    board.drained(7);
    assert!(board.sounds()[2].is_active());
    assert_eq!(board.dispatch(1, Event::Activate), Action::Restart(Stream::Once));
}

#[test]
fn replace_all_clears_the_selection() {
    let mut board = three_clips();
    board.dispatch(2, Event::SecondaryActivate);
    board.replace_all(vec![clip("x.wav", SoundKind::Fire)]);
    assert_eq!(paths(&board), vec!["x.wav"]);
    assert_eq!(board.selected(), None);
    assert_eq!(board.scene_path(), "scene.hibiki.ron");
}

#[test]
fn reload_that_failed_keeps_the_board() {
    let mut board = three_clips();
    board.dispatch(2, Event::SecondaryActivate);
    board.reload(None);
    assert_eq!(paths(&board), vec!["a.wav", "b.wav", "c.wav"]);
    assert_eq!(board.selected(), Some(2));
    board.reload(Some(vec![clip("x.wav", SoundKind::Fire)]));
    assert_eq!(paths(&board), vec!["x.wav"]);
    assert_eq!(board.selected(), None);
}

#[test]
fn open_moves_to_the_new_path_either_way() {
    let mut board = three_clips();
    board.dispatch(1, Event::SecondaryActivate);
    board.open("broken.hibiki.ron".to_string(), None);
    assert_eq!(board.scene_path(), "broken.hibiki.ron");
    assert_eq!(paths(&board), vec!["a.wav", "b.wav", "c.wav"]);
    assert_eq!(board.selected(), Some(1));
    board.open("other.hibiki.ron".to_string(), Some(Vec::new()));
    assert_eq!(board.scene_path(), "other.hibiki.ron");
    assert!(board.sounds().is_empty());
    assert_eq!(board.selected(), None);
}

#[test]
fn set_scene_path_keeps_clips_and_selection() {
    let mut board = three_clips();
    board.dispatch(1, Event::SecondaryActivate);
    board.set_scene_path("my_scene.hibiki.ron".to_string());
    assert_eq!(board.scene_path(), "my_scene.hibiki.ron");
    assert_eq!(board.selected(), Some(1));
    assert_eq!(board.sounds().len(), 3);
}

#[test]
fn selected_controller_mut_edits_the_selected_clip() {
    let mut board = three_clips();
    assert!(board.selected_controller_mut().is_none());
    board.dispatch(1, Event::SecondaryActivate);
    {
        let sound = board.selected_controller_mut().unwrap();
        assert_eq!(sound.source().path(), "b.wav");
        sound.set_volume(2500);
        sound.set_pan(-500);
        sound.set_color([9, 8, 7]);
        sound.set_kind(SoundKind::CutRetrigger);
    }
    assert_eq!(board.sounds()[1].volume(), 2500);
    assert_eq!(board.sounds()[1].pan(), -500);
    assert_eq!(board.sounds()[1].color(), [9, 8, 7]);
    assert_eq!(board.sounds()[1].kind(), SoundKind::CutRetrigger);
    assert_eq!(board.sounds()[0].volume(), 1000);
    assert_eq!(board.sounds()[2].volume(), 1000);
    assert_eq!(board.selected(), Some(1));
}
