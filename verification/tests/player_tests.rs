use msc_player::player::{Action, InputMode, Key, MscState, Playback, Player, ScrollState};

fn text_frame(id: &[u8; 4], text: &str) -> Vec<u8> {
    let mut f = Vec::new();
    f.extend_from_slice(id);
    f.extend_from_slice(&((text.len() + 1) as u32).to_be_bytes());
    f.extend_from_slice(&[0, 0, 0]);
    f.extend_from_slice(text.as_bytes());
    f
}

/// An MP3 file titled `title`: an ID3v2.3 tag, then ten silent MPEG frames.
fn mp3(title: &str) -> Vec<u8> {
    let frames = text_frame(b"TIT2", title);
    let n = frames.len() as u32;
    let mut out = b"ID3".to_vec();
    out.extend_from_slice(&[3, 0, 0, 0, 0, ((n >> 7) & 0x7f) as u8, (n & 0x7f) as u8]);
    out.extend(frames);
    for _ in 0..10 {
        out.extend_from_slice(&[0xFF, 0xFB, 0x90, 0x00]);
        out.extend(std::iter::repeat(0u8).take(413));
    }
    out
}

fn type_text(p: &mut Player, s: &str) {
    for c in s.chars() {
        p.handle_key_event(Key::Char(c));
    }
}

fn loaded_player() -> Player {
    let mut p = Player::new();
    let files = vec![mp3("One"), b"junk".to_vec(), mp3("Two"), mp3("Three")];
    let accepted = p.submit_message(&files);
    assert_eq!(accepted, vec![0, 2, 3]);
    let restart = p.restart_the_current_msc(Some(&files[accepted[0]]));
    assert!(restart);
    p
}

#[test]
fn duratio_test() {
    let mut d = Player::new();
    d.handle_key_event(Key::Tab);
    type_text(&mut d, "/home/icaro_s/hybridtheory2000/2000 - Hybrid Theory (Special Edition)");
    assert_eq!(d.input.text(), "/home/icaro_s/hybridtheory2000/2000 - Hybrid Theory (Special Edition)");
    // The folder is not on this machine: reading it gives no file.
    let files: Vec<Vec<u8>> = Vec::new();
    d.submit_message(&files);
    d.restart_the_current_msc(None);
    println!("{}", d.msc_time);
    println!("{}", d.current_msc_time);
    assert_eq!(d.msc_time, 0);
    assert_eq!(d.current_msc_time, 0);
}

#[test]
fn new_player_defaults() {
    let p = Player::new();
    assert_eq!(p.input_mode, InputMode::Normal);
    assert_eq!(p.msc_state, MscState::Paused);
    assert_eq!(p.scroll_state_window, ScrollState::Deactivated);
    assert_eq!(p.vertical_scroll, 1);
    assert!(p.play_list_vec.is_empty());
    assert!(!p.exit);
}

#[test]
fn q_exits() {
    let mut p = Player::new();
    assert_eq!(p.handle_key_event(Key::Char('q')), Action::Nothing);
    assert!(p.exit);
}

#[test]
fn tab_cycles_modes() {
    let mut p = Player::new();
    p.handle_key_event(Key::Tab);
    assert_eq!(p.input_mode, InputMode::Editing);
    p.handle_key_event(Key::Tab);
    assert_eq!(p.input_mode, InputMode::Normal);
    assert_eq!(p.scroll_state_window, ScrollState::Activated);
    p.handle_key_event(Key::Tab);
    assert_eq!(p.scroll_state_window, ScrollState::Deactivated);
}

#[test]
fn editing_keys_edit_the_field() {
    let mut p = Player::new();
    p.handle_key_event(Key::Tab);
    type_text(&mut p, "abc");
    p.handle_key_event(Key::Left);
    p.handle_key_event(Key::Backspace);
    assert_eq!(p.input.text(), "ac");
    p.handle_key_event(Key::Right);
    type_text(&mut p, "q ");
    assert_eq!(p.input.text(), "acq ");
    assert!(!p.exit);
    assert_eq!(p.handle_key_event(Key::Enter), Action::Submit);
}

#[test]
fn arrows_change_volume_in_normal_mode() {
    let mut p = Player::new();
    assert_eq!(p.handle_key_event(Key::Up), Action::VolumeUp);
    assert_eq!(p.handle_key_event(Key::Down), Action::VolumeDown);
}

#[test]
fn arrows_scroll_when_scroll_is_active() {
    let mut p = Player::new();
    p.handle_key_event(Key::Tab);
    p.handle_key_event(Key::Tab);
    assert_eq!(p.handle_key_event(Key::Up), Action::ScrollMoved);
    assert_eq!(p.vertical_scroll, 0);
    assert_eq!(p.handle_key_event(Key::Up), Action::ScrollMoved);
    assert_eq!(p.vertical_scroll, 0);
    p.handle_key_event(Key::Down);
    p.handle_key_event(Key::Down);
    assert_eq!(p.vertical_scroll, 2);
}

#[test]
fn space_toggles_play_pause() {
    let mut p = Player::new();
    assert_eq!(p.handle_key_event(Key::Char(' ')), Action::Playback(Playback::Play));
    assert_eq!(p.msc_state, MscState::Playing);
    assert_eq!(p.handle_key_event(Key::Char(' ')), Action::Playback(Playback::Pause));
    assert_eq!(p.msc_state, MscState::Paused);
}

#[test]
fn first_play_of_opened_track_starts_it() {
    let mut p = Player::new();
    p.has_current_msc = true;
    assert_eq!(p.toggle_play_pause(), Playback::StartAndPlay);
    assert!(p.msc_is_loaded);
    p.toggle_play_pause();
    assert_eq!(p.toggle_play_pause(), Playback::Play);
}

#[test]
fn submit_loads_playlist_and_first_track() {
    let p = loaded_player();
    assert_eq!(p.play_list_vec, vec!["1. One".to_string(), "2. Two".to_string(), "3. Three".to_string()]);
    assert_eq!(p.file_count, 3);
    assert_eq!(p.current_file_msc_index, 0);
    assert!(p.has_current_msc);
    assert!(p.msc_is_loaded);
    assert_eq!(p.current_mcs_infor, vec!["One".to_string(), String::new(), String::new()]);
    assert!(p.msc_time > 0);
    assert_eq!(p.current_msc_time, 0);
}

#[test]
fn p_and_n_move_between_tracks() {
    let mut p = loaded_player();
    p.msc_state = MscState::Playing;
    assert_eq!(p.handle_key_event(Key::Char('n')), Action::Nothing);
    assert_eq!(p.handle_key_event(Key::Char('p')), Action::TrackChanged);
    assert_eq!(p.current_file_msc_index, 1);
    assert_eq!(p.msc_state, MscState::Paused);
    assert_eq!(p.current_track(), Some(1));
    p.handle_key_event(Key::Char('p'));
    assert_eq!(p.handle_key_event(Key::Char('p')), Action::Nothing);
    assert_eq!(p.current_file_msc_index, 2);
    assert_eq!(p.handle_key_event(Key::Char('n')), Action::TrackChanged);
    assert_eq!(p.current_file_msc_index, 1);
}

#[test]
fn restart_past_the_files_clears_track() {
    let mut p = Player::new();
    p.has_current_msc = true;
    p.current_mcs_infor = vec!["x".to_string()];
    assert!(!p.restart_the_current_msc(None));
    assert!(!p.has_current_msc);
    assert!(p.current_mcs_infor.is_empty());
}

#[test]
fn restart_of_unreadable_file_changes_nothing() {
    let mut p = loaded_player();
    p.current_msc_time = 500;
    assert!(!p.restart_the_current_msc(None));
    assert_eq!(p.current_msc_time, 500);
    assert!(p.has_current_msc);
}

#[test]
fn time_advances_only_while_playing() {
    let mut p = Player::new();
    p.msc_time = 10_000;
    let mut last: i64 = 1_000;
    p.advance_msc_time(&mut last, 1_500);
    assert_eq!(p.current_msc_time, 0);
    assert_eq!(last, 1_500);
    p.msc_state = MscState::Playing;
    p.advance_msc_time(&mut last, 2_250);
    assert_eq!(p.current_msc_time, 750);
    assert_eq!(last, 2_250);
}

#[test]
fn time_stops_at_end_of_track() {
    let mut p = Player::new();
    p.msc_state = MscState::Playing;
    p.msc_time = 100;
    p.current_msc_time = 100;
    let mut last: i64 = 5;
    p.advance_msc_time(&mut last, 50);
    assert_eq!(p.current_msc_time, 100);
    assert_eq!(last, 5);
}

#[test]
fn update_reads_the_clock() {
    let mut p = Player::new();
    let mut last: i64 = 0;
    assert!(p.update_msc_time(&mut last));
    assert!(last > 0);
    p.msc_state = MscState::Playing;
    p.msc_time = u128::MAX;
    p.current_msc_time = u128::MAX - 1;
    let mut old: i64 = 0;
    assert!(!p.update_msc_time(&mut old));
    assert_eq!(old, 0);
    assert_eq!(p.current_msc_time, u128::MAX - 1);
}

#[test]
fn restart_twice_from_same_file_is_the_same() {
    let files = vec![mp3("Only")];
    let mut p = Player::new();
    p.submit_message(&files);
    p.restart_the_current_msc(Some(&files[0]));
    let (info, time, elapsed) = (p.current_mcs_infor.clone(), p.msc_time, p.current_msc_time);
    p.restart_the_current_msc(Some(&files[0]));
    assert_eq!(p.current_mcs_infor, info);
    assert_eq!(p.msc_time, time);
    assert_eq!(p.current_msc_time, elapsed);
}

#[test]
fn backspace_undoes_typing_in_the_field() {
    let mut p = Player::new();
    p.handle_key_event(Key::Tab);
    type_text(&mut p, "rock");
    p.handle_key_event(Key::Left);
    p.handle_key_event(Key::Char('x'));
    p.handle_key_event(Key::Backspace);
    assert_eq!(p.input.text(), "rock");
    assert_eq!(p.input.char_index(), 3);
}

#[test]
fn submit_of_folder_without_music_clears_track() {
    let mut p = loaded_player();
    let accepted = p.submit_message(&vec![b"not music".to_vec()]);
    assert!(accepted.is_empty());
    assert!(p.play_list_vec.is_empty());
    assert_eq!(p.file_count, 0);
    assert_eq!(p.msc_time, 0);
    assert!(!p.restart_the_current_msc(None));
    assert!(!p.has_current_msc);
    assert!(p.current_mcs_infor.is_empty());
}
