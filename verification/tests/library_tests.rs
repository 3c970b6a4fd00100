use msc_player::library::{
    check_msc_file_type, get_msc_duration, get_msc_information, msc_files_list,
    number_titles, playlist_msc_names, tagged_file_msc_list, AudioFormat,
};

fn text_frame(id: &[u8; 4], text: &str) -> Vec<u8> {
    let mut f = Vec::new();
    f.extend_from_slice(id);
    let size = (text.len() + 1) as u32;
    f.extend_from_slice(&size.to_be_bytes());
    f.extend_from_slice(&[0, 0, 0]);
    f.extend_from_slice(text.as_bytes());
    f
}

/// An MP3 file: an ID3v2.3 tag with the given frames, then ten silent
/// MPEG-1 layer III frames at 128 kbit/s and 44.1 kHz.
fn mp3(title: Option<&str>, artist: Option<&str>, album: Option<&str>) -> Vec<u8> {
    let mut frames = Vec::new();
    if let Some(t) = title {
        frames.extend(text_frame(b"TIT2", t));
    }
    if let Some(a) = artist {
        frames.extend(text_frame(b"TPE1", a));
    }
    if let Some(a) = album {
        frames.extend(text_frame(b"TALB", a));
    }
    let mut out = Vec::new();
    if !frames.is_empty() {
        let n = frames.len() as u32;
        out.extend_from_slice(b"ID3");
        out.extend_from_slice(&[3, 0, 0]);
        out.extend_from_slice(&[
            ((n >> 21) & 0x7f) as u8,
            ((n >> 14) & 0x7f) as u8,
            ((n >> 7) & 0x7f) as u8,
            (n & 0x7f) as u8,
        ]);
        out.extend(frames);
    }
    for _ in 0..10 {
        out.extend_from_slice(&[0xFF, 0xFB, 0x90, 0x00]);
        out.extend(std::iter::repeat(0u8).take(413));
    }
    out
}

/// A WAV file of a few silent samples: read by `lofty`, but not music the
/// player plays.
fn wav() -> Vec<u8> {
    let data_len: u32 = 16;
    let mut out = Vec::new();
    out.extend_from_slice(b"RIFF");
    out.extend_from_slice(&(36 + data_len).to_le_bytes());
    out.extend_from_slice(b"WAVE");
    out.extend_from_slice(b"fmt ");
    out.extend_from_slice(&16u32.to_le_bytes());
    out.extend_from_slice(&1u16.to_le_bytes());
    out.extend_from_slice(&1u16.to_le_bytes());
    out.extend_from_slice(&8000u32.to_le_bytes());
    out.extend_from_slice(&16000u32.to_le_bytes());
    out.extend_from_slice(&2u16.to_le_bytes());
    out.extend_from_slice(&16u16.to_le_bytes());
    out.extend_from_slice(b"data");
    out.extend_from_slice(&data_len.to_le_bytes());
    out.extend(std::iter::repeat(0u8).take(data_len as usize));
    out
}

fn garbage() -> Vec<u8> {
    b"this is not an audio file at all".to_vec()
}

#[test]
fn mp3_is_music() {
    assert!(check_msc_file_type(&mp3(Some("Papercut"), None, None)));
}

#[test]
fn wav_and_garbage_are_not_music() {
    assert!(!check_msc_file_type(&wav()));
    assert!(!check_msc_file_type(&garbage()));
    assert!(!check_msc_file_type(&[]));
}

#[test]
fn duration_of_unreadable_file_is_zero() {
    assert_eq!(get_msc_duration(&garbage()), 0);
}

#[test]
fn duration_of_mp3_is_read() {
    let d = get_msc_duration(&mp3(Some("Papercut"), None, None));
    assert!(d > 0 && d < 1000, "duration {}", d);
}

#[test]
fn information_lists_title_artist_album() {
    let info = get_msc_information(&mp3(Some("Papercut"), Some("Linkin Park"), Some("Hybrid Theory")));
    assert_eq!(info, vec!["Papercut".to_string(), "Linkin Park".to_string(), "Hybrid Theory".to_string()]);
}

#[test]
fn information_fills_missing_values_with_empty_text() {
    let info = get_msc_information(&mp3(Some("One Step Closer"), None, None));
    assert_eq!(info, vec!["One Step Closer".to_string(), String::new(), String::new()]);
}

#[test]
fn information_of_untagged_or_unreadable_file_is_empty() {
    assert!(get_msc_information(&mp3(None, None, None)).is_empty());
    assert!(get_msc_information(&garbage()).is_empty());
}

#[test]
fn files_list_keeps_positions_of_music() {
    let files = vec![garbage(), mp3(Some("A"), None, None), wav(), mp3(None, None, None)];
    assert_eq!(msc_files_list(&files), vec![1, 3]);
}

#[test]
fn tagged_list_skips_unreadable_files() {
    let a = mp3(Some("A"), Some("B"), None);
    let w = wav();
    let g = garbage();
    let files: Vec<&[u8]> = vec![&a, &g, &w];
    let tags = tagged_file_msc_list(&files);
    assert_eq!(tags.len(), 2);
    assert_eq!(tags[0].format, AudioFormat::Mpeg);
    assert_eq!(tags[1].format, AudioFormat::Wav);
    let t = tags[0].tag.as_ref().unwrap();
    assert_eq!(t.title.as_deref(), Some("A"));
    assert_eq!(t.artist.as_deref(), Some("B"));
    assert_eq!(t.album, None);
}

#[test]
fn titles_are_numbered_from_one() {
    let titles = vec!["Papercut".to_string(), "Crawling".to_string()];
    assert_eq!(number_titles(&titles), vec!["1. Papercut".to_string(), "2. Crawling".to_string()]);
}

#[test]
fn tenth_title_has_two_digits() {
    let titles: Vec<String> = (0..10).map(|i| format!("t{}", i)).collect();
    assert_eq!(number_titles(&titles)[9], "10. t9");
}

#[test]
fn playlist_names_only_titled_music() {
    let files = vec![
        mp3(Some("Papercut"), Some("Linkin Park"), None),
        wav(),
        mp3(None, None, None),
        garbage(),
        mp3(Some("Crawling"), None, Some("Hybrid Theory")),
        mp3(None, Some("No Title"), None),
    ];
    assert_eq!(
        playlist_msc_names(&files),
        vec!["1. Papercut".to_string(), "2. Crawling".to_string()]
    );
}

#[test]
fn playlist_of_empty_folder_is_empty() {
    assert!(playlist_msc_names(&Vec::new()).is_empty());
}
