//! The playlist of a folder: which of its files are music, how long each
//! lasts, what its primary tag says, and the numbered list of titles that
//! the player shows. Reading the tags is the work of `lofty`, here on the
//! bytes of each file.

use vstd::prelude::*;
use vstd::string::*;
use crate::text::{decimal, decimal_string};
use lofty::file::{AudioFile, FileType, TaggedFileExt};
use lofty::probe::Probe;
use lofty::tag::Accessor;
use std::io::Cursor;

verus! {

/// The container formats that `lofty` recognises.
#[derive(Clone, Copy, Debug, PartialEq, Eq, Structural)]
pub enum AudioFormat {
    Aac,
    Aiff,
    Ape,
    Flac,
    Mpeg,
    Mp4,
    Mpc,
    Opus,
    Vorbis,
    Speex,
    Wav,
    WavPack,
    Other,
}

/// The title, artist and album of a primary tag, each present or not.
pub struct TagText {
    pub title: Option<String>,
    pub artist: Option<String>,
    pub album: Option<String>,
}

impl DeepView for TagText {
    type V = (Option<Seq<char>>, Option<Seq<char>>, Option<Seq<char>>);

    open spec fn deep_view(&self) -> Self::V {
        (self.title.deep_view(), self.artist.deep_view(), self.album.deep_view())
    }
}

/// What the player keeps of a file that `lofty` could read.
pub struct TrackTags {
    pub format: AudioFormat,
    pub duration_ms: u128,
    pub tag: Option<TagText>,
}

impl DeepView for TrackTags {
    type V = (AudioFormat, u128, Option<(Option<Seq<char>>, Option<Seq<char>>, Option<Seq<char>>)>);

    open spec fn deep_view(&self) -> Self::V {
        (self.format, self.duration_ms, self.tag.deep_view())
    }
}

/// Whether `lofty` recognises the format of these bytes and reads them as a
/// file of that format. Like the three names below, this depends on the
/// bytes alone under `lofty`'s default global options and with no custom
/// file type registered, which is how this program uses it: nothing here
/// changes those options or registers a resolver.
pub uninterp spec fn lofty_reads(bytes: Seq<u8>) -> bool;

/// The format `lofty` reads these bytes as.
pub uninterp spec fn lofty_file_type(bytes: Seq<u8>) -> AudioFormat;

/// The duration in milliseconds of the audio `lofty` reads in these bytes.
pub uninterp spec fn lofty_duration_ms(bytes: Seq<u8>) -> u128;

/// The title, artist and album of the primary tag `lofty` reads in these
/// bytes, or `None` when the file has no primary tag.
pub uninterp spec fn lofty_primary_tag(bytes: Seq<u8>) -> Option<
    (Option<Seq<char>>, Option<Seq<char>>, Option<Seq<char>>),
>;

/// `lofty::probe::Probe::guess_file_type` then `Probe::read` on the bytes,
/// and `TaggedFile::file_type` of the result: `None` when either step
/// fails, else the format, one variant of `AudioFormat` for each of
/// `lofty::file::FileType` (`Other` for a custom one).
#[verifier::external_body]
fn read_file_type(bytes: &[u8]) -> (r: Option<AudioFormat>)
    ensures
        r is Some <==> lofty_reads(bytes@),
        r matches Some(f) ==> f == lofty_file_type(bytes@),
{
    let file = Probe::new(Cursor::new(bytes)).guess_file_type().ok()?.read().ok()?;
    Some(match file.file_type() {
        FileType::Aac => AudioFormat::Aac, FileType::Aiff => AudioFormat::Aiff,
        FileType::Ape => AudioFormat::Ape, FileType::Flac => AudioFormat::Flac,
        FileType::Mpeg => AudioFormat::Mpeg, FileType::Mp4 => AudioFormat::Mp4,
        FileType::Mpc => AudioFormat::Mpc, FileType::Opus => AudioFormat::Opus,
        FileType::Vorbis => AudioFormat::Vorbis, FileType::Speex => AudioFormat::Speex,
        FileType::Wav => AudioFormat::Wav, FileType::WavPack => AudioFormat::WavPack,
        _ => AudioFormat::Other,
    })
}

/// The same reading as `read_file_type`, then the duration of the file's
/// properties in whole milliseconds (`Duration::as_millis`).
#[verifier::external_body]
fn read_duration_ms(bytes: &[u8]) -> (r: Option<u128>)
    ensures
        r is Some <==> lofty_reads(bytes@),
        r matches Some(d) ==> d == lofty_duration_ms(bytes@),
{
    let file = Probe::new(Cursor::new(bytes)).guess_file_type().ok()?.read().ok()?;
    Some(file.properties().duration().as_millis())
}

/// The same reading as `read_file_type`, then `TaggedFile::primary_tag`
/// and, of that tag, the `Accessor` values `title`, `artist` and `album`
/// made into owned strings.
#[verifier::external_body]
fn read_primary_tag(bytes: &[u8]) -> (r: Option<Option<TagText>>)
    ensures
        r is Some <==> lofty_reads(bytes@),
        r matches Some(t) ==> t.deep_view() == lofty_primary_tag(bytes@),
{
    let file = Probe::new(Cursor::new(bytes)).guess_file_type().ok()?.read().ok()?;
    Some(file.primary_tag().map(|t| TagText {
        title: t.title().map(|s| s.into_owned()),
        artist: t.artist().map(|s| s.into_owned()),
        album: t.album().map(|s| s.into_owned()),
    }))
}

/// The formats the player plays: MP3 (MPEG audio) and MP4.
pub open spec fn is_music_format(f: AudioFormat) -> bool {
    f == AudioFormat::Mp4 || f == AudioFormat::Mpeg
}

/// A file the player accepts: `lofty` reads it, in one of the music formats.
pub open spec fn is_music_file(bytes: Seq<u8>) -> bool {
    lofty_reads(bytes) && is_music_format(lofty_file_type(bytes))
}

/// Whether the file is one the player accepts: an MP3 or MP4 file.
pub fn check_msc_file_type(bytes: &[u8]) -> (r: bool)
    ensures
        r == is_music_file(bytes@),
{
    match read_file_type(bytes) {
        Some(AudioFormat::Mp4) | Some(AudioFormat::Mpeg) => true,
        _ => false,
    }
}

/// The duration of the file, or 0 when `lofty` cannot read it.
pub open spec fn track_duration(bytes: Seq<u8>) -> u128 {
    if lofty_reads(bytes) {
        lofty_duration_ms(bytes)
    } else {
        0
    }
}

/// The duration of the track in milliseconds; 0 when it cannot be read.
pub fn get_msc_duration(bytes: &[u8]) -> (r: u128)
    ensures
        r == track_duration(bytes@),
{
    let mut time: u128 = 0;
    if let Some(d) = read_duration_ms(bytes) {
        time = d;
    }
    time
}

/// The text of an optional tag value, the empty text when it is missing.
pub open spec fn or_empty(s: Option<Seq<char>>) -> Seq<char> {
    match s {
        Some(t) => t,
        None => Seq::empty(),
    }
}

/// Title, artist and album of the primary tag, a missing one as the empty
/// text; nothing when the file cannot be read or has no primary tag.
pub open spec fn track_information(bytes: Seq<u8>) -> Seq<Seq<char>> {
    if lofty_reads(bytes) {
        match lofty_primary_tag(bytes) {
            Some(tag) => seq![or_empty(tag.0), or_empty(tag.1), or_empty(tag.2)],
            None => seq![],
        }
    } else {
        seq![]
    }
}

fn string_or_empty(s: Option<String>) -> (r: String)
    ensures
        r@ == or_empty(s.deep_view()),
{
    match s {
        Some(t) => t,
        None => String::new(),
    }
}

/// Title, artist and album of the current track, as the info panel lists them.
pub fn get_msc_information(bytes: &[u8]) -> (r: Vec<String>)
    ensures
        r.deep_view() == track_information(bytes@),
{
    let mut information_vec: Vec<String> = Vec::new();
    if let Some(Some(tag)) = read_primary_tag(bytes) {
        information_vec.push(string_or_empty(tag.title));
        information_vec.push(string_or_empty(tag.artist));
        information_vec.push(string_or_empty(tag.album));
    }
    information_vec
}

/// The positions, in order, of the files the player accepts.
pub open spec fn music_file_indices(files: Seq<Seq<u8>>) -> Seq<int>
    decreases files.len(),
{
    if files.len() == 0 {
        seq![]
    } else {
        let rest = music_file_indices(files.drop_last());
        if is_music_file(files.last()) {
            rest.push(files.len() - 1)
        } else {
            rest
        }
    }
}

/// The positions of the files the player accepts, given the contents of the
/// files of a folder in the order they are listed.
pub fn msc_files_list(files: &Vec<Vec<u8>>) -> (r: Vec<usize>)
    ensures
        r@.map_values(|j: usize| j as int) == music_file_indices(files.deep_view()),
{
    let mut r: Vec<usize> = Vec::new();
    let n = files.len();
    for i in 0..n
        invariant
            n == files.len(),
            r@.map_values(|j: usize| j as int) == music_file_indices(files.deep_view().take(i as int)),
    {
        proof {
            assert(files.deep_view().take(i + 1).drop_last() =~= files.deep_view().take(i as int));
            assert(files.deep_view().take(i + 1).last() == files[i as int]@);
        }
        if check_msc_file_type(files[i].as_slice()) {
            r.push(i);
        }
        assert(r@.map_values(|j: usize| j as int) =~= music_file_indices(files.deep_view().take(i + 1)));
    }
    assert(files.deep_view().take(n as int) =~= files.deep_view());
    r
}

/// What `lofty` reads in each file it can read, in order: format, duration
/// and primary tag.
pub open spec fn parsed_tracks(files: Seq<Seq<u8>>) -> Seq<
    (AudioFormat, u128, Option<(Option<Seq<char>>, Option<Seq<char>>, Option<Seq<char>>)>),
>
    decreases files.len(),
{
    if files.len() == 0 {
        seq![]
    } else {
        let rest = parsed_tracks(files.drop_last());
        let b = files.last();
        if lofty_reads(b) {
            rest.push((lofty_file_type(b), lofty_duration_ms(b), lofty_primary_tag(b)))
        } else {
            rest
        }
    }
}

/// The tags of the files that `lofty` can read; the others are left out.
pub fn tagged_file_msc_list(files: &Vec<&[u8]>) -> (r: Vec<TrackTags>)
    ensures
        r.deep_view() == parsed_tracks(files.deep_view()),
{
    let mut r: Vec<TrackTags> = Vec::new();
    let n = files.len();
    for i in 0..n
        invariant
            n == files.len(),
            r.deep_view() == parsed_tracks(files.deep_view().take(i as int)),
    {
        proof {
            assert(files.deep_view().take(i + 1).drop_last() =~= files.deep_view().take(i as int));
            assert(files.deep_view().take(i + 1).last() == files[i as int]@);
        }
        let bytes = files[i];
        let format = read_file_type(bytes);
        let duration = read_duration_ms(bytes);
        let tag = read_primary_tag(bytes);
        let ghost before = r.deep_view();
        match (format, duration, tag) {
            (Some(format), Some(duration_ms), Some(tag)) => {
                r.push(TrackTags { format, duration_ms, tag });
                assert(r.deep_view() =~= before.push((format, duration_ms, tag.deep_view())));
            },
            _ => {},
        }
        assert(r.deep_view() =~= parsed_tracks(files.deep_view().take(i + 1)));
    }
    assert(files.deep_view().take(n as int) =~= files.deep_view());
    r
}

/// The files the player accepts, in order.
pub open spec fn music_files(files: Seq<Seq<u8>>) -> Seq<Seq<u8>> {
    music_file_indices(files).map_values(|j: int| files[j])
}

/// The titles of the tracks whose primary tag has one, in order.
pub open spec fn tag_titles(
    tracks: Seq<(AudioFormat, u128, Option<(Option<Seq<char>>, Option<Seq<char>>, Option<Seq<char>>)>)>,
) -> Seq<Seq<char>>
    decreases tracks.len(),
{
    if tracks.len() == 0 {
        seq![]
    } else {
        let rest = tag_titles(tracks.drop_last());
        match tracks.last().2 {
            Some(tag) => match tag.0 {
                Some(title) => rest.push(title),
                None => rest,
            },
            None => rest,
        }
    }
}

/// The titles of the playlist of a folder: those of the accepted files that
/// `lofty` reads with a titled primary tag.
pub open spec fn playlist_titles(files: Seq<Seq<u8>>) -> Seq<Seq<char>> {
    tag_titles(parsed_tracks(music_files(files)))
}

/// The entry that shows `title` at place `n` of the playlist: `"n. title"`.
pub open spec fn playlist_entry(n: nat, title: Seq<char>) -> Seq<char> {
    decimal(n) + seq!['.', ' '] + title
}

/// The titles numbered from 1.
pub open spec fn numbered(titles: Seq<Seq<char>>) -> Seq<Seq<char>> {
    Seq::new(titles.len(), |i: int| playlist_entry((i + 1) as nat, titles[i]))
}

/// Numbers the titles from 1, as `"1. first"`, `"2. second"`, ...
pub fn number_titles(titles: &Vec<String>) -> (r: Vec<String>)
    ensures
        r.deep_view() == numbered(titles.deep_view()),
{
    let mut r: Vec<String> = Vec::new();
    let n = titles.len();
    for i in 0..n
        invariant
            n == titles.len(),
            r.deep_view() == numbered(titles.deep_view().take(i as int)),
    {
        let mut entry = decimal_string((i as u128) + 1);
        entry.append(". ");
        entry.append(titles[i].as_str());
        proof {
            reveal_strlit(". ");
            assert(". "@ =~= seq!['.', ' ']);
            assert(entry@ =~= playlist_entry((i + 1) as nat, titles.deep_view()[i as int]));
        }
        let ghost before = r.deep_view();
        r.push(entry);
        assert(r.deep_view() =~= before.push(entry@));
        assert(r.deep_view() =~= numbered(titles.deep_view().take(i + 1)));
    }
    assert(titles.deep_view().take(n as int) =~= titles.deep_view());
    r
}

/// The numbered titles of the playlist of a folder, given the contents of
/// its files in the order they are listed.
pub fn playlist_msc_names(files: &Vec<Vec<u8>>) -> (r: Vec<String>)
    ensures
        r.deep_view() == numbered(playlist_titles(files.deep_view())),
{
    let indices = msc_files_list(files);
    let ghost wanted = music_files(files.deep_view());
    let mut music: Vec<&[u8]> = Vec::new();
    let m = indices.len();
    assert(indices@.map_values(|j: usize| j as int).len() == m);
    for k in 0..m
        invariant
            m == indices.len(),
            indices@.map_values(|j: usize| j as int) == music_file_indices(files.deep_view()),
            wanted == music_files(files.deep_view()),
            wanted.len() == m,
            music.deep_view() == wanted.take(k as int),
    {
        proof {
            assert(indices@.map_values(|j: usize| j as int)[k as int] == indices[k as int] as int);
            lemma_music_indices_in_range(files.deep_view(), k as int);
        }
        let slice = files[indices[k]].as_slice();
        let ghost before = music.deep_view();
        music.push(slice);
        proof {
            assert(slice.deep_view() =~= files.deep_view()[indices[k as int] as int]);
            assert(music.deep_view() =~= before.push(slice.deep_view()));
            assert(wanted[k as int] == files.deep_view()[indices[k as int] as int]);
            assert(wanted.take(k + 1) =~= wanted.take(k as int).push(wanted[k as int]));
        }
        assert(music.deep_view() =~= wanted.take(k + 1));
    }
    assert(wanted.take(m as int) =~= wanted);
    let tagged = tagged_file_msc_list(&music);
    let mut files_names: Vec<String> = Vec::new();
    let t = tagged.len();
    for i in 0..t
        invariant
            t == tagged.len(),
            files_names.deep_view() == tag_titles(tagged.deep_view().take(i as int)),
    {
        proof {
            assert(tagged.deep_view().take(i + 1).drop_last() =~= tagged.deep_view().take(i as int));
            assert(tagged.deep_view().take(i + 1).last() == tagged[i as int].deep_view());
        }
        let ghost before = files_names.deep_view();
        if let Some(tag) = &tagged[i].tag {
            if let Some(title) = &tag.title {
                files_names.push(title.clone());
                assert(files_names.deep_view() =~= before.push(title@));
            }
        }
        assert(files_names.deep_view() =~= tag_titles(tagged.deep_view().take(i + 1)));
    }
    assert(tagged.deep_view().take(t as int) =~= tagged.deep_view());
    number_titles(&files_names)
}

/// Every position `music_file_indices` lists is a position of the files.
pub proof fn lemma_music_indices_in_range(files: Seq<Seq<u8>>, k: int)
    requires
        0 <= k < music_file_indices(files).len(),
    ensures
        0 <= music_file_indices(files)[k] < files.len(),
    decreases files.len(),
{
    let rest = music_file_indices(files.drop_last());
    if k < rest.len() {
        lemma_music_indices_in_range(files.drop_last(), k);
    }
}

/// Each playlist entry stands for a distinct accepted file: the playlist has
/// at most as many entries as the folder has accepted files.
pub proof fn law_playlist_within_music_files(files: Seq<Seq<u8>>)
    ensures
        numbered(playlist_titles(files)).len() <= music_file_indices(files).len(),
{
    lemma_tag_titles_len(parsed_tracks(music_files(files)));
    lemma_parsed_tracks_len(music_files(files));
}

proof fn lemma_tag_titles_len(
    tracks: Seq<(AudioFormat, u128, Option<(Option<Seq<char>>, Option<Seq<char>>, Option<Seq<char>>)>)>,
)
    ensures
        tag_titles(tracks).len() <= tracks.len(),
    decreases tracks.len(),
{
    if tracks.len() > 0 {
        lemma_tag_titles_len(tracks.drop_last());
    }
}

proof fn lemma_parsed_tracks_len(files: Seq<Seq<u8>>)
    ensures
        parsed_tracks(files).len() <= files.len(),
    decreases files.len(),
{
    if files.len() > 0 {
        lemma_parsed_tracks_len(files.drop_last());
    }
}

/// A file is accepted as music exactly when `lofty` reads it as MP3 (MPEG
/// audio) or as MP4.
pub proof fn law_music_is_mp3_or_mp4(bytes: Seq<u8>)
    ensures
        is_music_file(bytes) <==> (lofty_reads(bytes) && (lofty_file_type(bytes) == AudioFormat::Mp4
            || lofty_file_type(bytes) == AudioFormat::Mpeg)),
{
}

/// The file list holds exactly the positions of the files `lofty` reads as
/// MP3 or MP4, and no position outside the folder.
pub proof fn law_files_list_is_mp3_and_mp4(files: Seq<Seq<u8>>, j: int)
    ensures
        0 <= j < files.len() ==> (music_file_indices(files).contains(j) <==> (lofty_reads(files[j])
            && (lofty_file_type(files[j]) == AudioFormat::Mp4 || lofty_file_type(files[j])
            == AudioFormat::Mpeg))),
        !(0 <= j < files.len()) ==> !music_file_indices(files).contains(j),
    decreases files.len(),
{
    if files.len() > 0 {
        let n = files.len() - 1;
        let rest_files = files.drop_last();
        let rest = music_file_indices(rest_files);
        law_files_list_is_mp3_and_mp4(rest_files, j);
        if 0 <= j < n {
            assert(rest_files[j] == files[j]);
        }
        if rest.contains(n) {
            let k = choose|k: int| 0 <= k < rest.len() && rest[k] == n;
            lemma_music_indices_in_range(rest_files, k);
        }
        if is_music_file(files.last()) {
            let all = rest.push(n);
            assert(music_file_indices(files) == all);
            if all.contains(j) {
                let k = choose|k: int| 0 <= k < all.len() && all[k] == j;
                if k < rest.len() {
                    assert(rest[k] == j);
                }
            }
            if j == n {
                assert(all[rest.len() as int] == j);
            }
            if rest.contains(j) {
                let k = choose|k: int| 0 <= k < rest.len() && rest[k] == j;
                assert(all[k] == j);
            }
        } else {
            assert(music_file_indices(files) == rest);
        }
    } else {
        assert(music_file_indices(files) =~= Seq::<int>::empty());
    }
}

/// The duration of a file `lofty` reads is its duration in whole
/// milliseconds; that of a file it cannot read is 0.
pub proof fn law_duration_is_lofty_duration(bytes: Seq<u8>)
    ensures
        lofty_reads(bytes) ==> track_duration(bytes) == lofty_duration_ms(bytes),
        !lofty_reads(bytes) ==> track_duration(bytes) == 0,
{
}

/// The information of a file whose primary tag `lofty` reads has three
/// entries, title, artist and album, each the tag's value or the empty text
/// when the tag has none; without a readable primary tag there is none.
pub proof fn law_information_is_title_artist_album(bytes: Seq<u8>)
    ensures
        lofty_reads(bytes) && lofty_primary_tag(bytes) is Some ==> {
            let tag = lofty_primary_tag(bytes)->0;
            let info = track_information(bytes);
            &&& info.len() == 3
            &&& (tag.0 matches Some(title) ==> info[0] == title)
            &&& (tag.0 is None ==> info[0] == Seq::<char>::empty())
            &&& (tag.1 matches Some(artist) ==> info[1] == artist)
            &&& (tag.1 is None ==> info[1] == Seq::<char>::empty())
            &&& (tag.2 matches Some(album) ==> info[2] == album)
            &&& (tag.2 is None ==> info[2] == Seq::<char>::empty())
        },
        !(lofty_reads(bytes) && lofty_primary_tag(bytes) is Some) ==> track_information(bytes).len()
            == 0,
{
}

} // verus!
