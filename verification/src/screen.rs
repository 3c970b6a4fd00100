//! The text of the player's panels: the playing and total time, the progress
//! line between them, the playlist with the current track marked, the track
//! information, the playback status, and where the typing cursor stands.

use vstd::prelude::*;
use vstd::string::*;
use crate::player::MscState;
use crate::text::{decimal, decimal_string, push_char};

verus! {

/// `n` in decimal, with a leading `0` when it has a single digit.
pub open spec fn two_digits(n: nat) -> Seq<char> {
    if n < 10 {
        seq!['0'] + decimal(n)
    } else {
        decimal(n)
    }
}

/// A time in milliseconds as `minutes:seconds`, the minutes not bounded and
/// the seconds below 60, each with at least two digits.
pub open spec fn clock(ms: nat) -> Seq<char> {
    two_digits(ms / 60_000) + seq![':'] + two_digits((ms / 1000) % 60)
}

/// Writes `n` in decimal with at least two digits.
pub fn two_digit_string(n: u128) -> (s: String)
    ensures
        s@ == two_digits(n as nat),
{
    let digits = decimal_string(n);
    if n < 10 {
        let mut s = String::new();
        push_char(&mut s, '0');
        s.append(digits.as_str());
        assert(s@ =~= seq!['0'] + decimal(n as nat));
        s
    } else {
        digits
    }
}

/// Writes a time in milliseconds as `minutes:seconds`.
pub fn clock_text(ms: u128) -> (s: String)
    ensures
        s@ == clock(ms as nat),
{
    let mut s = two_digit_string(ms / 60_000);
    push_char(&mut s, ':');
    let seconds = two_digit_string((ms / 1_000) % 60);
    s.append(seconds.as_str());
    assert(s@ =~= clock(ms as nat));
    s
}

/// The number of marks of the progress line.
pub const TIMELINE_MARKS: usize = 40;

/// The progress line: `-` at each of its marks but an `o` at `marker`.
pub open spec fn progress_bar(marker: int) -> Seq<char> {
    Seq::new(TIMELINE_MARKS as nat, |i: int| if i == marker { 'o' } else { '-' })
}

/// The timeline panel: the time played, the progress line with its `o` at
/// `marker`, and the duration of the track.
pub open spec fn timeline(current_ms: nat, total_ms: nat, marker: int) -> Seq<char> {
    clock(current_ms) + seq![' '] + progress_bar(marker) + seq![' '] + clock(total_ms)
}

/// The text of the timeline panel. `marker` is the mark the time played
/// reaches, which the caller computes from the two times.
pub fn timeline_text(current_ms: u128, total_ms: u128, marker: i32) -> (s: String)
    ensures
        s@ == timeline(current_ms as nat, total_ms as nat, marker as int),
{
    let mut timeline_str = clock_text(current_ms);
    push_char(&mut timeline_str, ' ');
    let ghost head = timeline_str@;
    let mut i: usize = 0;
    while i < TIMELINE_MARKS
        invariant
            i <= TIMELINE_MARKS,
            timeline_str@ == head + progress_bar(marker as int).take(i as int),
        decreases TIMELINE_MARKS - i,
    {
        if i as i32 == marker {
            push_char(&mut timeline_str, 'o');
        } else {
            push_char(&mut timeline_str, '-');
        }
        assert(progress_bar(marker as int).take(i + 1) =~= progress_bar(marker as int).take(
            i as int,
        ).push(progress_bar(marker as int)[i as int]));
        i = i + 1;
    }
    assert(progress_bar(marker as int).take(TIMELINE_MARKS as int) =~= progress_bar(marker as int));
    push_char(&mut timeline_str, ' ');
    let total = clock_text(total_ms);
    timeline_str.append(total.as_str());
    assert(timeline_str@ =~= timeline(current_ms as nat, total_ms as nat, marker as int));
    timeline_str
}

/// A playlist line: `"> "` before the current track, two spaces before the others.
pub open spec fn playlist_line(name: Seq<char>, is_current: bool) -> Seq<char> {
    if is_current {
        seq!['>', ' '] + name
    } else {
        seq![' ', ' '] + name
    }
}

/// The lines of the playlist panel, the track at `current` marked.
pub fn playlist_lines(names: &Vec<String>, current: usize) -> (r: Vec<String>)
    ensures
        r.len() == names.len(),
        forall|i: int|
            0 <= i < names.len() ==> #[trigger] r[i]@ == playlist_line(names[i]@, i == current),
{
    let mut r: Vec<String> = Vec::new();
    let n = names.len();
    for i in 0..n
        invariant
            n == names.len(),
            r.len() == i,
            forall|j: int| 0 <= j < i ==> #[trigger] r[j]@ == playlist_line(names[j]@, j == current),
    {
        let mut line = String::new();
        if i != current {
            push_char(&mut line, ' ');
            push_char(&mut line, ' ');
        } else {
            push_char(&mut line, '>');
            push_char(&mut line, ' ');
        }
        line.append(names[i].as_str());
        assert(line@ =~= playlist_line(names[i as int]@, i == current));
        r.push(line);
    }
    r
}

/// The label of line `i` of the info panel.
pub open spec fn info_label(i: int) -> Seq<char> {
    if i == 0 {
        "S o n g :  "@
    } else if i == 1 {
        "A r t i s t :  "@
    } else {
        "A l b u m :  "@
    }
}

/// The three lines of the info panel: each label followed by the matching
/// piece of information, when there is one.
pub fn info_lines(information: &Vec<String>) -> (r: Vec<String>)
    ensures
        r.len() == 3,
        forall|i: int|
            0 <= i < 3 ==> #[trigger] r[i]@ == info_label(i) + (if i < information.len() {
                information[i]@
            } else {
                Seq::empty()
            }),
{
    let mut information_text: Vec<String> = Vec::new();
    information_text.push(String::from_str("S o n g :  "));
    information_text.push(String::from_str("A r t i s t :  "));
    information_text.push(String::from_str("A l b u m :  "));
    let n = information.len();
    let mut index: usize = 0;
    while index < n && index < 3
        invariant
            n == information.len(),
            index <= 3,
            index <= n,
            information_text.len() == 3,
            forall|i: int|
                0 <= i < 3 ==> #[trigger] information_text[i]@ == info_label(i) + (if i < index {
                    information[i]@
                } else {
                    Seq::empty()
                }),
        decreases 3 - index,
    {
        let mut line = information_text[index].clone();
        line.append(information[index].as_str());
        information_text.set(index, line);
        index = index + 1;
    }
    assert forall|i: int| 0 <= i < 3 implies #[trigger] information_text[i]@ == info_label(i) + (
    if i < information.len() {
        information[i]@
    } else {
        Seq::empty()
    }) by {
        if i >= index {
            assert(index >= n);
        }
    }
    information_text
}

/// The position of the typing cursor on screen: one column right of the left
/// border of the input panel plus the characters before it (the count taken
/// modulo 2^16), one row below its top.
pub fn cursor_position(area_x: u16, area_y: u16, char_index: usize) -> (r: (u16, u16))
    requires
        area_x + (char_index as u16) + 1 <= u16::MAX,
        area_y + 1 <= u16::MAX,
    ensures
        r.0 == area_x + (char_index as u16) + 1,
        r.1 == area_y + 1,
{
    (area_x + char_index as u16 + 1, area_y + 1)
}

/// The status shown in the info panel.
pub open spec fn status_label(state: MscState) -> Seq<char> {
    match state {
        MscState::Paused => "[ STATUS : PAUSED ]"@,
        MscState::Playing => "[ STATUS : PLAYING ]"@,
    }
}

/// The playback status, as the info panel writes it before the volume.
pub fn status_text(state: MscState) -> (r: String)
    ensures
        r@ == status_label(state),
{
    match state {
        MscState::Paused => String::from_str("[ STATUS : PAUSED ]"),
        MscState::Playing => String::from_str("[ STATUS : PLAYING ]"),
    }
}

/// The progress line always has its forty marks, and its `o` stands exactly
/// at `marker` when that is one of them.
pub proof fn law_progress_bar_marks(marker: int)
    ensures
        progress_bar(marker).len() == 40,
        forall|i: int| 0 <= i < 40 ==> (#[trigger] progress_bar(marker)[i] == 'o' <==> i == marker),
{
}

/// A time is written with at least two digits of minutes, a colon, and two
/// digits of seconds.
pub proof fn law_clock_shape(ms: nat)
    ensures
        clock(ms).len() >= 5,
        clock(ms)[clock(ms).len() - 3] == ':',
{
    lemma_two_digits_len(ms / 60_000);
    lemma_two_digits_len((ms / 1000) % 60);
    lemma_decimal_len((ms / 1000) % 60);
}

proof fn lemma_decimal_len(n: nat)
    ensures
        decimal(n).len() >= 1,
        n >= 10 ==> decimal(n).len() >= 2,
        n < 10 ==> decimal(n).len() == 1,
        10 <= n < 100 ==> decimal(n).len() == 2,
    decreases n,
{
    if n >= 10 {
        lemma_decimal_len(n / 10);
    }
}

proof fn lemma_two_digits_len(n: nat)
    ensures
        two_digits(n).len() >= 2,
        n < 100 ==> two_digits(n).len() == 2,
{
    lemma_decimal_len(n);
}

} // verus!
