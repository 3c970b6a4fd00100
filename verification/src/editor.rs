//! The one-line text field in which the user types the folder of a playlist,
//! with a cursor counted in characters.

use vstd::prelude::*;
use vstd::string::*;
use vstd::utf8::*;

verus! {

broadcast use vstd::utf8::group_utf8_lib;

/// The UTF-8 encoding of a concatenation is the concatenation of the encodings.
pub proof fn lemma_encode_utf8_concat(a: Seq<char>, b: Seq<char>)
    ensures
        encode_utf8(a + b) == encode_utf8(a) + encode_utf8(b),
    decreases a.len(),
{
    if a.len() == 0 {
        assert(a + b =~= b);
        assert(encode_utf8(a) + encode_utf8(b) =~= encode_utf8(b));
    } else {
        assert((a + b).drop_first() =~= a.drop_first() + b);
        lemma_encode_utf8_concat(a.drop_first(), b);
        assert((a + b)[0] == a[0]);
        assert(encode_utf8(a + b) =~= encode_utf8(a) + encode_utf8(b));
    }
}

/// Every character takes at least one byte.
pub proof fn lemma_encode_utf8_len(s: Seq<char>)
    ensures
        s.len() <= encode_utf8(s).len(),
    decreases s.len(),
{
    if s.len() > 0 {
        lemma_encode_utf8_len(s.drop_first());
    }
}

/// The end of the encoding of a prefix is a character boundary of the whole encoding.
pub proof fn lemma_prefix_is_char_boundary(a: Seq<char>, b: Seq<char>)
    ensures
        is_char_boundary(encode_utf8(a + b), encode_utf8(a).len() as int),
    decreases a.len(),
{
    if a.len() > 0 {
        let s = a + b;
        let bytes = encode_utf8(s);
        encode_utf8_first_scalar(s);
        assert(s[0] == a[0]);
        assert(s.drop_first() =~= a.drop_first() + b);
        assert(pop_first_scalar(bytes) =~= encode_utf8(s.drop_first()));
        lemma_encode_utf8_concat(a, b);
        lemma_encode_utf8_concat(a.drop_first(), b);
        lemma_prefix_is_char_boundary(a.drop_first(), b);
    }
}

/// `String::insert`: inserts `ch` at byte position `idx` of the string, which
/// must be a character boundary (it panics otherwise). The length of a
/// `String` in bytes is a `usize`.
#[verifier::external_body]
fn insert_char(s: &mut String, idx: usize, ch: char)
    requires
        is_char_boundary(encode_utf8(old(s)@), idx as int),
    ensures
        encode_utf8(final(s)@) == encode_utf8(old(s)@).take(idx as int) + encode_utf8(seq![ch])
            + encode_utf8(old(s)@).skip(idx as int),
        encode_utf8(final(s)@).len() <= usize::MAX,
{
    s.insert(idx, ch)
}

/// The text typed so far and the cursor, a position between characters.
pub struct InputLine {
    text: String,
    char_index: usize,
}

impl View for InputLine {
    /// The characters of the text, and the number of characters left of the cursor.
    type V = (Seq<char>, nat);

    closed spec fn view(&self) -> (Seq<char>, nat) {
        (self.text@, self.char_index as nat)
    }
}

/// The position `pos` brought within `0 ..= len`.
pub open spec fn clamp_to(pos: int, len: nat) -> nat {
    if pos < 0 {
        0
    } else if pos > len {
        len
    } else {
        pos as nat
    }
}

/// The text without its `k`-th character (counting from 1), for `1 <= k <= text.len()`.
pub open spec fn remove_before(text: Seq<char>, k: nat) -> Seq<char> {
    text.take(k - 1) + text.skip(k as int)
}

impl InputLine {
    #[verifier::type_invariant]
    spec fn inv(self) -> bool {
        &&& self.char_index <= self.text@.len()
        &&& encode_utf8(self.text@).len() <= usize::MAX
    }

    /// An empty field with the cursor at its start.
    pub fn new() -> (r: Self)
        ensures
            r@.0 == Seq::<char>::empty(),
            r@.1 == 0,
    {
        InputLine { text: String::new(), char_index: 0 }
    }

    /// The text typed so far.
    pub fn text(&self) -> (r: &str)
        ensures
            r@ == self@.0,
            encode_utf8(self@.0).len() <= usize::MAX,
    {
        proof {
            use_type_invariant(self);
        }
        self.text.as_str()
    }

    /// The number of characters left of the cursor.
    pub fn char_index(&self) -> (r: usize)
        ensures
            r == self@.1,
            r <= self@.0.len(),
    {
        proof {
            use_type_invariant(self);
        }
        self.char_index
    }

    /// `new_cursor_pos` brought within `0 ..= n`, where `n` is the number of
    /// characters of the text.
    pub fn clamp_cursor(&self, new_cursor_pos: usize) -> (r: usize)
        ensures
            r == clamp_to(new_cursor_pos as int, self@.0.len()),
    {
        let n = self.text.as_str().unicode_len();
        if new_cursor_pos > n {
            n
        } else {
            new_cursor_pos
        }
    }

    /// Moves the cursor one character to the left, unless it is at the start.
    pub fn move_cursor_left(&mut self)
        ensures
            final(self)@.0 == old(self)@.0,
            final(self)@.1 == clamp_to(old(self)@.1 - 1, old(self)@.0.len()),
    {
        proof {
            use_type_invariant(&*self);
        }
        let cursor_moved_left = self.char_index.saturating_sub(1);
        self.char_index = self.clamp_cursor(cursor_moved_left);
    }

    /// Moves the cursor one character to the right, unless it is at the end.
    pub fn move_cursor_right(&mut self)
        ensures
            final(self)@.0 == old(self)@.0,
            final(self)@.1 == clamp_to(old(self)@.1 + 1int, old(self)@.0.len()),
    {
        proof {
            use_type_invariant(&*self);
            lemma_encode_utf8_len(self.text@);
        }
        let cursor_moved_right = self.char_index.saturating_add(1);
        self.char_index = self.clamp_cursor(cursor_moved_right);
    }

    /// The position in bytes of the character under the cursor in the UTF-8
    /// text, or the length of the text in bytes when the cursor is at its end.
    pub fn byte_index(&self) -> (r: usize)
        ensures
            r == encode_utf8(self@.0.take(self@.1 as int)).len(),
    {
        proof {
            use_type_invariant(self);
            lemma_encode_utf8_concat(self.text@.take(self.char_index as int), self.text@.skip(self.char_index as int));
            assert(self.text@.take(self.char_index as int) + self.text@.skip(self.char_index as int) =~= self.text@);
        }
        let prefix = self.text.as_str().substring_char(0, self.char_index);
        assert(prefix@ =~= self.text@.take(self.char_index as int));
        prefix.len()
    }

    /// Inserts `new_char` at the cursor and moves the cursor past it.
    pub fn enter_char(&mut self, new_char: char)
        ensures
            final(self)@.0 == old(self)@.0.take(old(self)@.1 as int).push(new_char) + old(self)@.0.skip(
                old(self)@.1 as int,
            ),
            final(self)@.1 == old(self)@.1 + 1,
    {
        proof {
            use_type_invariant(&*self);
        }
        let index = self.byte_index();
        let ghost k = self.char_index as int;
        let ghost before = self.text@;
        let ghost head = before.take(k);
        let ghost tail = before.skip(k);
        proof {
            assert(head + tail =~= before);
            lemma_prefix_is_char_boundary(head, tail);
            lemma_encode_utf8_concat(head, tail);
            lemma_encode_utf8_concat(head, seq![new_char]);
            lemma_encode_utf8_concat(head.push(new_char), tail);
            assert(head + seq![new_char] =~= head.push(new_char));
        }
        let mut text = self.text.clone();
        insert_char(&mut text, index, new_char);
        proof {
            let e = encode_utf8(before);
            assert(e.take(index as int) =~= encode_utf8(head));
            assert(e.skip(index as int) =~= encode_utf8(tail));
            assert(encode_utf8(text@) =~= encode_utf8(head.push(new_char) + tail));
            assert(decode_utf8(encode_utf8(text@)) == text@);
            assert(decode_utf8(encode_utf8(head.push(new_char) + tail)) == head.push(new_char) + tail);
        }
        self.text = text;
        self.move_cursor_right();
    }

    /// Deletes the character left of the cursor and moves the cursor onto its
    /// place; does nothing when the cursor is at the start.
    pub fn delete_char(&mut self)
        ensures
            old(self)@.1 == 0 ==> final(self)@ == old(self)@,
            old(self)@.1 > 0 ==> final(self)@.0 == remove_before(old(self)@.0, old(self)@.1),
            old(self)@.1 > 0 ==> final(self)@.1 == old(self)@.1 - 1,
    {
        proof {
            use_type_invariant(&*self);
        }
        let is_not_cursor_leftmost = self.char_index != 0;
        if is_not_cursor_leftmost {
            let current_index = self.char_index;
            let from_left_to_current_index = current_index - 1;
            let n = self.text.as_str().unicode_len();
            let before_char_to_delete = self.text.as_str().substring_char(0, from_left_to_current_index);
            let after_char_to_delete = self.text.as_str().substring_char(current_index, n);
            let mut text = String::from_str(before_char_to_delete);
            text.append(after_char_to_delete);
            proof {
                let old_text = self.text@;
                let head = old_text.take(from_left_to_current_index as int);
                let mid = old_text.subrange(from_left_to_current_index as int, current_index as int);
                let tail = old_text.skip(current_index as int);
                assert(text@ =~= head + tail);
                assert(head + mid + tail =~= old_text);
                lemma_encode_utf8_concat(head, tail);
                lemma_encode_utf8_concat(head + mid, tail);
                lemma_encode_utf8_concat(head, mid);
            }
            *self = InputLine { text, char_index: from_left_to_current_index };
        }
    }
}

/// Deleting the character left of the cursor right after typing one gives
/// back the text as it was.
pub proof fn law_delete_undoes_enter(text: Seq<char>, k: nat, c: char)
    requires
        k <= text.len(),
    ensures
        remove_before(text.take(k as int).push(c) + text.skip(k as int), k + 1) == text,
{
    let typed = text.take(k as int).push(c) + text.skip(k as int);
    assert(typed.take(k as int) =~= text.take(k as int));
    assert(typed.skip(k + 1int) =~= text.skip(k as int));
    assert(text.take(k as int) + text.skip(k as int) =~= text);
}

} // verus!
