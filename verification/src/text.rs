//! Cutting text at byte positions without splitting a character.

use vstd::prelude::*;
use vstd::string::StrSliceExecFns;
use vstd::string::StringSliceAdditionalSpecFns;
use vstd::utf8::decode_utf8;
use vstd::utf8::is_char_boundary;

verus! {

/// The last position at or before `max` at which `bytes`, the UTF-8 form of
/// a text, can be cut between two characters.
pub open spec fn cut_point(bytes: Seq<u8>, max: int) -> int
    decreases max,
{
    if max <= 0 {
        0
    } else if is_char_boundary(bytes, max) {
        max
    } else {
        cut_point(bytes, max - 1)
    }
}

/// The characters of the longest prefix of a text that takes at most `max`
/// bytes in UTF-8.
pub open spec fn prefix_within(text: Seq<char>, max: int) -> Seq<char> {
    let bytes = vstd::utf8::encode_utf8(text);
    if bytes.len() <= max {
        text
    } else {
        decode_utf8(bytes.subrange(0, cut_point(bytes, max)))
    }
}

/// Of a text in ASCII, every character takes one byte: the prefix within
/// `max` bytes is the first `max` characters.
pub proof fn lemma_prefix_within_ascii(text: Seq<char>, max: int)
    requires
        vstd::utf8::is_ascii_chars(text),
        0 <= max,
    ensures
        vstd::utf8::encode_utf8(text).len() == text.len(),
        prefix_within(text, max) == (if text.len() <= max {
            text
        } else {
            text.take(max)
        }),
{
    let bytes = vstd::utf8::encode_utf8(text);
    vstd::utf8::is_ascii_chars_encode_utf8(text);
    if text.len() > max {
        vstd::utf8::encode_utf8_valid_utf8(text);
        if max > 0 {
            assert(bytes[max] == text[max] as u8);
            assert(!vstd::utf8::is_continuation_byte(bytes[max]));
            vstd::utf8::is_char_boundary_iff_not_is_continuation_byte(bytes, max);
        }
        assert(cut_point(bytes, max) == max);
        let head = text.take(max);
        assert(vstd::utf8::is_ascii_chars(head));
        vstd::utf8::is_ascii_chars_encode_utf8(head);
        assert(vstd::utf8::encode_utf8(head) =~= bytes.subrange(0, max));
        vstd::utf8::encode_utf8_decode_utf8(head);
    }
}

/// The longest prefix of `s` that takes at most `max` bytes.
pub fn byte_prefix<'a>(s: &'a str, max: usize) -> (head: &'a str)
    ensures
        head@ == prefix_within(s@, max as int),
{
    if s.as_bytes().len() <= max {
        return s;
    }
    let ghost bytes = s.spec_bytes();
    proof {
        vstd::utf8::encode_utf8_valid_utf8(s@);
    }
    let mut cut = max;
    while cut > 0 && !s.is_char_boundary(cut)
        invariant
            cut <= max,
            bytes == s.spec_bytes(),
            cut_point(bytes, cut as int) == cut_point(bytes, max as int),
        decreases cut,
    {
        cut = cut - 1;
    }
    proof {
        vstd::utf8::is_char_boundary_start_end_of_seq(bytes);
    }
    let (head, _) = s.split_at(cut);
    proof {
        vstd::utf8::encode_utf8_decode_utf8(head@);
        assert(head.spec_bytes() == bytes.subrange(0, cut as int));
    }
    head
}

/// The characters of a text before the first occurrence of `stop`; all of
/// them if `stop` does not occur.
pub open spec fn before_first(text: Seq<char>, stop: char) -> Seq<char>
    decreases text.len(),
{
    if text.len() == 0 || text[0] == stop {
        Seq::empty()
    } else {
        seq![text[0]] + before_first(text.drop_first(), stop)
    }
}

/// How many characters stand before the first `stop`.
pub open spec fn position_of(text: Seq<char>, stop: char) -> int
    decreases text.len(),
{
    if text.len() == 0 || text[0] == stop {
        0
    } else {
        1 + position_of(text.drop_first(), stop)
    }
}

/// `before_first` is the prefix of the length that `position_of` gives, and
/// that prefix holds no `stop`.
pub proof fn lemma_before_first(text: Seq<char>, stop: char)
    ensures
        0 <= position_of(text, stop) <= text.len(),
        before_first(text, stop) == text.take(position_of(text, stop)),
        forall|i: int| 0 <= i < position_of(text, stop) ==> text[i] != stop,
        position_of(text, stop) < text.len() ==> text[position_of(text, stop)] == stop,
    decreases text.len(),
{
    if text.len() == 0 || text[0] == stop {
        assert(text.take(0) =~= Seq::<char>::empty());
    } else {
        let rest = text.drop_first();
        lemma_before_first(rest, stop);
        let p = position_of(rest, stop);
        assert(text.take(p + 1) =~= seq![text[0]] + rest.take(p));
        assert forall|i: int| 0 <= i < p + 1 implies text[i] != stop by {
            if i > 0 {
                assert(text[i] == rest[i - 1]);
            }
        }
        if p < rest.len() {
            assert(text[p + 1] == rest[p]);
        }
    }
}

/// The part of `s` before the first `stop`.
pub fn first_segment<'a>(s: &'a str, stop: char) -> (head: &'a str)
    ensures
        head@ == before_first(s@, stop),
{
    let n = s.unicode_len();
    let mut i: usize = 0;
    while i < n && s.get_char(i) != stop
        invariant
            i <= n,
            n == s@.len(),
            forall|j: int| 0 <= j < i ==> s@[j] != stop,
        decreases n - i,
    {
        i = i + 1;
    }
    proof {
        lemma_before_first(s@, stop);
        let p = position_of(s@, stop);
        if p < i {
            assert(s@[p] == stop);
        }
        if i < p {
            assert(s@[i as int] != stop);
        }
    }
    s.substring_char(0, i)
}

} // verus!
