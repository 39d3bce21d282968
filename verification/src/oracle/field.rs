//! The grammar of an oracle contact's text.
//!
//! The text is cut into pieces at its commas. The field of a key is the first
//! piece that, leading whitespace aside, starts with the key and a colon. Its
//! value is what follows the piece's first colon, with the whitespace at both
//! ends dropped.

use crate::text::{
    chars_of, find_char, first_index, lemma_first_index, lemma_first_index_unique,
    lemma_trim_start_is_suffix, skip_whitespace, skip_whitespace_back, starts_with, trim,
    trim_start,
};
use vstd::prelude::*;

verus! {

/// The label that opens the field of `key`: the key and a colon.
pub open spec fn label_of(key: Seq<char>) -> Seq<char> {
    key.push(':')
}

/// Whether `piece` is a field of `key`.
pub open spec fn carries_key(piece: Seq<char>, key: Seq<char>) -> bool {
    label_of(key).is_prefix_of(trim_start(piece))
}

/// The first comma-separated piece of `s` that is a field of `key`.
pub open spec fn field_piece(s: Seq<char>, key: Seq<char>) -> Option<Seq<char>>
    decreases s.len(),
{
    let end = first_index(s, ',');
    if carries_key(s.take(end), key) {
        Some(s.take(end))
    } else if 0 <= end < s.len() {
        field_piece(s.skip(end + 1), key)
    } else {
        None
    }
}

/// What follows the first colon of `piece`, where it holds one.
pub open spec fn value_portion(piece: Seq<char>) -> Option<Seq<char>> {
    let colon = first_index(piece, ':');
    if 0 <= colon < piece.len() {
        Some(piece.skip(colon + 1))
    } else {
        None
    }
}

/// What a text holds for a key.
pub ghost enum FieldText {
    /// No piece is a field of the key.
    Missing,
    /// The field of the key has no value portion.
    Malformed,
    /// The trimmed value portion of the field.
    Value(Seq<char>),
}

/// What `s` holds for `key`.
pub open spec fn field_text(s: Seq<char>, key: Seq<char>) -> FieldText {
    match field_piece(s, key) {
        None => FieldText::Missing,
        Some(piece) => match value_portion(piece) {
            None => FieldText::Malformed,
            Some(value) => FieldText::Value(trim(value)),
        },
    }
}

/// What a text holds for a key, with the value given by where it can be read
/// in the text.
#[derive(Clone, Copy, Debug, PartialEq, Eq, Structural)]
pub enum FieldSpan {
    /// No piece is a field of the key.
    Missing,
    /// The field of the key has no value portion.
    Malformed,
    /// The characters from `from` up to `to` read as the trimmed value
    /// portion.
    Value { from: usize, to: usize },
}

impl FieldSpan {
    /// Whether this span is within `s`.
    pub open spec fn within(&self, s: Seq<char>) -> bool {
        self matches FieldSpan::Value { from, to } ==> *from <= *to <= s.len()
    }

    /// What this span selects from `s`.
    pub open spec fn text_in(&self, s: Seq<char>) -> FieldText {
        match self {
            FieldSpan::Missing => FieldText::Missing,
            FieldSpan::Malformed => FieldText::Malformed,
            FieldSpan::Value { from, to } => FieldText::Value(s.subrange(*from as int, *to as int)),
        }
    }
}

/// The field of a key is a piece between commas that carries the key.
pub proof fn lemma_field_piece(s: Seq<char>, key: Seq<char>)
    ensures
        field_piece(s, key) matches Some(piece) ==> carries_key(piece, key) && !piece.contains(','),
    decreases s.len(),
{
    let end = first_index(s, ',');
    lemma_first_index(s, ',');
    if carries_key(s.take(end), key) {
        assert forall|k: int| 0 <= k < s.take(end).len() implies s.take(end)[k] != ',' by {}
    } else if 0 <= end < s.len() {
        lemma_field_piece(s.skip(end + 1), key);
    }
}

/// A text whose first piece carries the key has that piece as the field,
/// whatever follows it.
pub proof fn lemma_field_piece_first(piece: Seq<char>, rest: Seq<char>, key: Seq<char>)
    requires
        !piece.contains(','),
        carries_key(piece, key),
    ensures
        field_piece(piece, key) == Some(piece),
        field_piece(piece + seq![','] + rest, key) == Some(piece),
{
    let s = piece + seq![','] + rest;
    assert forall|k: int| 0 <= k < piece.len() implies s[k] != ',' by {
        assert(s[k] == piece[k]);
    }
    lemma_first_index_unique(s, ',', piece.len() as int);
    assert(s.take(piece.len() as int) == piece);
    assert forall|k: int| 0 <= k < piece.len() implies piece[k] != ',' by {}
    lemma_first_index_unique(piece, ',', piece.len() as int);
    assert(piece.take(piece.len() as int) == piece);
}

/// A piece that does not carry the key is passed over: the field is looked
/// for in what follows the piece's comma, and there is none where nothing
/// follows.
pub proof fn lemma_field_piece_later(piece: Seq<char>, rest: Seq<char>, key: Seq<char>)
    requires
        !piece.contains(','),
        !carries_key(piece, key),
    ensures
        field_piece(piece, key) is None,
        field_piece(piece + seq![','] + rest, key) == field_piece(rest, key),
{
    let s = piece + seq![','] + rest;
    assert forall|k: int| 0 <= k < piece.len() implies s[k] != ',' && piece[k] != ',' by {
        assert(s[k] == piece[k]);
    }
    lemma_first_index_unique(s, ',', piece.len() as int);
    assert(s.take(piece.len() as int) == piece);
    assert(s.skip(piece.len() as int + 1) == rest);
    lemma_first_index_unique(piece, ',', piece.len() as int);
    assert(piece.take(piece.len() as int) == piece);
}

/// A field of a key holds a colon, so it has a value portion: no text is
/// malformed for any key.
pub proof fn lemma_field_has_value(s: Seq<char>, key: Seq<char>)
    ensures
        field_text(s, key) != FieldText::Malformed,
    decreases s.len(),
{
    let end = first_index(s, ',');
    lemma_first_index(s, ',');
    let piece = s.take(end);
    if carries_key(piece, key) {
        lemma_trim_start_is_suffix(piece);
        let rest = trim_start(piece);
        let label = rest.subrange(0, label_of(key).len() as int);
        let at = piece.len() - rest.len() + key.len();
        assert(label[key.len() as int] == rest[key.len() as int]);
        assert(piece[at] == ':');
        lemma_first_index(piece, ':');
    } else if 0 <= end < s.len() {
        lemma_field_has_value(s.skip(end + 1), key);
    }
}

/// Finds what `chars` holds for `key`: a stretch of `chars` that reads as the
/// trimmed value of the field, where there is one.
pub fn locate_field(chars: &Vec<char>, key: &str) -> (span: FieldSpan)
    ensures
        span.within(chars@),
        span.text_in(chars@) == field_text(chars@, key@),
{
    let mut label = chars_of(key);
    label.push(':');
    let n = chars.len();
    let mut from: usize = 0;
    assert(chars@.skip(0) == chars@);
    loop
        invariant
            from <= n == chars.len(),
            label@ == label_of(key@),
            field_piece(chars@.skip(from as int), key@) == field_piece(chars@, key@),
        decreases n - from,
    {
        let ghost rest = chars@.skip(from as int);
        let end = find_char(chars, ',', from, n);
        let start = skip_whitespace(chars, from, end);
        assert(rest.take(end - from) == chars@.subrange(from as int, end as int));
        if starts_with(chars, start, end, &label) {
            let colon = find_char(chars, ':', from, end);
            if colon == end {
                return FieldSpan::Malformed;
            }
            let value_from = skip_whitespace(chars, colon + 1, end);
            let value_to = skip_whitespace_back(chars, value_from, end);
            assert(chars@.subrange(from as int, end as int).skip(colon - from + 1)
                == chars@.subrange(colon + 1, end as int));
            return FieldSpan::Value { from: value_from, to: value_to };
        }
        if end == n {
            return FieldSpan::Missing;
        }
        assert(rest.skip(end - from + 1) == chars@.skip(end + 1));
        from = end + 1;
    }
}

} // verus!
