//! The message: the configured metadata fields of a record, as one line.

use crate::metadata::{trim, trimmed, value_text, value_to_string, MetadataRecord};
use crate::scroll::rotated;
use crate::text::{push_char, texts};
use crate::width::{display_width, visual_len};
use vstd::prelude::*;
use vstd::string::StringExecFns;

verus! {

/// What is shown for one field: the text of its value without the
/// whitespace around it. A field that the record lacks, whose value has no
/// text, or whose text is blank, is not shown.
pub open spec fn field_text(record: MetadataRecord, field: Seq<char>) -> Option<Seq<char>> {
    match record.value_of(field) {
        Some(value) => match value_text(value) {
            Some(text) => if trimmed(text).len() > 0 {
                Some(trimmed(text))
            } else {
                None
            },
            None => None,
        },
        None => None,
    }
}

/// The texts of the fields that are shown, in the order of `fields`.
pub open spec fn shown_parts(record: MetadataRecord, fields: Seq<String>) -> Seq<Seq<char>>
    decreases fields.len(),
{
    if fields.len() == 0 {
        Seq::empty()
    } else {
        let before = shown_parts(record, fields.drop_last());
        match field_text(record, fields.last()@) {
            Some(text) => before.push(text),
            None => before,
        }
    }
}

/// `parts` in a row, with `separator` between each two.
pub open spec fn joined(parts: Seq<Seq<char>>, separator: Seq<char>) -> Seq<char>
    decreases parts.len(),
{
    if parts.len() == 0 {
        Seq::empty()
    } else if parts.len() == 1 {
        parts[0]
    } else {
        joined(parts.drop_last(), separator) + separator + parts.last()
    }
}

/// A text that is `now` columns wide, framed for a window of `width`
/// columns: wider text gets one space in front and two behind, so that it
/// does not run into itself while it scrolls. Other text stays as it is.
pub open spec fn framed_at(text: Seq<char>, now: nat, width: nat) -> Seq<char> {
    if now > width {
        seq![' '] + text + seq![' ', ' ']
    } else {
        text
    }
}

/// `text` framed for a window of `width` columns.
pub open spec fn framed(text: Seq<char>, width: nat) -> Seq<char> {
    framed_at(text, display_width(text), width)
}

/// The message for a record.
pub open spec fn formatted(
    record: MetadataRecord,
    fields: Seq<String>,
    separator: Seq<char>,
    width: nat,
) -> Seq<char> {
    framed(joined(shown_parts(record, fields), separator), width)
}

/// The text shown for `field`, if it is shown.
pub fn field_to_string(record: &MetadataRecord, field: &str) -> (text: Option<String>)
    ensures
        match text {
            Some(t) => field_text(*record, field@) == Some(t@),
            None => field_text(*record, field@) is None,
        },
{
    match record.get(field) {
        Some(value) => match value_to_string(value) {
            Some(raw) => {
                let text = trim(raw.as_str());
                if !text.as_str().is_empty() {
                    Some(text)
                } else {
                    None
                }
            },
            None => None,
        },
        None => None,
    }
}

/// The texts of the fields of `record` that are shown, in the order of
/// `fields`.
pub fn shown_fields(record: &MetadataRecord, fields: &Vec<String>) -> (parts: Vec<String>)
    ensures
        texts(parts@) == shown_parts(*record, fields@),
{
    let mut parts: Vec<String> = Vec::new();
    let mut i: usize = 0;
    assert(fields@.take(0) =~= Seq::<String>::empty());
    assert(texts(parts@) =~= Seq::<Seq<char>>::empty());
    while i < fields.len()
        invariant
            i <= fields.len(),
            texts(parts@) == shown_parts(*record, fields@.take(i as int)),
        decreases fields.len() - i,
    {
        assert(fields@.take(i + 1).drop_last() =~= fields@.take(i as int));
        if let Some(part) = field_to_string(record, fields[i].as_str()) {
            let ghost before = parts@;
            parts.push(part);
            assert(texts(parts@) =~= texts(before).push(part@));
        }
        i += 1;
    }
    assert(fields@.take(i as int) =~= fields@);
    parts
}

/// `parts` in a row, with `separator` between each two.
pub fn join(parts: &Vec<String>, separator: &str) -> (out: String)
    ensures
        out@ == joined(texts(parts@), separator@),
{
    let mut out = String::new();
    let mut i: usize = 0;
    assert(texts(parts@).take(0) =~= Seq::<Seq<char>>::empty());
    while i < parts.len()
        invariant
            i <= parts.len(),
            out@ == joined(texts(parts@).take(i as int), separator@),
        decreases parts.len() - i,
    {
        assert(texts(parts@).take(i + 1).drop_last() =~= texts(parts@).take(i as int));
        if i > 0 {
            out.append(separator);
        }
        out.append(parts[i].as_str());
        assert(out@ =~= joined(texts(parts@).take(i + 1), separator@));
        i += 1;
    }
    assert(texts(parts@).take(i as int) =~= texts(parts@));
    out
}

/// Frames `text`, which is `now` columns wide, for a window of `width`
/// columns.
pub fn frame(text: String, now: usize, width: usize) -> (out: String)
    ensures
        out@ == framed_at(text@, now as nat, width as nat),
{
    if now > width {
        let mut out = String::new();
        push_char(&mut out, ' ');
        out.append(text.as_str());
        push_char(&mut out, ' ');
        push_char(&mut out, ' ');
        assert(out@ =~= seq![' '] + text@ + seq![' ', ' ']);
        out
    } else {
        text
    }
}

/// Builds the message: the shown fields of `record`, in the order of
/// `fields`, joined by `separator`, and framed by spaces when the result is
/// wider than `width_threshold` columns.
pub fn format(
    record: &MetadataRecord,
    fields: &Vec<String>,
    separator: &str,
    width_threshold: usize,
) -> (message: String)
    ensures
        message@ == formatted(*record, fields@, separator@, width_threshold as nat),
{
    let text = join(&shown_fields(record, fields), separator);
    let now: usize = visual_len(text.as_str());
    frame(text, now, width_threshold)
}

/// A record that has none of the configured fields gives the empty
/// message, whatever the separator and the width; and rotating the empty
/// message leaves it empty.
pub proof fn lemma_empty_record_formats_empty(
    record: MetadataRecord,
    fields: Seq<String>,
    separator: Seq<char>,
    width: nat,
)
    requires
        forall|i: int| 0 <= i < fields.len() ==> record.value_of(#[trigger] fields[i]@) is None,
    ensures
        formatted(record, fields, separator, width) == Seq::<char>::empty(),
        rotated(formatted(record, fields, separator, width)) == Seq::<char>::empty(),
    decreases fields.len(),
{
    lemma_nothing_shown(record, fields);
}

/// When the record has none of the fields, no part is shown.
proof fn lemma_nothing_shown(record: MetadataRecord, fields: Seq<String>)
    requires
        forall|i: int| 0 <= i < fields.len() ==> record.value_of(#[trigger] fields[i]@) is None,
    ensures
        shown_parts(record, fields).len() == 0,
    decreases fields.len(),
{
    if fields.len() > 0 {
        assert forall|i: int| 0 <= i < fields.drop_last().len() implies record.value_of(
            #[trigger] fields.drop_last()[i]@,
        ) is None by {
            assert(fields.drop_last()[i] == fields[i]);
        }
        lemma_nothing_shown(record, fields.drop_last());
        assert(fields.last() == fields[fields.len() - 1]);
    }
}

/// A message that was framed starts with the space that its first rotation
/// moves to the end.
pub proof fn lemma_first_rotation_of_framed(text: Seq<char>, width: nat)
    requires
        display_width(text) > width,
    ensures
        framed(text, width) == seq![' '] + text + seq![' ', ' '],
        rotated(framed(text, width)) == text + seq![' ', ' ', ' '],
{
    assert(rotated(seq![' '] + text + seq![' ', ' ']) =~= text + seq![' ', ' ', ' ']);
}

} // verus!
