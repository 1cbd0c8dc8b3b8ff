//! Track metadata: the values a player reports, and their text.

use crate::decimal::{decimal, signed_decimal, signed_to_string, unsigned_to_string};
use crate::text::{push_char, same_text, to_chars};
use vstd::prelude::*;
use vstd::string::StringExecFns;

verus! {

/// One value of a metadata record.
///
/// A floating-point value is carried as its text, in `Str`. A value of any
/// kind that has no text form is `Unsupported`.
#[derive(Debug)]
pub enum MetadataValue {
    U8(u8),
    U16(u16),
    U32(u32),
    U64(u64),
    I16(i16),
    I32(i32),
    I64(i64),
    Bool(bool),
    Str(String),
    Array(Vec<MetadataValue>),
    Unsupported,
}

/// The text of a value that is not an array. Arrays and unsupported values
/// have none.
pub open spec fn scalar_text(value: MetadataValue) -> Option<Seq<char>> {
    match value {
        MetadataValue::U8(x) => Some(decimal(x as nat)),
        MetadataValue::U16(x) => Some(decimal(x as nat)),
        MetadataValue::U32(x) => Some(decimal(x as nat)),
        MetadataValue::U64(x) => Some(decimal(x as nat)),
        MetadataValue::I16(x) => Some(signed_decimal(x as int)),
        MetadataValue::I32(x) => Some(signed_decimal(x as int)),
        MetadataValue::I64(x) => Some(signed_decimal(x as int)),
        MetadataValue::Bool(b) => Some(
            if b {
                "true"@
            } else {
                "false"@
            },
        ),
        MetadataValue::Str(s) => Some(s@),
        MetadataValue::Array(_) => None,
        MetadataValue::Unsupported => None,
    }
}

/// The text of a value. An array stands for its first element, which must
/// not be an array itself; an empty array has no text.
pub open spec fn value_text(value: MetadataValue) -> Option<Seq<char>> {
    match value {
        MetadataValue::Array(items) => if items.len() > 0 {
            scalar_text(items[0])
        } else {
            None
        },
        _ => scalar_text(value),
    }
}

fn scalar_to_string(value: &MetadataValue) -> (text: Option<String>)
    ensures
        match text {
            Some(t) => scalar_text(*value) == Some(t@),
            None => scalar_text(*value) is None,
        },
{
    match value {
        MetadataValue::U8(x) => Some(unsigned_to_string(*x as u64)),
        MetadataValue::U16(x) => Some(unsigned_to_string(*x as u64)),
        MetadataValue::U32(x) => Some(unsigned_to_string(*x as u64)),
        MetadataValue::U64(x) => Some(unsigned_to_string(*x)),
        MetadataValue::I16(x) => Some(signed_to_string(*x as i64)),
        MetadataValue::I32(x) => Some(signed_to_string(*x as i64)),
        MetadataValue::I64(x) => Some(signed_to_string(*x)),
        MetadataValue::Bool(b) => Some(
            if *b {
                String::from_str("true")
            } else {
                String::from_str("false")
            },
        ),
        MetadataValue::Str(s) => Some(s.clone()),
        MetadataValue::Array(_) => None,
        MetadataValue::Unsupported => None,
    }
}

/// The text of `value`, or `None` when it has no text form.
pub fn value_to_string(value: &MetadataValue) -> (text: Option<String>)
    ensures
        match text {
            Some(t) => value_text(*value) == Some(t@),
            None => value_text(*value) is None,
        },
{
    match value {
        MetadataValue::Array(items) => {
            if items.len() > 0 {
                scalar_to_string(&items[0])
            } else {
                None
            }
        },
        _ => scalar_to_string(value),
    }
}

/// The value of the first entry of `entries` whose key is `key`.
pub open spec fn lookup(entries: Seq<(String, MetadataValue)>, key: Seq<char>) -> Option<
    MetadataValue,
>
    decreases entries.len(),
{
    if entries.len() == 0 {
        None
    } else if entries[0].0@ == key {
        Some(entries[0].1)
    } else {
        lookup(entries.drop_first(), key)
    }
}

/// What a player reports about the current track: values by field name.
///
/// The record is a list of entries, read from the front: a field has the
/// value of the first entry that carries its name.
#[derive(Debug)]
pub struct MetadataRecord {
    pub entries: Vec<(String, MetadataValue)>,
}

impl MetadataRecord {
    /// The value of `field`, if the record has one.
    pub open spec fn value_of(self, field: Seq<char>) -> Option<MetadataValue> {
        lookup(self.entries@, field)
    }

    /// A record without fields.
    pub fn new() -> (record: MetadataRecord)
        ensures
            record.entries@.len() == 0,
            forall|field: Seq<char>| record.value_of(field) is None,
    {
        MetadataRecord { entries: Vec::new() }
    }

    /// Gives `field` the value `value`, in place of the value it had, if
    /// any. Every other field keeps its value.
    pub fn insert(&mut self, field: String, value: MetadataValue)
        ensures
            forall|other: Seq<char>|
                #[trigger] final(self).value_of(other) == if other == field@ {
                    Some(value)
                } else {
                    old(self).value_of(other)
                },
    {
        let mut i: usize = 0;
        assert(self.entries@.skip(0) =~= self.entries@);
        while i < self.entries.len()
            invariant
                i <= self.entries.len(),
                *self == *old(self),
                forall|k: int| 0 <= k < i ==> (#[trigger] self.entries@[k]).0@ != field@,
            decreases self.entries.len() - i,
        {
            if same_text(self.entries[i].0.as_str(), field.as_str()) {
                self.entries.set(i, (field, value));
                proof {
                    assert forall|other: Seq<char>|
                        #[trigger] self.value_of(other) == if other == field@ {
                            Some(value)
                        } else {
                            old(self).value_of(other)
                        } by {
                        lemma_lookup_after_set(old(self).entries@, i as int, (field, value), other);
                    }
                }
                return ;
            }
            i += 1;
        }
        self.entries.push((field, value));
        proof {
            assert forall|other: Seq<char>|
                #[trigger] self.value_of(other) == if other == field@ {
                    Some(value)
                } else {
                    old(self).value_of(other)
                } by {
                lemma_lookup_after_push(old(self).entries@, (field, value), other);
            }
        }
    }

    /// The value of `field`, if the record has one.
    pub fn get(&self, field: &str) -> (value: Option<&MetadataValue>)
        ensures
            match value {
                Some(v) => self.value_of(field@) == Some(*v),
                None => self.value_of(field@) is None,
            },
    {
        let mut i: usize = 0;
        assert(self.entries@.skip(0) =~= self.entries@);
        while i < self.entries.len()
            invariant
                i <= self.entries.len(),
                lookup(self.entries@, field@) == lookup(self.entries@.skip(i as int), field@),
            decreases self.entries.len() - i,
        {
            assert(self.entries@.skip(i as int).drop_first() =~= self.entries@.skip(i + 1));
            assert(self.entries@.skip(i as int)[0] == self.entries@[i as int]);
            if same_text(self.entries[i].0.as_str(), field) {
                return Some(&self.entries[i].1);
            }
            i += 1;
        }
        None
    }
}

/// Replacing the first entry that has a key, by an entry with the same key,
/// changes the value of that key and of no other.
proof fn lemma_lookup_after_set(
    entries: Seq<(String, MetadataValue)>,
    at: int,
    entry: (String, MetadataValue),
    key: Seq<char>,
)
    requires
        0 <= at < entries.len(),
        entries[at].0@ == entry.0@,
        forall|k: int| 0 <= k < at ==> (#[trigger] entries[k]).0@ != entry.0@,
    ensures
        lookup(entries.update(at, entry), key) == if key == entry.0@ {
            Some(entry.1)
        } else {
            lookup(entries, key)
        },
    decreases at,
{
    if at > 0 {
        assert(entries.update(at, entry).drop_first() =~= entries.drop_first().update(
            at - 1,
            entry,
        ));
        assert forall|k: int| 0 <= k < at - 1 implies (#[trigger] entries.drop_first()[k]).0@
            != entry.0@ by {
            assert(entries.drop_first()[k] == entries[k + 1]);
        }
        lemma_lookup_after_set(entries.drop_first(), at - 1, entry, key);
    } else {
        assert(entries.update(at, entry).drop_first() =~= entries.drop_first());
    }
}

/// Adding an entry whose key is new gives that key its value and changes
/// no other.
proof fn lemma_lookup_after_push(
    entries: Seq<(String, MetadataValue)>,
    entry: (String, MetadataValue),
    key: Seq<char>,
)
    requires
        forall|k: int| 0 <= k < entries.len() ==> (#[trigger] entries[k]).0@ != entry.0@,
    ensures
        lookup(entries.push(entry), key) == if key == entry.0@ {
            Some(entry.1)
        } else {
            lookup(entries, key)
        },
    decreases entries.len(),
{
    if entries.len() > 0 {
        assert(entries.push(entry).drop_first() =~= entries.drop_first().push(entry));
        assert forall|k: int| 0 <= k < entries.drop_first().len() implies (
        #[trigger] entries.drop_first()[k]).0@ != entry.0@ by {
            assert(entries.drop_first()[k] == entries[k + 1]);
        }
        assert(entries.push(entry)[0] == entries[0]);
        lemma_lookup_after_push(entries.drop_first(), entry, key);
    } else {
        reveal_with_fuel(lookup, 2);
        assert(entries.push(entry).drop_first() =~= Seq::<(String, MetadataValue)>::empty());
    }
}

/// What `char::is_whitespace` returns for `c`: whether the character has
/// the Unicode property White_Space.
pub uninterp spec fn white_space(c: char) -> bool;

/// Calls `char::is_whitespace` on `c`.
///
/// Trusted: the result is what the standard library answers for `c`.
#[verifier::external_body]
fn is_whitespace(c: char) -> (b: bool)
    ensures
        b == white_space(c),
{
    c.is_whitespace()
}

/// A text as marked cells: each character with whether it is whitespace.
pub open spec fn marked(s: Seq<char>) -> Seq<(char, bool)> {
    s.map_values(|c: char| (c, white_space(c)))
}

/// `cells` without the marked cells at their start.
pub open spec fn strip_start(cells: Seq<(char, bool)>) -> Seq<(char, bool)>
    decreases cells.len(),
{
    if cells.len() > 0 && cells[0].1 {
        strip_start(cells.drop_first())
    } else {
        cells
    }
}

/// `cells` without the marked cells at their end.
pub open spec fn strip_end(cells: Seq<(char, bool)>) -> Seq<(char, bool)>
    decreases cells.len(),
{
    if cells.len() > 0 && cells.last().1 {
        strip_end(cells.drop_last())
    } else {
        cells
    }
}

/// The characters of `cells` from the first unmarked cell to the last one.
/// Marked cells between unmarked ones stay.
pub open spec fn stripped(cells: Seq<(char, bool)>) -> Seq<char> {
    strip_end(strip_start(cells)).map_values(|cell: (char, bool)| cell.0)
}

/// `s` without the whitespace at either end.
pub open spec fn trimmed(s: Seq<char>) -> Seq<char> {
    stripped(marked(s))
}

/// The characters of `s`, each with whether it is whitespace.
pub fn mark(s: &str) -> (cells: Vec<(char, bool)>)
    ensures
        cells@ == marked(s@),
{
    let chars = to_chars(s);
    let mut cells: Vec<(char, bool)> = Vec::new();
    let mut i: usize = 0;
    while i < chars.len()
        invariant
            i <= chars.len(),
            cells@ == marked(chars@.take(i as int)),
        decreases chars.len() - i,
    {
        cells.push((chars[i], is_whitespace(chars[i])));
        assert(chars@.take(i + 1) =~= chars@.take(i as int).push(chars@[i as int]));
        i += 1;
    }
    assert(chars@.take(i as int) =~= chars@);
    cells
}

/// The characters of `cells` without the marked cells at either end.
pub fn strip(cells: &Vec<(char, bool)>) -> (out: String)
    ensures
        out@ == stripped(cells@),
{
    let mut start: usize = 0;
    assert(cells@.skip(0) =~= cells@);
    while start < cells.len() && cells[start].1
        invariant
            start <= cells.len(),
            strip_start(cells@) == strip_start(cells@.skip(start as int)),
        decreases cells.len() - start,
    {
        assert(cells@.skip(start as int).drop_first() =~= cells@.skip(start + 1));
        start += 1;
    }
    assert(strip_start(cells@) == cells@.skip(start as int));
    let mut end: usize = cells.len();
    assert(cells@.subrange(start as int, end as int) =~= cells@.skip(start as int));
    while end > start && cells[end - 1].1
        invariant
            start <= end <= cells.len(),
            strip_end(strip_start(cells@)) == strip_end(cells@.subrange(start as int, end as int)),
        decreases end - start,
    {
        assert(cells@.subrange(start as int, end as int).drop_last() =~= cells@.subrange(
            start as int,
            end - 1,
        ));
        end -= 1;
    }
    let ghost kept = cells@.subrange(start as int, end as int);
    assert(strip_end(strip_start(cells@)) == kept);
    let mut out = String::new();
    let mut i: usize = start;
    while i < end
        invariant
            start <= i <= end <= cells.len(),
            kept == cells@.subrange(start as int, end as int),
            out@ == kept.take(i - start).map_values(|cell: (char, bool)| cell.0),
        decreases end - i,
    {
        push_char(&mut out, cells[i].0);
        assert(kept.take(i + 1 - start).map_values(|cell: (char, bool)| cell.0) =~= kept.take(
            i - start,
        ).map_values(|cell: (char, bool)| cell.0).push(cells@[i as int].0));
        i += 1;
    }
    assert(kept.take(i - start) =~= kept);
    out
}

/// `s` without the whitespace at either end.
pub fn trim(s: &str) -> (out: String)
    ensures
        out@ == trimmed(s@),
{
    strip(&mark(s))
}

} // verus!
