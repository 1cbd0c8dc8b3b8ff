//! The settings that shape the status line.

use crate::text::{contains_text, is_substring, same_text};
use vstd::prelude::*;

verus! {

/// The glyphs drawn on the four click regions.
#[derive(Clone, Copy, Debug)]
pub struct ControlChars {
    pub play: char,
    pub pause: char,
    pub previous: char,
    pub next: char,
}

/// The icon shown in front of the text: one glyph per known player, and a
/// default for the rest.
///
/// `specific` is a table of keys and glyphs, searched from the front. A
/// player gets the glyph of the first entry whose key occurs in its name.
#[derive(Debug)]
pub struct DisplayPlayerPrefixes {
    pub default: char,
    pub specific: Vec<(String, char)>,
}

/// Everything the engine is configured with. It is read once and never
/// changes afterwards.
#[derive(Debug)]
pub struct Config {
    /// Width of the text window, in columns. Wider text scrolls.
    pub message_display_len: usize,
    /// Font slot of the bar that the text is drawn with.
    pub font_index: u32,
    /// Time between two ticks, in milliseconds.
    pub update_delay_millis: u64,
    pub control_chars: ControlChars,
    pub display_player_prefixes: DisplayPlayerPrefixes,
    /// Names of the metadata fields to show, in the order they are shown.
    pub metadata_fields: Vec<String>,
    /// Text put between two shown fields.
    pub metadata_seperator: String,
    /// Print an empty line while no player exists.
    pub hide_output: bool,
}

/// The glyph of the first entry of `table` whose key occurs in `name`, or
/// `fallback` when no key does.
pub open spec fn first_glyph(table: Seq<(String, char)>, name: Seq<char>, fallback: char) -> char
    decreases table.len(),
{
    if table.len() == 0 {
        fallback
    } else if is_substring(table[0].0@, name) {
        table[0].1
    } else {
        first_glyph(table.drop_first(), name, fallback)
    }
}

/// Whether some entry of `table` has the key `key`.
pub open spec fn has_key(table: Seq<(String, char)>, key: Seq<char>) -> bool {
    exists|i: int| 0 <= i < table.len() && (#[trigger] table[i]).0@ == key
}

impl DisplayPlayerPrefixes {
    /// No key occurs twice in the table.
    pub open spec fn well_formed(self) -> bool {
        forall|i: int, j: int|
            0 <= i < j < self.specific.len() ==> (#[trigger] self.specific[i]).0@ != (
            #[trigger] self.specific[j]).0@
    }

    /// The glyph shown for `player`: the default when there is no player,
    /// else the first matching entry's glyph, else the default.
    pub open spec fn glyph(self, player: Option<Seq<char>>) -> char {
        match player {
            None => self.default,
            Some(name) => first_glyph(self.specific@, name, self.default),
        }
    }

    /// A table with a default glyph and no entries.
    pub fn new(default: char) -> (prefixes: DisplayPlayerPrefixes)
        ensures
            prefixes.default == default,
            prefixes.specific@.len() == 0,
            prefixes.well_formed(),
    {
        DisplayPlayerPrefixes { default, specific: Vec::new() }
    }

    /// Gives `key` the glyph `glyph`. An entry that already has this key
    /// keeps its place and gets the new glyph; a new key goes to the end.
    pub fn insert(&mut self, key: String, glyph: char)
        requires
            old(self).well_formed(),
        ensures
            final(self).well_formed(),
            final(self).default == old(self).default,
            has_key(old(self).specific@, key@) ==> {
                &&& final(self).specific@.len() == old(self).specific@.len()
                &&& forall|i: int|
                    0 <= i < old(self).specific@.len() ==> {
                        &&& (#[trigger] final(self).specific@[i]).0@ == old(self).specific@[i].0@
                        &&& final(self).specific@[i].1 == if old(self).specific@[i].0@ == key@ {
                            glyph
                        } else {
                            old(self).specific@[i].1
                        }
                    }
            },
            !has_key(old(self).specific@, key@) ==> final(self).specific@
                == old(self).specific@.push((key, glyph)),
    {
        let mut i: usize = 0;
        while i < self.specific.len()
            invariant
                i <= self.specific.len(),
                *self == *old(self),
                self.well_formed(),
                forall|k: int| 0 <= k < i ==> (#[trigger] self.specific@[k]).0@ != key@,
            decreases self.specific.len() - i,
        {
            if same_text(self.specific[i].0.as_str(), key.as_str()) {
                assert(has_key(old(self).specific@, key@));
                self.specific.set(i, (key, glyph));
                return ;
            }
            i += 1;
        }
        self.specific.push((key, glyph));
    }

    /// The glyph to show for `player`.
    pub fn glyph_for(&self, player: Option<&str>) -> (glyph: char)
        ensures
            glyph == self.glyph(
                match player {
                    Some(name) => Some(name@),
                    None => None,
                },
            ),
    {
        match player {
            None => self.default,
            Some(name) => {
                let mut i: usize = 0;
                assert(self.specific@.skip(0) =~= self.specific@);
                while i < self.specific.len()
                    invariant
                        player == Some(name),
                        i <= self.specific.len(),
                        first_glyph(self.specific@, name@, self.default) == first_glyph(
                            self.specific@.skip(i as int),
                            name@,
                            self.default,
                        ),
                    decreases self.specific.len() - i,
                {
                    assert(self.specific@.skip(i as int).drop_first() =~= self.specific@.skip(
                        i + 1,
                    ));
                    assert(self.specific@.skip(i as int)[0] == self.specific@[i as int]);
                    if contains_text(name, self.specific[i].0.as_str()) {
                        return self.specific[i].1;
                    }
                    i += 1;
                }
                assert(self.specific@.skip(i as int).len() == 0);
                self.default
            },
        }
    }
}

} // verus!
