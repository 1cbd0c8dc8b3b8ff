//! Player identities on the bus: which names are players, and what a
//! player is called on screen.

use crate::text::{texts, to_chars};
use vstd::prelude::*;
use vstd::string::StringExecFns;

verus! {

/// `s` after its first `n` dots. A text with fewer than `n` dots leaves
/// nothing.
pub open spec fn after_dots(s: Seq<char>, n: nat) -> Seq<char>
    decreases s.len(),
{
    if n == 0 {
        s
    } else if s.len() == 0 {
        s
    } else if s[0] == '.' {
        after_dots(s.drop_first(), (n - 1) as nat)
    } else {
        after_dots(s.drop_first(), n)
    }
}

/// The display name of a player identity: what follows its first three
/// dot-separated segments. An identity of fewer than four segments has the
/// empty display name.
pub open spec fn display_name(identity: Seq<char>) -> Seq<char> {
    after_dots(identity, 3)
}

/// `c` with an ASCII capital letter turned into its small letter.
pub open spec fn ascii_lower(c: char) -> char {
    if 'A' <= c && c <= 'Z' {
        ((c as u8) + 32) as char
    } else {
        c
    }
}

/// Whether `s` starts with `prefix` when ASCII letters are compared without
/// regard to case. `prefix` is taken as it is.
pub open spec fn starts_with_lowered(s: Seq<char>, prefix: Seq<char>) -> bool {
    &&& prefix.len() <= s.len()
    &&& forall|i: int| 0 <= i < prefix.len() ==> ascii_lower(#[trigger] s[i]) == prefix[i]
}

/// Whether a bus name belongs to a media player: it starts, in any case,
/// with the media-player namespace.
pub open spec fn is_player(identity: Seq<char>) -> bool {
    starts_with_lowered(identity, "org.mpris.mediaplayer2."@)
}

/// The media players among bus names, in the order of the names.
pub open spec fn players_among(names: Seq<Seq<char>>) -> Seq<Seq<char>> {
    names.filter(|identity: Seq<char>| is_player(identity))
}

/// The display name of the player identity `identity`.
pub fn get_name(identity: &str) -> (name: String)
    ensures
        name@ == display_name(identity@),
{
    let chars = to_chars(identity);
    let mut dots: usize = 0;
    let mut i: usize = 0;
    assert(chars@.skip(0) =~= chars@);
    while i < chars.len() && dots < 3
        invariant
            i <= chars.len(),
            dots <= 3,
            display_name(chars@) == after_dots(chars@.skip(i as int), (3 - dots) as nat),
        decreases chars.len() - i,
    {
        assert(chars@.skip(i as int).drop_first() =~= chars@.skip(i + 1));
        if chars[i] == '.' {
            dots += 1;
        }
        i += 1;
    }
    assert(chars@.subrange(i as int, chars.len() as int) =~= chars@.skip(i as int));
    String::from_str(identity.substring_char(i, chars.len()))
}

fn lower(c: char) -> (small: char)
    ensures
        small == ascii_lower(c),
{
    if 'A' <= c && c <= 'Z' {
        ((c as u8) + 32) as char
    } else {
        c
    }
}

/// Whether the bus name `identity` belongs to a media player.
pub fn is_media_player(identity: &str) -> (player: bool)
    ensures
        player == is_player(identity@),
{
    let chars = to_chars(identity);
    let prefix = to_chars("org.mpris.mediaplayer2.");
    if prefix.len() > chars.len() {
        return false;
    }
    let mut i: usize = 0;
    while i < prefix.len()
        invariant
            chars@ == identity@,
            prefix@ == "org.mpris.mediaplayer2."@,
            i <= prefix.len() <= chars.len(),
            forall|k: int| 0 <= k < i ==> ascii_lower(#[trigger] chars@[k]) == prefix@[k],
        decreases prefix.len() - i,
    {
        if lower(chars[i]) != prefix[i] {
            return false;
        }
        i += 1;
    }
    true
}

/// The media players among the bus names `names`, in the order in which
/// they stand there.
pub fn filter_players(names: Vec<String>) -> (players: Vec<String>)
    ensures
        texts(players@) == players_among(texts(names@)),
{
    let mut players: Vec<String> = Vec::new();
    let mut i: usize = 0;
    assert(texts(names@).take(0) =~= Seq::<Seq<char>>::empty());
    assert(texts(players@) =~= Seq::<Seq<char>>::empty());
    while i < names.len()
        invariant
            i <= names.len(),
            texts(players@) == players_among(texts(names@).take(i as int)),
        decreases names.len() - i,
    {
        proof {
            let before = texts(names@).take(i as int);
            assert(texts(names@).take(i + 1) =~= before.push(names@[i as int]@));
            assert(before.push(names@[i as int]@).drop_last() =~= before);
            reveal(Seq::filter);
        }
        if is_media_player(names[i].as_str()) {
            let ghost old_players = players@;
            players.push(names[i].clone());
            assert(texts(players@) =~= texts(old_players).push(names@[i as int]@));
        }
        i += 1;
    }
    assert(texts(names@).take(i as int) =~= texts(names@));
    players
}

} // verus!
