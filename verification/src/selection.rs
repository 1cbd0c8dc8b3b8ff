//! Which player is selected, and how the selection survives a refresh of
//! the player list.

use crate::names::{display_name, get_name};
use crate::text::texts;
use vstd::arithmetic::div_mod::{lemma_add_mod_noop_right, lemma_mod_add_multiples_vanish,
    lemma_small_mod};
use vstd::prelude::*;

verus! {

/// The known players, the position of the selected one, and the display
/// name that the selection follows when the list changes.
///
/// `current` may point past the end of a list that has shrunk; every read
/// through it is checked.
#[derive(Debug)]
pub struct Selection {
    /// Player identities, in the order the bus gave them.
    pub players: Vec<String>,
    /// Position of the selected player in `players`.
    pub current: usize,
    /// Display name of the last player that was shown or chosen.
    pub remembered: Option<String>,
}

/// The mathematical content of a `Selection`.
pub struct SelectionView {
    pub players: Seq<Seq<char>>,
    pub current: nat,
    pub remembered: Option<Seq<char>>,
}

/// The display name of the player at `index`, if there is one.
pub open spec fn name_at(players: Seq<Seq<char>>, index: int) -> Option<Seq<char>> {
    if 0 <= index < players.len() {
        Some(display_name(players[index]))
    } else {
        None
    }
}

/// Whether some player of the list has the display name `name`.
pub open spec fn has_name(players: Seq<Seq<char>>, name: Seq<char>) -> bool {
    exists|i: int| 0 <= i < players.len() && display_name(#[trigger] players[i]) == name
}

/// The position of the last player with the display name `name`, or -1
/// when no player has it.
pub open spec fn last_with_name(players: Seq<Seq<char>>, name: Seq<char>) -> int
    decreases players.len(),
{
    if players.len() == 0 {
        -1
    } else if display_name(players.last()) == name {
        players.len() - 1
    } else {
        last_with_name(players.drop_last(), name)
    }
}

/// Where the selection points after the list became `players`. A
/// remembered name that some player has decides: the selection stays if
/// the player at `current` has it, and else moves to the last player that
/// has it. Without such a name the position stays as it is.
pub open spec fn retargeted(
    players: Seq<Seq<char>>,
    current: nat,
    remembered: Option<Seq<char>>,
) -> nat {
    match remembered {
        None => current,
        Some(name) => if name_at(players, current as int) == Some(name) {
            current
        } else if last_with_name(players, name) >= 0 {
            last_with_name(players, name) as nat
        } else {
            current
        },
    }
}

impl SelectionView {
    /// The position is inside the list, unless the list is empty.
    pub open spec fn in_bounds(self) -> bool {
        self.players.len() > 0 ==> self.current < self.players.len()
    }

    /// The selection after the player list became `players`.
    pub open spec fn reconciled(self, players: Seq<Seq<char>>) -> SelectionView {
        SelectionView {
            players,
            current: retargeted(players, self.current, self.remembered),
            remembered: self.remembered,
        }
    }

    /// The selection moved on to the next player, around the end of the
    /// list. With no players nothing changes.
    pub open spec fn advanced(self) -> SelectionView {
        if self.players.len() == 0 {
            self
        } else {
            let next = ((self.current as int + 1) % (self.players.len() as int)) as nat;
            SelectionView {
                players: self.players,
                current: next,
                remembered: Some(display_name(self.players[next as int])),
            }
        }
    }

    /// The selection moved on `steps` times.
    pub open spec fn advanced_by(self, steps: nat) -> SelectionView
        decreases steps,
    {
        if steps == 0 {
            self
        } else {
            self.advanced().advanced_by((steps - 1) as nat)
        }
    }
}

impl View for Selection {
    type V = SelectionView;

    open spec fn view(&self) -> SelectionView {
        SelectionView {
            players: texts(self.players@),
            current: self.current as nat,
            remembered: match self.remembered {
                Some(name) => Some(name@),
                None => None,
            },
        }
    }
}

/// `last_with_name` finds a player with the name, if there is one, and no
/// later player has it.
pub proof fn lemma_last_with_name(players: Seq<Seq<char>>, name: Seq<char>)
    ensures
        -1 <= last_with_name(players, name) < players.len(),
        last_with_name(players, name) >= 0 <==> has_name(players, name),
        last_with_name(players, name) >= 0 ==> display_name(
            players[last_with_name(players, name)],
        ) == name,
        forall|i: int|
            last_with_name(players, name) < i < players.len() ==> display_name(
                #[trigger] players[i],
            ) != name,
    decreases players.len(),
{
    if players.len() > 0 {
        let front = players.drop_last();
        lemma_last_with_name(front, name);
        assert(forall|i: int| 0 <= i < front.len() ==> front[i] == players[i]);
        if display_name(players.last()) != name {
            if has_name(players, name) {
                let i = choose|i: int|
                    0 <= i < players.len() && display_name(#[trigger] players[i]) == name;
                assert(front[i] == players[i]);
            }
            if has_name(front, name) {
                let i = choose|i: int|
                    0 <= i < front.len() && display_name(#[trigger] front[i]) == name;
                assert(front[i] == players[i]);
            }
        }
    }
}

/// A remembered name that occurs in the new list decides the position:
/// after the refresh the selected player has that name, wherever the
/// selection pointed before.
pub proof fn lemma_reconcile_follows_name(
    before: SelectionView,
    players: Seq<Seq<char>>,
    name: Seq<char>,
)
    requires
        before.remembered == Some(name),
        has_name(players, name),
    ensures
        before.reconciled(players).current < players.len(),
        name_at(players, before.reconciled(players).current as int) == Some(name),
        before.reconciled(players).in_bounds(),
{
    lemma_last_with_name(players, name);
}

/// Moving on `steps` times moves the position by `steps`, around the end
/// of the list, and keeps the list.
pub proof fn lemma_advanced_by(s: SelectionView, steps: nat)
    requires
        s.players.len() > 0,
    ensures
        s.advanced_by(steps).players == s.players,
        steps > 0 ==> s.advanced_by(steps).current == (s.current as int + steps as int) % (
        s.players.len() as int),
    decreases steps,
{
    if steps > 0 {
        let len = s.players.len() as int;
        lemma_advanced_by(s.advanced(), (steps - 1) as nat);
        if steps > 1 {
            let rest = steps as int - 1;
            let moved = s.current as int + 1;
            lemma_add_mod_noop_right(rest, moved, len);
            assert((moved % len + rest) % len == (moved + rest) % len);
        }
    }
}

/// Moving on through a whole list comes back to where it started: after as
/// many steps as there are players, a position inside the list is what it
/// was.
pub proof fn lemma_advance_cycles(s: SelectionView)
    requires
        s.players.len() > 0,
        s.current < s.players.len(),
    ensures
        s.advanced_by(s.players.len()).current == s.current,
        s.advanced_by(s.players.len()).players == s.players,
{
    let len = s.players.len() as int;
    lemma_advanced_by(s, s.players.len());
    lemma_mod_add_multiples_vanish(s.current as int, len);
    lemma_small_mod(s.current, s.players.len());
    assert((s.current as int + len) % len == s.current as int % len);
}

impl Selection {
    /// A selection over no players, at position 0, with no name remembered.
    pub fn new() -> (selection: Selection)
        ensures
            selection@ == (SelectionView {
                players: Seq::empty(),
                current: 0,
                remembered: None,
            }),
    {
        let selection = Selection { players: Vec::new(), current: 0, remembered: None };
        assert(selection@.players =~= Seq::empty());
        selection
    }

    /// Whether there is no player.
    pub fn is_empty(&self) -> (empty: bool)
        ensures
            empty == (self@.players.len() == 0),
    {
        self.players.len() == 0
    }

    /// The display name of the player at `index`, or `None` when the list
    /// has no such position.
    pub fn get_name_by_index(&self, index: usize) -> (name: Option<String>)
        ensures
            match name {
                Some(n) => name_at(self@.players, index as int) == Some(n@),
                None => name_at(self@.players, index as int) is None,
            },
    {
        if index < self.players.len() {
            Some(get_name(self.players[index].as_str()))
        } else {
            None
        }
    }

    /// The display name of the selected player, or `None` when the position
    /// is not inside the list.
    pub fn current_name(&self) -> (name: Option<String>)
        ensures
            match name {
                Some(n) => name_at(self@.players, self@.current as int) == Some(n@),
                None => name_at(self@.players, self@.current as int) is None,
            },
    {
        self.get_name_by_index(self.current)
    }

    /// Takes over a fresh player list. The position follows the remembered
    /// name where the list has it, and is left alone otherwise.
    pub fn reconcile(&mut self, players: Vec<String>)
        ensures
            final(self)@ == old(self)@.reconciled(texts(players@)),
            old(self)@.remembered matches Some(name) ==> (has_name(texts(players@), name)
                ==> name_at(final(self)@.players, final(self)@.current as int) == Some(name)),
    {
        let target: usize = find_target(&players, self.current, &self.remembered);
        proof {
            if let Some(name) = self@.remembered {
                if has_name(texts(players@), name) {
                    lemma_reconcile_follows_name(self@, texts(players@), name);
                }
            }
        }
        self.players = players;
        self.current = target;
    }

    /// Selects the next player, around the end of the list, and remembers
    /// its display name. With no players nothing changes.
    pub fn advance(&mut self)
        ensures
            final(self)@ == old(self)@.advanced(),
            final(self)@.in_bounds(),
    {
        let len: usize = self.players.len();
        if len == 0 {
            return ;
        }
        let next: usize = (self.current % len + 1) % len;
        proof {
            lemma_add_mod_noop_right(1, self.current as int, len as int);
        }
        self.current = next;
        self.remembered = Some(get_name(self.players[next].as_str()));
    }
}

/// The position of the selection in `players`, given where it was and the
/// name it follows.
fn find_target(players: &Vec<String>, current: usize, remembered: &Option<String>) -> (target:
    usize)
    ensures
        target == retargeted(
            texts(players@),
            current as nat,
            match *remembered {
                Some(name) => Some(name@),
                None => None,
            },
        ),
{
    match remembered {
        None => current,
        Some(name) => {
            if current < players.len() && get_name(players[current].as_str()) == *name {
                return current;
            }
            let mut target: usize = current;
            let mut found = false;
            let mut i: usize = 0;
            assert(texts(players@).take(0) =~= Seq::<Seq<char>>::empty());
            while i < players.len()
                invariant
                    i <= players.len(),
                    found == (last_with_name(texts(players@).take(i as int), name@) >= 0),
                    found ==> target == last_with_name(texts(players@).take(i as int), name@),
                    !found ==> target == current,
                decreases players.len() - i,
            {
                assert(texts(players@).take(i + 1).drop_last() =~= texts(players@).take(
                    i as int,
                ));
                if get_name(players[i].as_str()) == *name {
                    target = i;
                    found = true;
                }
                i += 1;
            }
            assert(texts(players@).take(i as int) =~= texts(players@));
            target
        },
    }
}

} // verus!
