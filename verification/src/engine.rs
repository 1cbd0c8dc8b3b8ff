//! The engine: the display state, what a tick and a signal do to it, and
//! the line that is printed.

use crate::config::Config;
use crate::controls::{build_controls, is_playing, suffix_markup, text_of};
use crate::decimal::{decimal, push_decimal};
use crate::message::formatted;
use crate::metadata::MetadataRecord;
use crate::names::{filter_players, players_among};
use crate::scroll::{make_visual_len, rendered, scroll_step, scrolled};
use crate::selection::{name_at, Selection, SelectionView};
use crate::text::{push_char, texts};
use vstd::prelude::*;
use vstd::string::StringExecFns;

verus! {

/// What can go wrong inside the engine.
#[derive(Clone, Copy, Debug, PartialEq, Eq, Structural)]
pub enum Error {
    /// The selection points past the end of a player list that is not
    /// empty.
    InvalidIndex,
}

impl Error {
    /// The error in words.
    pub fn message(&self) -> (text: String)
        ensures
            text@ == "invalid index"@,
    {
        String::from_str("invalid index")
    }
}

/// What the driver loop can be told.
#[derive(Clone, Copy, Debug, PartialEq, Eq, Structural)]
pub enum Event {
    /// The timer fired.
    Tick,
    /// The signal that asks for the next player.
    SelectNext,
    /// Any other signal.
    OtherSignal,
}

/// Whether the loop goes on.
#[derive(Clone, Copy, Debug, PartialEq, Eq, Structural)]
pub enum Phase {
    Running,
    /// The loop has ended; no event changes that.
    Stopping,
}

/// What the driver has to do for an event.
#[derive(Clone, Copy, Debug, PartialEq, Eq, Structural)]
pub enum Action {
    /// List the players, fetch the current one's metadata, print a line.
    Refresh,
    /// List the players, then select the next one.
    Advance,
    /// Release the signal subscription and leave the loop.
    Halt,
    /// Nothing: the loop has already ended.
    Nothing,
}

/// The phase and the action that follow an event.
pub open spec fn next_step(phase: Phase, event: Event) -> (Phase, Action) {
    match phase {
        Phase::Stopping => (Phase::Stopping, Action::Nothing),
        Phase::Running => match event {
            Event::Tick => (Phase::Running, Action::Refresh),
            Event::SelectNext => (Phase::Running, Action::Advance),
            Event::OtherSignal => (Phase::Stopping, Action::Halt),
        },
    }
}

/// Decides what an event leads to. A running loop keeps running on a tick
/// and on the select-next signal, and stops on every other signal; a
/// stopped loop stays stopped.
pub fn step(phase: Phase, event: Event) -> (next: (Phase, Action))
    ensures
        next == next_step(phase, event),
        phase == Phase::Stopping ==> next.0 == Phase::Stopping,
{
    match phase {
        Phase::Stopping => (Phase::Stopping, Action::Nothing),
        Phase::Running => match event {
            Event::Tick => (Phase::Running, Action::Refresh),
            Event::SelectNext => (Phase::Running, Action::Advance),
            Event::OtherSignal => (Phase::Stopping, Action::Halt),
        },
    }
}

/// The message shown while no player exists.
pub open spec fn no_player_message() -> Seq<char> {
    "No player available"@
}

/// The printed line: the icon, the window in its font tag, the buttons.
pub open spec fn output_line(
    prefix: char,
    font_index: u32,
    window: Seq<char>,
    suffix: Seq<char>,
) -> Seq<char> {
    seq![prefix] + " %{T"@ + decimal(font_index as nat) + "}"@ + window + "%{T-}"@ + suffix
}

/// Builds the printed line around a rendered window.
pub fn compose_line(prefix: char, font_index: u32, window: &str, suffix: &str) -> (line: String)
    ensures
        line@ == output_line(prefix, font_index, window@, suffix@),
{
    let mut line = String::new();
    push_char(&mut line, prefix);
    line.append(" %{T");
    push_decimal(&mut line, font_index as u64);
    line.append("}");
    line.append(window);
    line.append("%{T-}");
    line.append(suffix);
    line
}

/// Everything the engine keeps between two events.
#[derive(Debug)]
pub struct State {
    pub config: Config,
    pub selection: Selection,
    /// The formatted metadata of the last refresh.
    pub message: String,
    /// The text that scrolls. It starts over from `message` only when
    /// `message` changes.
    pub display_text: String,
    pub display_prefix: char,
    pub display_suffix: String,
    /// Scrolling rests while this is set.
    pub status_paused: bool,
}

/// The mathematical content of a `State`.
pub struct StateView {
    pub config: Config,
    pub selection: SelectionView,
    pub message: Seq<char>,
    pub display_text: Seq<char>,
    pub display_prefix: char,
    pub display_suffix: Seq<char>,
    pub status_paused: bool,
}

impl View for State {
    type V = StateView;

    open spec fn view(&self) -> StateView {
        StateView {
            config: self.config,
            selection: self.selection@,
            message: self.message@,
            display_text: self.display_text@,
            display_prefix: self.display_prefix,
            display_suffix: self.display_suffix@,
            status_paused: self.status_paused,
        }
    }
}

impl StateView {
    /// The width of the text window, in columns.
    pub open spec fn width(self) -> nat {
        self.config.message_display_len as nat
    }

    /// The state before the first event: no players, nothing to show.
    pub open spec fn initial(config: Config) -> StateView {
        StateView {
            config,
            selection: SelectionView { players: Seq::empty(), current: 0, remembered: None },
            message: Seq::empty(),
            display_text: Seq::empty(),
            display_prefix: ' ',
            display_suffix: Seq::empty(),
            status_paused: false,
        }
    }

    /// The state after the bus listed `bus_names`: the media players among
    /// them are the player list, and the selection has followed its
    /// remembered name.
    pub open spec fn with_players(self, bus_names: Seq<Seq<char>>) -> StateView {
        StateView { selection: self.selection.reconciled(players_among(bus_names)), ..self }
    }

    /// The state after the bus listed `bus_names` and the selection moved
    /// on to the next player.
    pub open spec fn with_next_player(self, bus_names: Seq<Seq<char>>) -> StateView {
        StateView {
            selection: self.selection.reconciled(players_among(bus_names)).advanced(),
            ..self
        }
    }

    /// The state with the icon, the buttons and the paused flag of a player
    /// and its playback status.
    pub open spec fn with_controls(
        self,
        player: Option<Seq<char>>,
        status: Option<Seq<char>>,
    ) -> StateView {
        StateView {
            display_prefix: self.config.display_player_prefixes.glyph(player),
            display_suffix: suffix_markup(self.config.control_chars, player, is_playing(status)),
            status_paused: !is_playing(status),
            ..self
        }
    }

    /// The state with `message` taken over. A message that differs from the
    /// one before becomes the scrolling text; the same message again leaves
    /// the scrolling text where it has scrolled to.
    pub open spec fn with_message(self, message: Seq<char>) -> StateView {
        StateView {
            message,
            display_text: if message != self.message {
                message
            } else {
                self.display_text
            },
            ..self
        }
    }

    /// The identity of the player that a refresh needs the status and the
    /// metadata of: none while there is no player, and an error when the
    /// selection points past the end of a list that is not empty.
    pub open spec fn target(self) -> Result<Option<Seq<char>>, Error> {
        if self.selection.players.len() == 0 {
            Ok(None)
        } else if self.selection.current < self.selection.players.len() {
            Ok(Some(self.selection.players[self.selection.current as int]))
        } else {
            Err(Error::InvalidIndex)
        }
    }

    /// The state after a refresh with what the current player reported.
    ///
    /// With no player the controls are those of no player and no status,
    /// and the message is the no-player sentence; `status` and `metadata`
    /// do not count. With players, a selection past the end of the list is
    /// an error. Otherwise the controls are those of the selected player
    /// and `status`, that player's display name is remembered, and the
    /// message is formatted from `metadata`.
    pub open spec fn refreshed(self, status: Option<Seq<char>>, metadata: MetadataRecord) -> Result<
        StateView,
        Error,
    > {
        if self.selection.players.len() == 0 {
            Ok(self.with_controls(None, None).with_message(no_player_message()))
        } else {
            match name_at(self.selection.players, self.selection.current as int) {
                None => Err(Error::InvalidIndex),
                Some(name) => Ok(
                    (StateView {
                        selection: SelectionView { remembered: Some(name), ..self.selection },
                        ..self.with_controls(Some(name), status)
                    }).with_message(
                        formatted(
                            metadata,
                            self.config.metadata_fields@,
                            self.config.metadata_seperator@,
                            self.width(),
                        ),
                    ),
                ),
            }
        }
    }

    /// The state after one scroll step, which a paused state does not take.
    pub open spec fn scrolled(self) -> StateView {
        if self.status_paused {
            self
        } else {
            StateView { display_text: scrolled(self.display_text, self.width()), ..self }
        }
    }

    /// Whether an empty line is printed in place of the text: output is to
    /// be hidden without a player, and there is none.
    pub open spec fn hidden(self) -> bool {
        self.config.hide_output && self.selection.players.len() == 0
    }

    /// The line that shows this state.
    pub open spec fn line(self) -> Seq<char> {
        output_line(
            self.display_prefix,
            self.config.font_index,
            rendered(self.display_text, self.width()),
            self.display_suffix,
        )
    }

    /// The state after printing, and the printed line. A hidden state
    /// prints the empty line and stays as it is; any other state takes one
    /// scroll step and prints the line that shows it then.
    pub open spec fn printed(self) -> (StateView, Seq<char>) {
        if self.hidden() {
            (self, Seq::empty())
        } else {
            (self.scrolled(), self.scrolled().line())
        }
    }
}

impl State {
    /// The state before the first event: no players, nothing to show.
    pub fn new(config: Config) -> (state: State)
        ensures
            state@ == StateView::initial(config),
    {
        State {
            config,
            selection: Selection::new(),
            message: String::new(),
            display_text: String::new(),
            display_prefix: ' ',
            display_suffix: String::new(),
            status_paused: false,
        }
    }

    /// The display name of the player at `index`, if there is one.
    pub fn get_name_by_index(&self, index: usize) -> (name: Option<String>)
        ensures
            match name {
                Some(n) => name_at(self@.selection.players, index as int) == Some(n@),
                None => name_at(self@.selection.players, index as int) is None,
            },
    {
        self.selection.get_name_by_index(index)
    }

    /// Sets the icon, the buttons and the paused flag for a player and its
    /// playback status.
    pub fn update_prefix_suffix(&mut self, player: Option<&str>, status: Option<&str>)
        ensures
            final(self)@ == old(self)@.with_controls(text_of(player), text_of(status)),
    {
        let controls = build_controls(
            &self.config.control_chars,
            &self.config.display_player_prefixes,
            player,
            status,
        );
        self.display_prefix = controls.prefix;
        self.display_suffix = controls.suffix;
        self.status_paused = controls.paused;
    }

    /// Takes over the names that the bus lists: the media players among
    /// them become the player list, and the selection follows its
    /// remembered name.
    pub fn update_players(&mut self, bus_names: Vec<String>)
        ensures
            final(self)@ == old(self)@.with_players(texts(bus_names@)),
    {
        let players = filter_players(bus_names);
        self.selection.reconcile(players);
    }

    /// Takes over the names that the bus lists, then selects the next
    /// player.
    pub fn next_player(&mut self, bus_names: Vec<String>)
        ensures
            final(self)@ == old(self)@.with_next_player(texts(bus_names@)),
            final(self)@.selection.in_bounds(),
    {
        self.update_players(bus_names);
        self.selection.advance();
    }

    /// The identity of the player whose status and metadata the next
    /// refresh needs: none while there is no player, and an error when the
    /// selection points past the end of the list.
    pub fn fetch_target(&self) -> (target: Result<Option<String>, Error>)
        ensures
            match target {
                Ok(Some(identity)) => self@.target() == Ok::<Option<Seq<char>>, Error>(
                    Some(identity@),
                ),
                Ok(None) => self@.target() == Ok::<Option<Seq<char>>, Error>(None),
                Err(error) => self@.target() == Err::<Option<Seq<char>>, Error>(error),
            },
    {
        if self.selection.players.len() == 0 {
            Ok(None)
        } else if self.selection.current < self.selection.players.len() {
            Ok(Some(self.selection.players[self.selection.current].clone()))
        } else {
            Err(Error::InvalidIndex)
        }
    }

    /// Takes over a freshly built message. A message that differs from the
    /// one before becomes the scrolling text; the same message again leaves
    /// the scrolling text where it has scrolled to.
    pub fn set_message(&mut self, new_message: String)
        ensures
            final(self)@ == old(self)@.with_message(new_message@),
    {
        if new_message != self.message {
            self.display_text = new_message.clone();
            self.message = new_message;
        }
    }

    /// Refreshes the message and the controls from what the current player
    /// reports. An error leaves the state as it was.
    pub fn update_message(&mut self, status: Option<&str>, metadata: &MetadataRecord) -> (done:
        Result<(), Error>)
        ensures
            match done {
                Ok(_) => old(self)@.refreshed(text_of(status), *metadata) == Ok::<
                    StateView,
                    Error,
                >(final(self)@),
                Err(error) => old(self)@.refreshed(text_of(status), *metadata) == Err::<
                    StateView,
                    Error,
                >(error) && final(self)@ == old(self)@,
            },
    {
        if self.selection.players.len() == 0 {
            self.update_prefix_suffix(None, None);
            self.set_message(String::from_str("No player available"));
        } else {
            let name = match self.selection.current_name() {
                Some(name) => name,
                None => {
                    return Err(Error::InvalidIndex);
                },
            };
            let text = crate::message::format(
                metadata,
                &self.config.metadata_fields,
                self.config.metadata_seperator.as_str(),
                self.config.message_display_len,
            );
            self.update_prefix_suffix(Some(name.as_str()), status);
            self.selection.remembered = Some(name);
            self.set_message(text);
        }
        Ok(())
    }

    /// One scroll step on the scrolling text, unless scrolling rests.
    pub fn scroll(&mut self)
        ensures
            final(self)@ == old(self)@.scrolled(),
    {
        if !self.status_paused {
            scroll_step(&mut self.display_text, self.config.message_display_len);
        }
    }

    /// Produces the line to print. While output is hidden and no player
    /// exists the line is empty and nothing moves; otherwise the text
    /// scrolls by one step and the line shows its window.
    pub fn print_text(&mut self) -> (line: String)
        ensures
            (final(self)@, line@) == old(self)@.printed(),
    {
        if self.config.hide_output && self.selection.players.len() == 0 {
            return String::new();
        }
        self.scroll();
        let window = make_visual_len(
            self.display_text.as_str(),
            self.config.message_display_len,
        );
        compose_line(
            self.display_prefix,
            self.config.font_index,
            window.as_str(),
            self.display_suffix.as_str(),
        )
    }
}

} // verus!
