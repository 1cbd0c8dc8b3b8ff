//! The click regions drawn after the text, and the icon drawn before it.

use crate::config::{ControlChars, DisplayPlayerPrefixes};
use crate::text::{push_char, same_text};
use vstd::prelude::*;
use vstd::string::StringExecFns;

verus! {

/// What stands around the scrolling text.
#[derive(Debug)]
pub struct Controls {
    /// Icon of the current player.
    pub prefix: char,
    /// Markup of the previous, play or pause, and next buttons.
    pub suffix: String,
    /// True when the play button is shown, that is when nothing is playing.
    pub paused: bool,
}

/// The view of an optional string.
pub open spec fn text_of(s: Option<&str>) -> Option<Seq<char>> {
    match s {
        Some(t) => Some(t@),
        None => None,
    }
}

/// The argument that points the remote-control command at one player. It
/// is empty when there is no player.
pub open spec fn player_option(player: Option<Seq<char>>) -> Seq<char> {
    match player {
        Some(name) => "-p "@ + name,
        None => Seq::empty(),
    }
}

/// One click region: a command that runs `action` on the player, drawn as
/// `glyph`.
pub open spec fn button(option: Seq<char>, action: Seq<char>, glyph: char) -> Seq<char> {
    "%{A:playerctl "@ + option + " "@ + action + " :}"@ + seq![glyph] + "%{A}"@
}

/// Whether a playback status means that something is playing.
pub open spec fn is_playing(status: Option<Seq<char>>) -> bool {
    status == Some("Playing"@)
}

/// The three buttons in a row, each after a space: previous, then pause
/// while playing or play otherwise, then next.
pub open spec fn suffix_markup(
    glyphs: ControlChars,
    player: Option<Seq<char>>,
    playing: bool,
) -> Seq<char> {
    let option = player_option(player);
    let middle = if playing {
        button(option, "pause"@, glyphs.pause)
    } else {
        button(option, "play"@, glyphs.play)
    };
    " "@ + button(option, "previous"@, glyphs.previous) + " "@ + middle + " "@ + button(
        option,
        "next"@,
        glyphs.next,
    )
}

fn make_button(option: &str, action: &str, glyph: char) -> (markup: String)
    ensures
        markup@ == button(option@, action@, glyph),
{
    let mut markup = String::from_str("%{A:playerctl ");
    markup.append(option);
    markup.append(" ");
    markup.append(action);
    markup.append(" :}");
    push_char(&mut markup, glyph);
    markup.append("%{A}");
    markup
}

/// Builds the icon, the buttons and the paused flag for a player and its
/// playback status. Either may be absent.
pub fn build_controls(
    glyphs: &ControlChars,
    prefixes: &DisplayPlayerPrefixes,
    player: Option<&str>,
    status: Option<&str>,
) -> (controls: Controls)
    ensures
        controls.prefix == prefixes.glyph(text_of(player)),
        controls.suffix@ == suffix_markup(*glyphs, text_of(player), is_playing(text_of(status))),
        controls.paused == !is_playing(text_of(status)),
{
    let mut option = String::new();
    if let Some(name) = player {
        option.append("-p ");
        option.append(name);
    }
    assert(option@ =~= player_option(text_of(player)));
    let playing = match status {
        Some(word) => same_text(word, "Playing"),
        None => false,
    };
    let mut suffix = String::from_str(" ");
    suffix.append(make_button(option.as_str(), "previous", glyphs.previous).as_str());
    suffix.append(" ");
    if playing {
        suffix.append(make_button(option.as_str(), "pause", glyphs.pause).as_str());
    } else {
        suffix.append(make_button(option.as_str(), "play", glyphs.play).as_str());
    }
    suffix.append(" ");
    suffix.append(make_button(option.as_str(), "next", glyphs.next).as_str());
    Controls { prefix: prefixes.glyph_for(player), suffix, paused: !playing }
}

} // verus!
