use now_playing::config::{Config, ControlChars, DisplayPlayerPrefixes};
use now_playing::engine::{compose_line, step, Action, Error, Event, Phase, State};
use now_playing::metadata::{MetadataRecord, MetadataValue};

fn settings(width: usize, hide_output: bool) -> Config {
    let mut prefixes = DisplayPlayerPrefixes::new('♪');
    prefixes.insert(String::from("spotify"), 'S');
    Config {
        message_display_len: width,
        font_index: 1,
        update_delay_millis: 300,
        control_chars: ControlChars { play: '>', pause: '=', previous: '<', next: '»' },
        display_player_prefixes: prefixes,
        metadata_fields: vec![String::from("xesam:title"), String::from("xesam:artist")],
        metadata_seperator: String::from(" - "),
        hide_output,
    }
}

fn bus_names() -> Vec<String> {
    vec![
        String::from("org.freedesktop.DBus"),
        String::from(":1.5"),
        String::from("org.mpris.MediaPlayer2.vlc"),
        String::from("org.mpris.MediaPlayer2.spotify"),
    ]
}

fn track(title: &str, artist: &str) -> MetadataRecord {
    let mut record = MetadataRecord::new();
    record.insert(String::from("xesam:artist"), MetadataValue::Array(vec![MetadataValue::Str(
        String::from(artist),
    )]));
    record.insert(String::from("xesam:title"), MetadataValue::Str(String::from(title)));
    record
}

const IDLE_SUFFIX: &str =
    " %{A:playerctl  previous :}<%{A} %{A:playerctl  play :}>%{A} %{A:playerctl  next :}»%{A}";

#[test]
fn new_state_shows_nothing() {
    let state = State::new(settings(10, false));
    assert!(state.selection.is_empty());
    assert_eq!(state.selection.current, 0);
    assert_eq!(state.selection.remembered, None);
    assert_eq!(state.message, "");
    assert_eq!(state.display_text, "");
    assert_eq!(state.display_prefix, ' ');
    assert_eq!(state.display_suffix, "");
    assert!(!state.status_paused);
    assert_eq!(state.config.message_display_len, 10);
}

#[test]
fn no_player_message_and_controls() {
    let mut state = State::new(settings(19, false));
    state.update_players(vec![String::from("org.freedesktop.DBus")]);
    assert_eq!(state.fetch_target(), Ok(None));
    assert_eq!(state.update_message(None, &MetadataRecord::new()), Ok(()));
    assert_eq!(state.message, "No player available");
    assert_eq!(state.display_text, "No player available");
    assert_eq!(state.display_prefix, '♪');
    assert_eq!(state.display_suffix, IDLE_SUFFIX);
    assert!(state.status_paused);
    let line = state.print_text();
    assert_eq!(line, format!("♪ %{{T1}}No player available%{{T-}}{}", IDLE_SUFFIX));
}

#[test]
fn no_player_ignores_what_was_fetched() {
    let mut state = State::new(settings(19, false));
    assert_eq!(state.update_message(Some("Playing"), &track("Title", "Artist")), Ok(()));
    assert_eq!(state.message, "No player available");
    assert_eq!(state.display_suffix, IDLE_SUFFIX);
    assert!(state.status_paused);
    assert_eq!(state.selection.remembered, None);
}

#[test]
fn hidden_output_without_player_is_an_empty_line() {
    let mut state = State::new(settings(30, true));
    assert_eq!(state.update_message(None, &MetadataRecord::new()), Ok(()));
    assert_eq!(state.print_text(), "");
    assert_eq!(state.display_text, "No player available");
}

#[test]
fn hidden_output_with_a_player_prints() {
    let mut state = State::new(settings(10, true));
    state.update_players(bus_names());
    assert_eq!(state.update_message(Some("Playing"), &track("Hi", "")), Ok(()));
    assert_eq!(
        state.print_text(),
        "♪ %{T1}Hi        %{T-} %{A:playerctl -p vlc previous :}<%{A} %{A:playerctl -p vlc pause :}=%{A} %{A:playerctl -p vlc next :}»%{A}"
    );
}

#[test]
fn players_are_filtered_from_the_bus_names() {
    let mut state = State::new(settings(10, false));
    state.update_players(bus_names());
    assert_eq!(
        state.selection.players,
        vec![
            String::from("org.mpris.MediaPlayer2.vlc"),
            String::from("org.mpris.MediaPlayer2.spotify"),
        ]
    );
    assert_eq!(state.selection.current, 0);
    assert_eq!(state.get_name_by_index(1), Some(String::from("spotify")));
    assert_eq!(state.get_name_by_index(2), None);
    assert_eq!(state.fetch_target(), Ok(Some(String::from("org.mpris.MediaPlayer2.vlc"))));
}

#[test]
fn next_player_selects_and_remembers() {
    let mut state = State::new(settings(10, false));
    state.next_player(bus_names());
    assert_eq!(state.selection.current, 1);
    assert_eq!(state.selection.remembered, Some(String::from("spotify")));
    assert_eq!(state.fetch_target(), Ok(Some(String::from("org.mpris.MediaPlayer2.spotify"))));
    state.next_player(bus_names());
    assert_eq!(state.selection.current, 0);
    assert_eq!(state.selection.remembered, Some(String::from("vlc")));
}

#[test]
fn next_player_without_players_changes_nothing() {
    let mut state = State::new(settings(10, false));
    state.next_player(vec![String::from("org.freedesktop.DBus")]);
    assert!(state.selection.is_empty());
    assert_eq!(state.selection.current, 0);
    assert_eq!(state.selection.remembered, None);
}

#[test]
fn selection_follows_its_player_through_a_refresh() {
    let mut state = State::new(settings(10, false));
    state.next_player(bus_names());
    let mut reordered = bus_names();
    reordered.reverse();
    reordered.push(String::from("org.mpris.MediaPlayer2.mpv"));
    state.update_players(reordered);
    assert_eq!(state.selection.current, 0);
    assert_eq!(state.selection.current_name(), Some(String::from("spotify")));
}

#[test]
fn message_and_controls_of_the_current_player() {
    let mut state = State::new(settings(40, false));
    state.next_player(bus_names());
    assert_eq!(state.update_message(Some("Playing"), &track(" Title ", "Artist")), Ok(()));
    assert_eq!(state.message, "Title - Artist");
    assert_eq!(state.display_text, "Title - Artist");
    assert_eq!(state.display_prefix, 'S');
    assert!(!state.status_paused);
    assert_eq!(
        state.display_suffix,
        " %{A:playerctl -p spotify previous :}<%{A} %{A:playerctl -p spotify pause :}=%{A} %{A:playerctl -p spotify next :}»%{A}"
    );
    assert_eq!(state.selection.remembered, Some(String::from("spotify")));
}

#[test]
fn refresh_remembers_the_current_player() {
    let mut state = State::new(settings(40, false));
    state.update_players(bus_names());
    assert_eq!(state.selection.remembered, None);
    assert_eq!(state.update_message(None, &MetadataRecord::new()), Ok(()));
    assert_eq!(state.selection.remembered, Some(String::from("vlc")));
    assert_eq!(state.message, "");
    assert!(state.status_paused);
}

#[test]
fn stale_selection_is_an_error() {
    let mut state = State::new(settings(40, false));
    state.next_player(bus_names());
    assert_eq!(state.update_message(Some("Playing"), &track("Title", "Artist")), Ok(()));
    state.update_players(vec![String::from("org.mpris.MediaPlayer2.vlc")]);
    assert_eq!(state.selection.current, 1);
    assert_eq!(state.fetch_target(), Err(Error::InvalidIndex));
    assert_eq!(
        state.update_message(Some("Paused"), &track("Other", "Artist")),
        Err(Error::InvalidIndex)
    );
    assert_eq!(state.message, "Title - Artist");
    assert_eq!(state.display_text, "Title - Artist");
    assert!(!state.status_paused);
    assert_eq!(state.selection.remembered, Some(String::from("spotify")));
}

#[test]
fn error_in_words() {
    assert_eq!(Error::InvalidIndex.message(), "invalid index");
}

#[test]
fn wide_message_scrolls_by_one_character_per_line() {
    let mut state = State::new(settings(5, false));
    state.update_players(bus_names());
    assert_eq!(state.update_message(Some("Playing"), &track("abcdefgh", "")), Ok(()));
    assert_eq!(state.message, " abcdefgh  ");
    assert_eq!(state.display_text, " abcdefgh  ");
    let first = state.print_text();
    assert_eq!(state.display_text, "abcdefgh   ");
    assert!(first.starts_with("♪ %{T1}abcde%{T-} %{A:playerctl -p vlc previous :}"));
    let second = state.print_text();
    assert_eq!(state.display_text, "bcdefgh   a");
    assert!(second.starts_with("♪ %{T1}bcdef%{T-} "));
}

#[test]
fn scroll_progress_survives_an_unchanged_message() {
    let mut state = State::new(settings(5, false));
    state.update_players(bus_names());
    assert_eq!(state.update_message(Some("Playing"), &track("abcdefgh", "")), Ok(()));
    state.scroll();
    state.scroll();
    assert_eq!(state.display_text, "bcdefgh   a");
    assert_eq!(state.update_message(Some("Playing"), &track("abcdefgh", "")), Ok(()));
    assert_eq!(state.display_text, "bcdefgh   a");
    assert_eq!(state.update_message(Some("Playing"), &track("other title", "")), Ok(()));
    assert_eq!(state.display_text, " other title  ");
}

#[test]
fn paused_text_does_not_scroll() {
    let mut state = State::new(settings(5, false));
    state.update_players(bus_names());
    assert_eq!(state.update_message(Some("Paused"), &track("abcdefgh", "")), Ok(()));
    assert!(state.status_paused);
    state.scroll();
    assert_eq!(state.display_text, " abcdefgh  ");
    let line = state.print_text();
    assert_eq!(state.display_text, " abcdefgh  ");
    assert!(line.starts_with("♪ %{T1} abcd%{T-} "));
    assert!(line.contains("%{A:playerctl -p vlc play :}>%{A}"));
}

#[test]
fn narrow_text_is_filled_when_it_scrolls() {
    let mut state = State::new(settings(6, false));
    state.update_players(bus_names());
    assert_eq!(state.update_message(Some("Playing"), &track("Hi", "")), Ok(()));
    assert_eq!(state.display_text, "Hi");
    state.scroll();
    assert_eq!(state.display_text, "Hi    ");
    assert_eq!(state.message, "Hi");
}

#[test]
fn font_index_is_printed_in_decimal() {
    let mut config = settings(2, false);
    config.font_index = 12;
    let mut state = State::new(config);
    state.display_text = String::from("ab");
    state.display_prefix = 'P';
    state.display_suffix = String::from("!");
    assert_eq!(state.print_text(), "P %{T12}ab%{T-}!");
}

#[test]
fn update_prefix_suffix_sets_the_controls_only() {
    let mut state = State::new(settings(10, false));
    state.message = String::from("m");
    state.display_text = String::from("d");
    state.update_prefix_suffix(Some("spotify"), Some("Playing"));
    assert_eq!(state.display_prefix, 'S');
    assert!(!state.status_paused);
    assert!(state.display_suffix.contains("%{A:playerctl -p spotify pause :}=%{A}"));
    assert_eq!(state.message, "m");
    assert_eq!(state.display_text, "d");
    state.update_prefix_suffix(None, None);
    assert_eq!(state.display_prefix, '♪');
    assert!(state.status_paused);
    assert_eq!(state.display_suffix, IDLE_SUFFIX);
}

#[test]
fn running_loop_reacts_to_events() {
    assert_eq!(step(Phase::Running, Event::Tick), (Phase::Running, Action::Refresh));
    assert_eq!(step(Phase::Running, Event::SelectNext), (Phase::Running, Action::Advance));
    assert_eq!(step(Phase::Running, Event::OtherSignal), (Phase::Stopping, Action::Halt));
}

#[test]
fn stopped_loop_stays_stopped() {
    for event in [Event::Tick, Event::SelectNext, Event::OtherSignal] {
        assert_eq!(step(Phase::Stopping, event), (Phase::Stopping, Action::Nothing));
    }
}

#[test]
fn line_around_a_window() {
    assert_eq!(compose_line('♪', 1, "Hi   ", " >"), "♪ %{T1}Hi   %{T-} >");
    assert_eq!(compose_line(' ', 4294967295, "", ""), "  %{T4294967295}%{T-}");
    assert_eq!(compose_line('x', 0, "中", "s"), "x %{T0}中%{T-}s");
}

#[test]
fn new_message_becomes_the_scrolling_text() {
    let mut state = State::new(settings(5, false));
    state.set_message(String::from(" abcdefgh  "));
    assert_eq!(state.message, " abcdefgh  ");
    assert_eq!(state.display_text, " abcdefgh  ");
    state.scroll();
    assert_eq!(state.display_text, "abcdefgh   ");
    state.set_message(String::from(" abcdefgh  "));
    assert_eq!(state.display_text, "abcdefgh   ");
    assert_eq!(state.message, " abcdefgh  ");
    state.set_message(String::from("x"));
    assert_eq!(state.display_text, "x");
    assert_eq!(state.message, "x");
}

#[test]
fn empty_message_on_a_new_state_changes_nothing() {
    let mut state = State::new(settings(5, false));
    state.display_text = String::from("kept");
    state.set_message(String::new());
    assert_eq!(state.message, "");
    assert_eq!(state.display_text, "kept");
}
