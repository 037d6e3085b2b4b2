use yt_cli::backend::OrangeResult;
use yt_cli::state::{Action, InputEvent, InteractionState, Mode};

fn record(title: &str) -> OrangeResult {
    OrangeResult {
        title: String::from(title),
        url: format!("https://www.youtube.com/watch?v={}", title),
        duration: String::from("1:5"),
        uploader: String::from("Alice"),
        is_verified: true,
    }
}

fn records(n: usize) -> Vec<OrangeResult> {
    let mut v = Vec::new();
    let mut i = 0;
    while i < n {
        v.push(record(&format!("video{}", i)));
        i += 1;
    }
    v
}

fn type_query(st: &mut InteractionState, text: &str) {
    for c in text.chars() {
        assert_eq!(st.on_event(InputEvent::Char(c)), Action::Idle);
    }
}

#[test]
fn starts_on_the_list_with_the_first_results() {
    let st = InteractionState::new(records(2));
    assert_eq!(st.mode, Mode::ListMode);
    assert_eq!(st.results.len(), 2);
    assert_eq!(st.highlight, 0);
    assert_eq!(st.query_buffer, Vec::<char>::new());
    assert_eq!(st.query_cursor, 0);
    assert_eq!(st.footer_message, "");
}

#[test]
fn down_on_empty_results_changes_nothing() {
    let mut st = InteractionState::new(Vec::new());
    let act = st.on_event(InputEvent::Down);
    assert_eq!(act, Action::Idle);
    assert_eq!(st.mode, Mode::ListMode);
    assert_eq!(st.results.len(), 0);
    assert_eq!(st.highlight, 0);
    assert_eq!(st.footer_message, "");
}

#[test]
fn typing_and_backspacing_edits_the_buffer() {
    let mut st = InteractionState::new(Vec::new());
    st.on_event(InputEvent::Char('/'));
    assert_eq!(st.mode, Mode::InputMode);
    type_query(&mut st, "abc");
    assert_eq!(st.query_buffer, vec!['a', 'b', 'c']);
    assert_eq!(st.query_cursor, 3);
    st.on_event(InputEvent::Backspace);
    st.on_event(InputEvent::Backspace);
    assert_eq!(st.query_buffer, vec!['a']);
    assert_eq!(st.query_cursor, 1);
}

#[test]
fn cursor_moves_clamp_to_the_buffer() {
    let mut st = InteractionState::new(Vec::new());
    st.on_event(InputEvent::Char('/'));
    type_query(&mut st, "ab");
    st.on_event(InputEvent::Left);
    assert_eq!(st.query_cursor, 1);
    st.on_event(InputEvent::Left);
    st.on_event(InputEvent::Left);
    assert_eq!(st.query_cursor, 0);
    st.on_event(InputEvent::Right);
    st.on_event(InputEvent::Right);
    st.on_event(InputEvent::Right);
    assert_eq!(st.query_cursor, 2);
    assert_eq!(st.query_buffer, vec!['a', 'b']);
}

#[test]
fn insertion_happens_at_the_cursor() {
    let mut st = InteractionState::new(Vec::new());
    st.on_event(InputEvent::Char('/'));
    type_query(&mut st, "ac");
    st.on_event(InputEvent::Left);
    st.on_event(InputEvent::Char('b'));
    assert_eq!(st.query_buffer, vec!['a', 'b', 'c']);
    assert_eq!(st.query_cursor, 2);
}

#[test]
fn begin_search_focuses_input_and_jumps_to_the_end() {
    let mut st = InteractionState::new(records(1));
    st.on_event(InputEvent::Char('/'));
    type_query(&mut st, "ab");
    st.on_event(InputEvent::Left);
    assert_eq!(st.query_cursor, 1);
    st.on_event(InputEvent::Char('/'));
    assert_eq!(st.mode, Mode::InputMode);
    assert_eq!(st.query_cursor, 2);
    assert_eq!(st.query_buffer, vec!['a', 'b']);
}

#[test]
fn empty_submission_requests_trending() {
    let mut st = InteractionState::new(records(2));
    st.on_event(InputEvent::Char('/'));
    let act = st.on_event(InputEvent::Confirm);
    assert_eq!(act, Action::FetchTrending);
    assert_eq!(st.results.len(), 2);
    assert_eq!(st.mode, Mode::InputMode);
}

#[test]
fn submitted_search_replaces_results_and_records_the_query() {
    let mut st = InteractionState::new(Vec::new());
    st.on_event(InputEvent::Char('/'));
    type_query(&mut st, "abc");
    let act = st.on_event(InputEvent::Confirm);
    assert_eq!(act, Action::FetchSearch);
    st.apply_search_success(records(3));
    assert_eq!(st.results.len(), 3);
    assert_eq!(st.highlight, 0);
    assert_eq!(st.mode, Mode::ListMode);
    assert_eq!(st.footer_message, "Search results for: abc");
    assert_eq!(st.query_buffer, Vec::<char>::new());
    assert_eq!(st.query_cursor, 0);
}

#[test]
fn failed_search_keeps_the_previous_results() {
    let mut st = InteractionState::new(records(2));
    st.on_event(InputEvent::Down);
    st.on_event(InputEvent::Char('/'));
    type_query(&mut st, "abc");
    let act = st.on_event(InputEvent::Confirm);
    assert_eq!(act, Action::FetchSearch);
    st.apply_search_failure();
    assert_eq!(st.results.len(), 2);
    assert_eq!(st.mode, Mode::InputMode);
    assert_eq!(st.query_buffer, vec!['a', 'b', 'c']);
    assert_eq!(st.footer_message, "Search failed, results unchanged");
}

#[test]
fn highlight_moves_stay_within_the_list() {
    let mut st = InteractionState::new(records(2));
    let act = st.on_event(InputEvent::Up);
    assert_eq!(act, Action::Idle);
    assert_eq!(st.highlight, 0);
    st.on_event(InputEvent::Down);
    assert_eq!(st.highlight, 1);
    st.on_event(InputEvent::Down);
    assert_eq!(st.highlight, 1);
    st.on_event(InputEvent::Up);
    assert_eq!(st.highlight, 0);
}

#[test]
fn region_cycle_returns_and_reentering_the_list_resets_the_highlight() {
    let mut st = InteractionState::new(records(3));
    st.on_event(InputEvent::Down);
    st.on_event(InputEvent::Down);
    assert_eq!(st.highlight, 2);
    st.on_event(InputEvent::RegionSwitch);
    assert_eq!(st.mode, Mode::StatusMode);
    assert_eq!(st.highlight, 2);
    st.on_event(InputEvent::RegionSwitch);
    assert_eq!(st.mode, Mode::InputMode);
    st.on_event(InputEvent::RegionSwitch);
    assert_eq!(st.mode, Mode::ListMode);
    assert_eq!(st.highlight, 0);
}

#[test]
fn confirm_on_a_result_requests_playback_and_reports_the_title() {
    let mut st = InteractionState::new(records(2));
    st.on_event(InputEvent::Down);
    let act = st.on_event(InputEvent::Confirm);
    assert_eq!(act, Action::Play);
    assert_eq!(st.highlight, 1);
    assert_eq!(st.results.len(), 2);
    assert_eq!(st.footer_message, "Playing: video1");
}

#[test]
fn failed_playback_launch_is_reported_in_the_footer() {
    let mut st = InteractionState::new(records(2));
    st.on_event(InputEvent::Down);
    let act = st.on_event(InputEvent::Confirm);
    assert_eq!(act, Action::Play);
    st.apply_play_failure();
    assert_eq!(st.footer_message, "Failed to start playback");
    assert_eq!(st.results.len(), 2);
    assert_eq!(st.highlight, 1);
    assert_eq!(st.mode, Mode::ListMode);
}

#[test]
fn confirm_on_an_empty_list_changes_nothing() {
    let mut st = InteractionState::new(Vec::new());
    let act = st.on_event(InputEvent::Confirm);
    assert_eq!(act, Action::Idle);
    assert_eq!(st.footer_message, "");
}

#[test]
fn quit_acts_outside_the_input_region_only() {
    let mut st = InteractionState::new(Vec::new());
    let act = st.on_event(InputEvent::Char('q'));
    assert_eq!(act, Action::Quit);
    st.on_event(InputEvent::Char('/'));
    let act2 = st.on_event(InputEvent::Char('q'));
    assert_eq!(act2, Action::Idle);
    assert_eq!(st.query_buffer, vec!['q']);
}

#[test]
fn status_region_ignores_editing_and_navigation() {
    let mut st = InteractionState::new(records(2));
    st.on_event(InputEvent::RegionSwitch);
    assert_eq!(st.mode, Mode::StatusMode);
    assert_eq!(st.on_event(InputEvent::Char('x')), Action::Idle);
    assert_eq!(st.on_event(InputEvent::Down), Action::Idle);
    assert_eq!(st.on_event(InputEvent::Confirm), Action::Idle);
    assert_eq!(st.query_buffer, Vec::<char>::new());
    assert_eq!(st.highlight, 0);
}

#[test]
fn footer_display_falls_back_to_the_help_line() {
    let mut st = InteractionState::new(records(1));
    assert_eq!(st.footer_display(), "Press / to search | Press q to quit");
    st.on_event(InputEvent::Confirm);
    assert_eq!(st.footer_display(), "Playing: video0");
}

#[test]
fn list_title_counts_from_one() {
    let mut st = InteractionState::new(records(12));
    assert_eq!(st.list_title(), "Videos [1/12]");
    st.on_event(InputEvent::Down);
    st.on_event(InputEvent::Down);
    assert_eq!(st.list_title(), "Videos [3/12]");
}

// The buffer counts characters, not bytes, so editing around multi-byte
// characters keeps the cursor on a character boundary.
#[test]
fn editing_handles_multibyte_characters() {
    let mut st = InteractionState::new(Vec::new());
    st.on_event(InputEvent::Char('/'));
    st.on_event(InputEvent::Char('é'));
    st.on_event(InputEvent::Char('漢'));
    assert_eq!(st.query_buffer, vec!['é', '漢']);
    assert_eq!(st.query_cursor, 2);
    st.on_event(InputEvent::Left);
    assert_eq!(st.query_cursor, 1);
    st.on_event(InputEvent::Backspace);
    assert_eq!(st.query_buffer, vec!['漢']);
    assert_eq!(st.query_cursor, 0);
    assert_eq!(st.query_display(), vec!['|', '漢']);
}

#[test]
fn query_display_marks_the_cursor() {
    let mut st = InteractionState::new(Vec::new());
    st.on_event(InputEvent::Char('/'));
    type_query(&mut st, "ab");
    st.on_event(InputEvent::Left);
    assert_eq!(st.query_display(), vec!['a', '|', 'b']);
    st.on_event(InputEvent::Right);
    assert_eq!(st.query_display(), vec!['a', 'b', '|']);
}
