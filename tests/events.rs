use minus::{
    handle_event, match_positions, Command, Event, ExitStrategy, InputEvent, LineNumbers,
    PagerState, SearchMode,
};

const TEST_STR: &str = "This is some sample text";

#[test]
fn set_data() {
    let mut ps = PagerState::new();
    let ev = Event::SetData(TEST_STR.to_string());
    handle_event(ev, &mut ps);
    assert_eq!(ps.formatted_lines, vec![TEST_STR.to_string()]);
}

#[test]
fn append_str() {
    let mut ps = PagerState::new();
    let ev1 = Event::AppendData(format!("{}\n", TEST_STR));
    let ev2 = Event::AppendData(TEST_STR.to_string());
    handle_event(ev1, &mut ps);
    handle_event(ev2, &mut ps);
    assert_eq!(
        ps.formatted_lines,
        vec![TEST_STR.to_string(), TEST_STR.to_string()]
    );
}

#[test]
fn set_prompt() {
    let mut ps = PagerState::new();
    let ev = Event::SetPrompt(TEST_STR.to_string());
    handle_event(ev, &mut ps);
    assert_eq!(ps.prompt, TEST_STR.to_string());
}

#[test]
fn send_message() {
    let mut ps = PagerState::new();
    let ev = Event::SendMessage(TEST_STR.to_string());
    handle_event(ev, &mut ps);
    assert_eq!(ps.message.unwrap(), TEST_STR.to_string());
}

#[test]
fn set_run_no_overflow() {
    let mut ps = PagerState::new();
    let ev = Event::SetRunNoOverflow(false);
    handle_event(ev, &mut ps);
    assert!(!ps.run_no_overflow);
}

#[test]
fn set_exit_strategy() {
    let mut ps = PagerState::new();
    let ev = Event::SetExitStrategy(ExitStrategy::PagerQuit);
    handle_event(ev, &mut ps);
    assert_eq!(ps.exit_strategy, ExitStrategy::PagerQuit);
}

#[test]
fn append_foo_then_bar() {
    let mut ps = PagerState::new();
    handle_event(Event::AppendData("foo\n".to_string()), &mut ps);
    handle_event(Event::AppendData("bar".to_string()), &mut ps);
    assert_eq!(ps.formatted_lines, vec!["foo".to_string(), "bar".to_string()]);
}

#[test]
fn exit_returns_strategy_and_keeps_state() {
    let mut ps = PagerState::new();
    handle_event(Event::SetExitStrategy(ExitStrategy::PagerQuit), &mut ps);
    let c = handle_event(Event::UserInput(InputEvent::Exit), &mut ps);
    assert_eq!(c, Command::Quit(ExitStrategy::PagerQuit));
}

#[test]
fn restore_prompt_clears_message() {
    let mut ps = PagerState::new();
    handle_event(Event::SendMessage("help".to_string()), &mut ps);
    assert_eq!(ps.bottom_text(), "help");
    handle_event(Event::UserInput(InputEvent::RestorePrompt), &mut ps);
    assert!(ps.message.is_none());
    assert_eq!(ps.bottom_text(), "minus");
}

#[test]
fn resize_rewraps() {
    let mut ps = PagerState::new();
    handle_event(Event::SetData("abcdefgh".to_string()), &mut ps);
    let c = handle_event(Event::UserInput(InputEvent::UpdateTermArea(3, 7)), &mut ps);
    assert_eq!(c, Command::Continue);
    assert_eq!((ps.cols, ps.rows), (3, 7));
    assert_eq!(ps.formatted_lines, vec!["abc".to_string(), "def".to_string(), "gh".to_string()]);
    assert_eq!(ps.num_lines(), 3);
}

#[test]
fn line_number_events_set_mode() {
    let mut ps = PagerState::new();
    handle_event(Event::SetLineNumbers(LineNumbers::AlwaysOn), &mut ps);
    assert_eq!(ps.line_numbers, LineNumbers::AlwaysOn);
    handle_event(Event::UserInput(InputEvent::UpdateLineNumber(LineNumbers::Enabled)), &mut ps);
    assert_eq!(ps.line_numbers, LineNumbers::Enabled);
    handle_event(Event::UserInput(InputEvent::UpdateUpperMark(4)), &mut ps);
    assert_eq!(ps.upper_mark, 4);
    handle_event(Event::UserInput(InputEvent::Ignore), &mut ps);
    assert_eq!(ps.upper_mark, 4);
}

fn numbered_state(n: usize, rows: usize) -> PagerState {
    let mut ps = PagerState::new();
    let text: Vec<String> = (0..n).map(|i| if i % 10 == 3 { format!("hit {}", i) } else { format!("line {}", i) }).collect();
    handle_event(Event::SetData(text.join("\n")), &mut ps);
    handle_event(Event::UserInput(InputEvent::UpdateTermArea(80, rows)), &mut ps);
    ps
}

#[test]
fn search_indexes_matches_and_jumps() {
    let mut ps = numbered_state(40, 5);
    let c = handle_event(Event::UserInput(InputEvent::Search(SearchMode::Forward)), &mut ps);
    assert_eq!(c, Command::ReadQuery(SearchMode::Forward));
    assert_eq!(ps.search_mode, SearchMode::Forward);
    ps.upper_mark = 5;
    ps.apply_search_query("hit");
    assert!(ps.search_term.is_some());
    assert_eq!(ps.search_idx, vec![3, 13, 23, 33]);
    assert_eq!(ps.search_mark, 1);
    assert_eq!(ps.upper_mark, 13);

    handle_event(Event::UserInput(InputEvent::NextMatch), &mut ps);
    assert_eq!((ps.search_mark, ps.upper_mark), (2, 23));
    handle_event(Event::UserInput(InputEvent::NextMatch), &mut ps);
    assert_eq!((ps.search_mark, ps.upper_mark), (3, 33));
    handle_event(Event::UserInput(InputEvent::NextMatch), &mut ps);
    assert_eq!((ps.search_mark, ps.upper_mark), (3, 33));

    handle_event(Event::UserInput(InputEvent::PrevMatch), &mut ps);
    assert_eq!((ps.search_mark, ps.upper_mark), (2, 23));
    // The match is not above the view: no scroll.
    ps.upper_mark = 10;
    handle_event(Event::UserInput(InputEvent::PrevMatch), &mut ps);
    assert_eq!((ps.search_mark, ps.upper_mark), (1, 10));
    handle_event(Event::UserInput(InputEvent::PrevMatch), &mut ps);
    assert_eq!((ps.search_mark, ps.upper_mark), (0, 3));
    handle_event(Event::UserInput(InputEvent::PrevMatch), &mut ps);
    assert_eq!((ps.search_mark, ps.upper_mark), (0, 3));
}

#[test]
fn next_match_stops_when_last_line_is_shown() {
    let mut ps = numbered_state(40, 10);
    ps.apply_search_query("hit");
    assert_eq!((ps.search_mark, ps.upper_mark), (0, 3));
    ps.upper_mark = 30;
    handle_event(Event::UserInput(InputEvent::NextMatch), &mut ps);
    // 30 + 10 rows reaches the end: the cursor stays, then moves to the
    // first match at or below the view.
    assert_eq!((ps.search_mark, ps.upper_mark), (3, 33));
}

#[test]
fn empty_query_changes_nothing() {
    let mut ps = numbered_state(20, 5);
    ps.apply_search_query("hit");
    let before = (ps.search_idx.clone(), ps.search_mark, ps.upper_mark);
    ps.apply_search_query("");
    assert_eq!((ps.search_idx.clone(), ps.search_mark, ps.upper_mark), before);
    assert!(ps.search_term.is_some());
}

#[test]
fn invalid_query_sets_message() {
    let mut ps = numbered_state(20, 5);
    ps.apply_search_query("hit");
    let formatted = ps.formatted_lines.clone();
    let mark = ps.search_mark;
    let upper_mark = ps.upper_mark;
    ps.apply_search_query("(unclosed");
    // The earlier search stays as it was.
    assert!(ps.search_term.is_some());
    assert_eq!(ps.search_idx, vec![3, 13]);
    assert_eq!((ps.search_mark, ps.upper_mark), (mark, upper_mark));
    assert_eq!(ps.message.as_deref(), Some("Invalid regular expression. Press Enter"));
    assert_eq!(ps.formatted_lines, formatted);
}

#[test]
fn matches_follow_data_changes() {
    let mut ps = numbered_state(20, 5);
    ps.apply_search_query("hit");
    assert_eq!(ps.search_idx, vec![3, 13]);
    handle_event(Event::AppendData("\nhit again".to_string()), &mut ps);
    assert_eq!(ps.search_idx, vec![3, 13, 20]);
}

#[test]
fn next_and_prev_without_search_do_nothing() {
    let mut ps = numbered_state(20, 5);
    ps.upper_mark = 7;
    handle_event(Event::UserInput(InputEvent::NextMatch), &mut ps);
    handle_event(Event::UserInput(InputEvent::PrevMatch), &mut ps);
    assert_eq!((ps.search_mark, ps.upper_mark), (0, 7));
}

#[test]
fn match_positions_are_ascending() {
    let flags = vec![false, true, true, false, true];
    let idx = match_positions(&flags);
    assert_eq!(idx, vec![1, 2, 4]);
    assert!(idx.windows(2).all(|w| w[0] < w[1]));
    assert!(match_positions(&vec![false, false]).is_empty());
}

#[test]
fn new_search_starts_from_first_match_below_view() {
    let mut ps = numbered_state(40, 5);
    ps.apply_search_query("hit");
    handle_event(Event::UserInput(InputEvent::NextMatch), &mut ps);
    handle_event(Event::UserInput(InputEvent::NextMatch), &mut ps);
    handle_event(Event::UserInput(InputEvent::NextMatch), &mut ps);
    assert_eq!((ps.search_mark, ps.upper_mark), (3, 33));
    // A new query looks from the first match again, at or below the view.
    ps.upper_mark = 0;
    ps.apply_search_query("line 1[05]");
    assert_eq!(ps.search_idx, vec![10, 15]);
    assert_eq!((ps.search_mark, ps.upper_mark), (0, 10));
}

#[test]
fn zero_width_resize_is_ignored() {
    let mut ps = PagerState::new();
    handle_event(Event::SetData("abcdef".to_string()), &mut ps);
    let c = handle_event(Event::UserInput(InputEvent::UpdateTermArea(0, 9)), &mut ps);
    assert_eq!(c, Command::Continue);
    assert_eq!((ps.cols, ps.rows), (80, 24));
    assert_eq!(ps.formatted_lines, vec!["abcdef".to_string()]);
}

#[test]
fn session_state_from_pager() {
    let mut pager = minus::Pager::new();
    pager.set_text("one\ntwo three");
    pager.set_prompt("custom");
    pager.set_line_numbers(LineNumbers::Enabled);
    pager.prepare(5, 4);
    let ps = PagerState::from_pager(&pager);
    assert_eq!(ps.formatted_lines, vec!["one".to_string(), "two t".to_string(), "hree".to_string()]);
    assert_eq!(ps.prompt, "custom");
    assert_eq!(ps.line_numbers, LineNumbers::Enabled);
    assert_eq!((ps.cols, ps.rows), (5, 4));
    assert!(ps.message.is_none() && ps.search_term.is_none());
}
