use minus::{split_at_width, split_line_at_width, Pager};

const COLS: usize = 80;

#[test]
fn test_split_line_at_width_long() {
    let mut test_str = String::new();

    for _ in 0..200 {
        test_str.push('#')
    }
    let result = split_line_at_width(&test_str, COLS);
    assert_eq!(200 / COLS + 1, result.len());
    assert_eq!(
        (COLS, COLS, 200 - COLS * 2),
        (result[0].len(), result[1].len(), result[2].len())
    );
}

#[test]
fn test_split_line_at_width_short() {
    let mut test_str = String::new();

    for _ in 0..50 {
        test_str.push('#')
    }
    let result = split_line_at_width(&test_str, COLS);
    assert_eq!(1, result.len());
    assert_eq!(50, result[0].len());
}

#[test]
fn test_set_text() {
    let mut test_str = String::new();
    for _ in 0..200 {
        test_str.push('#')
    }

    let mut pager = Pager::new();
    pager.cols = COLS;
    pager.running = true;
    pager.set_text(&test_str);

    assert_eq!(200 / COLS + 1, pager.lines.len());
    assert_eq!(
        (COLS, COLS, 200 - COLS * 2),
        (
            pager.lines[0].len(),
            pager.lines[1].len(),
            pager.lines[2].len(),
        ),
    )
}

#[test]
fn test_push_str() {
    let mut initial_str = String::new();
    for _ in 0..50 {
        initial_str.push('#');
    }
    initial_str.push('\n');

    let mut test_str = String::new();
    for _ in 0..200 {
        test_str.push('#')
    }

    let mut pager = Pager::new();
    pager.cols = COLS;
    pager.running = true;
    pager.set_text(&initial_str);
    pager.push_str(&test_str);

    // Remove the last \n
    initial_str.pop();

    assert_eq!(50 / COLS + 1 + 200 / COLS + 1, pager.lines.len());
    assert_eq!(
        (50, COLS, COLS, 200 - COLS * 2),
        (
            pager.lines[0].len(),
            pager.lines[1].len(),
            pager.lines[2].len(),
            pager.lines[3].len(),
        ),
    )
}

#[test]
fn wrap_count_matches_formula() {
    // Logical lines of 0, 5, 10, 11 and 25 characters at width 5.
    let text = format!("\n{}\n{}\n{}\n{}", "a".repeat(5), "b".repeat(10), "c".repeat(11), "d".repeat(25));
    let out = split_at_width(&text, 5);
    assert_eq!(out.len(), 1 + 1 + 2 + 3 + 5);
    assert_eq!(out[0], "");
    assert_eq!(out[1], "aaaaa");
    assert_eq!(out[4], "ccccc");
    assert_eq!(out[6], "c");
    assert_eq!(out.join(""), text.replace('\n', ""));
}

#[test]
fn wrap_empty_text_gives_one_line() {
    assert_eq!(split_at_width("", 10), vec![String::new()]);
    assert_eq!(split_line_at_width("", 10), vec![String::new()]);
}

#[test]
fn wrap_keeps_multibyte_characters_whole() {
    let out = split_line_at_width("äöüßé", 2);
    assert_eq!(out, vec!["äö".to_string(), "üß".to_string(), "é".to_string()]);
}

#[test]
fn wrap_exact_multiple_has_no_empty_tail() {
    let out = split_line_at_width("abcdef", 3);
    assert_eq!(out, vec!["abc".to_string(), "def".to_string()]);
}

#[test]
fn append_then_append_gives_two_lines() {
    let mut pager = Pager::new();
    pager.prepare(80, 24);
    pager.push_str("foo\n");
    pager.push_str("bar");
    assert_eq!(pager.lines, vec!["foo".to_string(), "bar".to_string()]);
    assert_eq!(pager.get_lines(), "foo\nbar");
}

#[test]
fn pager_defaults_and_setters() {
    let mut pager = Pager::default();
    assert_eq!(pager.prompt, "minus");
    assert!(!pager.running);
    assert_eq!((pager.cols, pager.rows), (1, 1));
    pager.set_text("collected");
    assert!(pager.lines.is_empty());
    assert_eq!(pager.unwraped_text, "collected");
    pager.set_prompt("my program");
    assert_eq!(pager.prompt, "my program");
    pager.set_line_numbers(minus::LineNumbers::AlwaysOn);
    assert_eq!(pager.line_numbers, minus::LineNumbers::AlwaysOn);
    pager.set_exit_strategy(minus::ExitStrategy::PagerQuit);
    assert_eq!(pager.exit_strategy, minus::ExitStrategy::PagerQuit);
    pager.prepare(4, 10);
    assert_eq!(pager.lines, vec!["coll".to_string(), "ecte".to_string(), "d".to_string()]);
    pager.cols = 5;
    pager.readjust_wraps();
    assert_eq!(pager.lines, vec!["colle".to_string(), "cted".to_string()]);
}
