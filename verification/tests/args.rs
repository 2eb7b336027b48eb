use tgui_player::args::{Args, ArgsError};
use tgui_player::text::{parse_usize, same_text, strip_prefix};

fn words(ws: &[&str]) -> Vec<String> {
    ws.iter().map(|w| w.to_string()).collect()
}

#[test]
fn args_defaults() {
    let a = Args::new(&words(&["player"])).unwrap();
    assert_eq!(a.uri(), "");
    assert_eq!(a.loop_nums(), 0);
    let d = Args::default();
    assert_eq!(d.uri(), "");
    assert_eq!(d.loop_nums(), 0);
}

#[test]
fn args_reads_both_flags() {
    let a = Args::new(&words(&["player", "--uri", "./a.mp4", "--loop-nums", "1"])).unwrap();
    assert_eq!(a.uri(), "./a.mp4");
    assert_eq!(a.loop_nums(), 1);
}

#[test]
fn args_later_flag_wins_and_others_skipped() {
    let a = Args::new(&words(&[
        "player", "-v", "--uri", "x", "extra", "--loop-nums", "+7", "--uri", "y",
    ]))
    .unwrap();
    assert_eq!(a.uri(), "y");
    assert_eq!(a.loop_nums(), 7);
}

#[test]
fn args_flag_value_is_taken_verbatim() {
    let a = Args::new(&words(&["player", "--uri", "--loop-nums"])).unwrap();
    assert_eq!(a.uri(), "--loop-nums");
    assert_eq!(a.loop_nums(), 0);
}

#[test]
fn args_missing_values() {
    assert_eq!(Args::new(&words(&["p", "--uri"])).unwrap_err(), ArgsError::MissingUri);
    assert_eq!(
        Args::new(&words(&["p", "--uri", "a", "--loop-nums"])).unwrap_err(),
        ArgsError::MissingLoopNums
    );
}

#[test]
fn args_bad_loop_count() {
    for bad in ["", "-1", "x", "1x", "+", " 1", "18446744073709551616"] {
        assert_eq!(
            Args::new(&words(&["p", "--loop-nums", bad])).unwrap_err(),
            ArgsError::BadLoopNums,
            "{bad:?}"
        );
    }
}

#[test]
fn parse_usize_agrees_with_std() {
    let cases = [
        "0", "7", "+7", "", "+", "-0", "007", "12a", "a", " 3", "3 ", "18446744073709551615",
        "18446744073709551616", "99999999999999999999", "+18446744073709551615", "1٣",
    ];
    for c in cases {
        assert_eq!(parse_usize(c), c.parse::<usize>().ok(), "{c:?}");
    }
}

#[test]
fn text_helpers() {
    assert!(same_text("abc", "abc"));
    assert!(!same_text("abc", "abd"));
    assert!(!same_text("ab", "abc"));
    assert_eq!(strip_prefix("./a", "./"), Some("a"));
    assert_eq!(strip_prefix("~é/x", "~"), Some("é/x"));
    assert_eq!(strip_prefix("a", "./"), None);
    assert_eq!(strip_prefix("", ""), Some(""));
}
