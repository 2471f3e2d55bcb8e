use netutil::app::{App, AppMode, CommandOutput};
use netutil::models::DnsConfiguration;
use netutil::text::{
    after_first, chars_of, contains_text, decimal, is_whitespace, join, parse_u8, same_text,
    signed_decimal, split, split_lines, split_whitespace, starts_with_text, strip_prefix,
    text_before, trim,
};

fn shell() -> App {
    let mut app = App::new(vec![], DnsConfiguration { nameservers: vec![], search_domains: vec![] });
    app.open_terminal();
    app
}

fn type_command(app: &mut App, command: &str) {
    for c in command.chars() {
        app.add_terminal_char(c);
    }
}

fn ran(stdout: &str, stderr: &str, success: bool, code: Option<i32>) -> Result<CommandOutput, String> {
    Ok(CommandOutput { stdout: stdout.to_string(), stderr: stderr.to_string(), success, code })
}

#[test]
fn echo_hi_is_echoed_run_and_logged() {
    let mut app = shell();
    type_command(&mut app, "echo hi");
    let command = app.execute_terminal_command().expect("a command");
    assert_eq!(command.program, "echo");
    assert_eq!(command.args, vec!["hi"]);
    assert_eq!(app.terminal_output, vec!["$ echo hi"]);
    app.finish_terminal_command(ran("hi\n", "", true, Some(0)));
    assert_eq!(app.terminal_output, vec!["$ echo hi", "hi"]);
    assert_eq!(app.terminal_command, "");
    assert_eq!(app.terminal_scroll, 0);
}

#[test]
fn opening_the_terminal_empties_it() {
    let mut app = shell();
    type_command(&mut app, "ls");
    app.finish_terminal_command(ran("a\nb\n", "", true, Some(0)));
    app.terminal_scroll = 1;
    app.mode = AppMode::Normal;
    app.open_terminal();
    assert_eq!(app.mode, AppMode::Terminal);
    assert!(app.terminal_output.is_empty());
    assert_eq!(app.terminal_command, "");
    assert_eq!(app.terminal_scroll, 0);
    assert!(!app.terminal_needs_clear);
}

#[test]
fn command_buffer_takes_and_gives_characters() {
    let mut app = shell();
    app.remove_terminal_char();
    assert_eq!(app.terminal_command, "");
    type_command(&mut app, "pinq");
    app.remove_terminal_char();
    app.add_terminal_char('g');
    assert_eq!(app.terminal_command, "ping");
}

#[test]
fn empty_command_does_nothing() {
    let mut app = shell();
    assert!(app.execute_terminal_command().is_none());
    assert!(app.terminal_output.is_empty());
}

#[test]
fn blank_command_is_echoed_and_kept() {
    let mut app = shell();
    type_command(&mut app, "  \t ");
    assert!(app.execute_terminal_command().is_none());
    assert_eq!(app.terminal_output, vec!["$   \t "]);
    assert_eq!(app.terminal_command, "  \t ");
}

#[test]
fn command_is_cut_at_white_space_only() {
    let mut app = shell();
    type_command(&mut app, "  grep  -r \"a b\"\t'c'  ");
    let command = app.execute_terminal_command().expect("a command");
    assert_eq!(command.program, "grep");
    assert_eq!(command.args, vec!["-r", "\"a", "b\"", "'c'"]);
}

#[test]
fn error_output_is_marked_and_a_failure_reported() {
    let mut app = shell();
    type_command(&mut app, "false");
    let _ = app.execute_terminal_command();
    app.finish_terminal_command(ran("out1\nout2", "bad\r\nworse\n", false, Some(3)));
    assert_eq!(
        app.terminal_output,
        vec![
            "$ false",
            "out1",
            "out2",
            "ERROR: bad",
            "ERROR: worse",
            "Command exited with status: 3"
        ]
    );
}

#[test]
fn missing_exit_code_is_minus_one() {
    let mut app = shell();
    app.finish_terminal_command(ran("", "", false, None));
    assert_eq!(app.terminal_output, vec!["Command exited with status: -1"]);
    app.finish_terminal_command(ran("", "", false, Some(i32::MIN)));
    assert_eq!(app.terminal_output[1], "Command exited with status: -2147483648");
    app.finish_terminal_command(ran("", "", true, Some(7)));
    assert_eq!(app.terminal_output.len(), 2);
}

#[test]
fn a_command_that_cannot_start_leaves_one_line() {
    let mut app = shell();
    type_command(&mut app, "nosuch");
    let _ = app.execute_terminal_command();
    app.finish_terminal_command(Err("No such file or directory (os error 2)".to_string()));
    assert_eq!(
        app.terminal_output,
        vec!["$ nosuch", "Failed to execute command: No such file or directory (os error 2)"]
    );
    assert_eq!(app.terminal_command, "");
}

#[test]
fn long_log_scrolls_to_its_end() {
    let mut app = shell();
    type_command(&mut app, "seq 30");
    let _ = app.execute_terminal_command();
    let out: String = (1..=30).map(|i| format!("{}\n", i)).collect();
    app.finish_terminal_command(ran(&out, "", true, Some(0)));
    assert_eq!(app.terminal_output.len(), 31);
    assert_eq!(app.terminal_scroll, 11);
    let mut short = shell();
    short.finish_terminal_command(ran(&"x\n".repeat(20), "", true, Some(0)));
    assert_eq!(short.terminal_output.len(), 20);
    assert_eq!(short.terminal_scroll, 0);
    short.finish_terminal_command(ran("y", "", true, Some(0)));
    assert_eq!(short.terminal_scroll, 1);
}

#[test]
fn scrolling_the_log_is_clamped() {
    let mut app = shell();
    app.finish_terminal_command(ran(&"x\n".repeat(23), "", true, Some(0)));
    assert_eq!(app.terminal_scroll, 3);
    app.terminal_scroll_down();
    assert_eq!(app.terminal_scroll, 3);
    app.terminal_scroll_up();
    app.terminal_scroll_up();
    app.terminal_scroll_up();
    assert_eq!(app.terminal_scroll, 0);
    app.terminal_scroll_up();
    assert_eq!(app.terminal_scroll, 0);
    app.terminal_scroll_down();
    assert_eq!(app.terminal_scroll, 1);
    let mut short = shell();
    short.finish_terminal_command(ran("a\nb\n", "", true, Some(0)));
    short.terminal_scroll_down();
    assert_eq!(short.terminal_scroll, 0);
}

#[test]
fn clearing_the_terminal_asks_for_a_redraw() {
    let mut app = shell();
    type_command(&mut app, "ls");
    app.finish_terminal_command(ran(&"x\n".repeat(30), "", true, Some(0)));
    type_command(&mut app, "abc");
    app.clear_terminal();
    assert!(app.terminal_output.is_empty());
    assert_eq!(app.terminal_command, "");
    assert_eq!(app.terminal_scroll, 0);
    assert!(app.terminal_needs_clear);
}

#[test]
fn words_are_the_runs_between_white_space() {
    assert_eq!(split_whitespace("echo hi"), vec!["echo", "hi"]);
    assert_eq!(split_whitespace(""), Vec::<String>::new());
    assert_eq!(split_whitespace(" \n\t "), Vec::<String>::new());
    assert_eq!(split_whitespace("a"), vec!["a"]);
    assert_eq!(split_whitespace("\u{a0}a\u{2003}b\u{3000}"), vec!["a", "b"]);
    assert_eq!(split_whitespace("a\u{200b}b"), vec!["a\u{200b}b"]);
    for s in ["  x  yy zzz", "tab\tsep", "trailing ", "é è"] {
        let expected: Vec<String> = s.split_whitespace().map(|w| w.to_string()).collect();
        assert_eq!(split_whitespace(s), expected);
    }
}

#[test]
fn lines_are_cut_at_line_feeds() {
    assert_eq!(split_lines(""), Vec::<String>::new());
    assert_eq!(split_lines("a"), vec!["a"]);
    assert_eq!(split_lines("a\n"), vec!["a"]);
    assert_eq!(split_lines("a\nb"), vec!["a", "b"]);
    assert_eq!(split_lines("a\r\nb\r\n"), vec!["a", "b"]);
    assert_eq!(split_lines("\n"), vec![""]);
    assert_eq!(split_lines("\n\n"), vec!["", ""]);
    assert_eq!(split_lines("a\n\nb"), vec!["a", "", "b"]);
    assert_eq!(split_lines("a\r"), vec!["a\r"]);
    assert_eq!(split_lines("a\r\r\n"), vec!["a\r"]);
    assert_eq!(split_lines("\r\n"), vec![""]);
    for s in ["x\ny\r\nz", "\r", "one\rtwo\n", "\n\r\n\r", "é\nè"] {
        let expected: Vec<String> = s.lines().map(|l| l.to_string()).collect();
        assert_eq!(split_lines(s), expected, "{:?}", s);
    }
}

#[test]
fn numbers_are_written_in_decimal() {
    assert_eq!(decimal(0), "0");
    assert_eq!(decimal(7), "7");
    assert_eq!(decimal(10), "10");
    assert_eq!(decimal(255), "255");
    assert_eq!(decimal(1234567890), "1234567890");
    assert_eq!(decimal(u64::MAX as u128), "18446744073709551615");
    assert_eq!(decimal(u128::MAX), "340282366920938463463374607431768211455");
    assert_eq!(signed_decimal(0), "0");
    assert_eq!(signed_decimal(-1), "-1");
    assert_eq!(signed_decimal(127), "127");
    assert_eq!(signed_decimal(i32::MAX), "2147483647");
    assert_eq!(signed_decimal(i32::MIN), "-2147483648");
}

#[test]
fn small_numbers_are_read_as_std_reads_them() {
    for s in [
        "0", "1", "64", "128", "255", "256", "300", "1000", "+0", "+255", "+256", "++1", "-0",
        "-1", "", "+", " 1", "1 ", "1_0", "0x10", "00", "000255", "0256", "١", "²",
    ] {
        assert_eq!(parse_u8(s), s.parse::<u8>().ok(), "{:?}", s);
    }
    assert_eq!(parse_u8("64"), Some(64));
    assert_eq!(parse_u8("abc"), None);
}

#[test]
fn texts_are_joined_and_cut() {
    assert_eq!(join(&vec![], ", "), "");
    assert_eq!(join(&vec!["a".to_string()], ", "), "a");
    assert_eq!(join(&vec!["a".to_string(), "".to_string(), "b".to_string()], ", "), "a, , b");
    assert_eq!(split("a:b::c", ':'), vec!["a", "b", "", "c"]);
    assert_eq!(split("", ':'), vec![""]);
    assert_eq!(split(":", ':'), vec!["", ""]);
    assert_eq!(split("abc", ':'), vec!["abc"]);
    assert_eq!(after_first("SSID: a:b", ':').as_deref(), Some(" a:b"));
    assert_eq!(after_first("none", ':'), None);
    assert_eq!(after_first("end:", ':').as_deref(), Some(""));
    assert_eq!(strip_prefix("DNS Servers: 1.1.1.1", "DNS Servers:").as_deref(), Some(" 1.1.1.1"));
    assert_eq!(strip_prefix("DNS", "DNS Servers:"), None);
    assert_eq!(strip_prefix("éa", "é").as_deref(), Some("a"));
    assert_eq!(trim("  a b \t\n"), "a b");
    assert_eq!(trim(""), "");
    assert_eq!(trim(" \u{a0} "), "");
    assert_eq!(trim("x"), "x");
    assert!(same_text("abc", "abc"));
    assert!(!same_text("abc", "abd"));
    assert!(!same_text("abc", "ab"));
    assert_eq!(chars_of("aé"), vec!['a', 'é']);
}

#[test]
fn trimming_agrees_with_std() {
    for s in [
        "", " ", "a", " a", "a ", "  a  b  ", "\t\r\n x \u{b}\u{c}", "\u{85}x\u{a0}",
        "\u{1680}\u{2000}\u{200a}y\u{2028}\u{2029}\u{202f}\u{205f}\u{3000}", "\u{200b}z\u{feff}",
        "é ", " 漢字 ",
    ] {
        assert_eq!(trim(s), s.trim(), "{:?}", s);
        let words: Vec<String> = s.split_whitespace().map(|w| w.to_string()).collect();
        assert_eq!(split_whitespace(s), words, "{:?}", s);
    }
}

#[test]
fn white_space_is_what_std_tells() {
    let mut count = 0;
    for c in '\0'..=char::MAX {
        assert_eq!(is_whitespace(c), c.is_whitespace(), "{:?}", c);
        if is_whitespace(c) {
            count += 1;
        }
    }
    assert_eq!(count, 25);
    assert!(is_whitespace(' ') && is_whitespace('\t') && is_whitespace('\u{3000}'));
    assert!(!is_whitespace('e') && !is_whitespace('\u{200b}') && !is_whitespace('\u{180e}'));
}

#[test]
fn text_predicates_agree_with_std() {
    let samples = [
        "", "a", "ab", "abc", "b", "ba", "abcabc", "aab", "aaa", "eth0", "wlan0", "Eth0", "é",
        "éa", "e", "z", "漢字", "漢", "\u{10ffff}", "\u{d7ff}\u{e000}", " ", "a b",
    ];
    for a in samples {
        for b in samples {
            assert_eq!(contains_text(a, b), a.contains(b), "{:?} contains {:?}", a, b);
            assert_eq!(starts_with_text(a, b), a.starts_with(b), "{:?} starts {:?}", a, b);
            assert_eq!(text_before(a, b), a < b, "{:?} < {:?}", a, b);
        }
    }
    assert!(contains_text("192.168.1.7", "168"));
    assert!(!contains_text("abc", "abcd"));
    assert!(starts_with_text("ether aa", "ether "));
    assert!(text_before("B", "a") && !text_before("a", "a"));
}
