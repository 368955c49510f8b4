use cat_rs::args::{help_text, parse_args};
use cat_rs::render::{emit_lines, format_line, u64_to_string};

#[test]
fn plain_lines_pass_through() {
    let lines = vec![String::from("a"), String::from("b")];
    let out = emit_lines(false, &lines);
    assert_eq!(out, vec![String::from("a"), String::from("b")]);
}

#[test]
fn numbered_lines() {
    let lines = vec![String::from("a"), String::from("b")];
    let out = emit_lines(true, &lines);
    assert_eq!(out, vec![String::from("1 a"), String::from("2 b")]);
}

#[test]
fn counter_resets_per_source() {
    let source = vec![String::from("x"), String::from("y"), String::from("z")];
    let first = emit_lines(true, &source);
    let second = emit_lines(true, &source);
    let expected = vec![
        String::from("1 x"),
        String::from("2 y"),
        String::from("3 z"),
    ];
    assert_eq!(first, expected);
    assert_eq!(second, expected);
    let mut joined = first;
    joined.extend(second);
    assert_eq!(
        joined,
        vec![
            String::from("1 x"),
            String::from("2 y"),
            String::from("3 z"),
            String::from("1 x"),
            String::from("2 y"),
            String::from("3 z"),
        ]
    );
}

#[test]
fn empty_source_gives_empty_output() {
    let lines: Vec<String> = Vec::new();
    assert_eq!(emit_lines(false, &lines), Vec::<String>::new());
    assert_eq!(emit_lines(true, &lines), Vec::<String>::new());
}

#[test]
fn parse_no_arguments() {
    let argv: Vec<String> = Vec::new();
    let r = parse_args(&argv);
    assert!(!r.show_lines);
    assert!(!r.show_help);
    assert!(r.file_paths.is_empty());
}

#[test]
fn parse_short_flags_and_path() {
    let argv = vec![
        String::from("-n"),
        String::from("file.txt"),
        String::from("-h"),
    ];
    let r = parse_args(&argv);
    assert!(r.show_lines);
    assert!(r.show_help);
    assert_eq!(r.file_paths, vec![String::from("file.txt")]);
}

#[test]
fn parse_long_flags() {
    let argv = vec![String::from("--line_numbers"), String::from("--help")];
    let r = parse_args(&argv);
    assert!(r.show_lines);
    assert!(r.show_help);
    assert!(r.file_paths.is_empty());
}

#[test]
fn parse_help_beside_other_tokens() {
    let argv = vec![
        String::from("-h"),
        String::from("-n"),
        String::from("a.txt"),
        String::from("b.txt"),
    ];
    let r = parse_args(&argv);
    assert!(r.show_help);
    assert_eq!(
        r.file_paths,
        vec![String::from("a.txt"), String::from("b.txt")]
    );
}

#[test]
fn parse_unrecognized_flag_like_tokens_are_paths() {
    let argv = vec![String::from("-x"), String::from("--number")];
    let r = parse_args(&argv);
    assert!(!r.show_lines);
    assert!(!r.show_help);
    assert_eq!(
        r.file_paths,
        vec![String::from("-x"), String::from("--number")]
    );
}

#[test]
fn parse_keeps_path_order() {
    let argv = vec![
        String::from("b"),
        String::from("-n"),
        String::from("a"),
        String::from("c"),
    ];
    let r = parse_args(&argv);
    assert_eq!(
        r.file_paths,
        vec![String::from("b"), String::from("a"), String::from("c")]
    );
}

#[test]
fn stdin_only_without_paths() {
    let no_paths = parse_args(&Vec::new());
    assert!(cat_rs::args::use_stdin(&no_paths));
    let with_path = parse_args(&vec![String::from("file.txt")]);
    assert!(!cat_rs::args::use_stdin(&with_path));
}

#[test]
fn plain_output_concatenates_sources() {
    let first = vec![String::from("x"), String::from("y")];
    let second = vec![String::from("z")];
    let mut out = emit_lines(false, &first);
    out.extend(emit_lines(false, &second));
    let mut both = first.clone();
    both.extend(second);
    assert_eq!(out, both);
}

#[test]
fn decimal_rendering() {
    assert_eq!(u64_to_string(0), "0");
    assert_eq!(u64_to_string(7), "7");
    assert_eq!(u64_to_string(10), "10");
    assert_eq!(u64_to_string(105), "105");
    assert_eq!(u64_to_string(u64::MAX), "18446744073709551615");
}

#[test]
fn format_line_with_number() {
    assert_eq!(format_line(true, 3, "abc"), "3 abc");
    assert_eq!(format_line(true, 10, ""), "10 ");
}

#[test]
fn format_line_without_number() {
    assert_eq!(format_line(false, 12, "abc"), "abc");
    assert_eq!(format_line(false, 1, ""), "");
}

#[test]
fn help_text_is_the_usage_message() {
    let text = help_text();
    assert!(text.starts_with("cat-rs - A minimal clone of the Unix `cat` command"));
    assert!(text.contains("-n, --line_numbers"));
    assert!(text.contains("-h, --help"));
    assert!(text.ends_with("\n"));
}
