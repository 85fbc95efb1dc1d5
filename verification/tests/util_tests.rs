use resume_generator::config::{Arguments, Config};
use resume_generator::util::{
    add_https_to_url, cover_letter_file_name, escape_special_chars, get_path, time_range_string,
    FooterText,
};
use resume_generator::layout::{
    centered_string, right_and_left_aligned, split_string_across_lines,
};
use chrono::Datelike;

#[test]
fn test_get_path() {
    let p = get_path(None, "foo", None);
    assert_eq!(p, "./foo");

    let dir = Some(String::from("./foo"));
    let p = get_path(dir.as_ref(), "bar", None);
    assert_eq!(p, "./foo/bar");

    let ext = Some(String::from("baz"));
    let p = get_path(dir.as_ref(), "bar", ext.as_ref());
    assert_eq!(p, "./foo/bar.baz");
}

#[test]
fn test_get_path_replaces_extension() {
    let dir = Some(String::from("out"));
    let ext = Some(String::from("tex"));
    let p = get_path(dir.as_ref(), "resume.txt", ext.as_ref());
    assert_eq!(p, "out/resume.tex");

    let empty = Some(String::new());
    let p = get_path(dir.as_ref(), "resume.txt", empty.as_ref());
    assert_eq!(p, "out/resume");
}

#[test]
fn test_cover_letter_file_name() {
    let args = Arguments {
        resume_input: String::from("foo"),
        output_name: String::from("bar"),
        ..Default::default()
    };
    let c = Config { args, ..Default::default() };

    let name = cover_letter_file_name(&c);
    assert_eq!(name, String::from("bar-cover_letter"));
}

#[test]
fn test_cover_letter_file_name_with_arg() {
    let args = Arguments {
        resume_input: String::from("foo"),
        output_name: String::from("bar"),
        cover_letter_output_name: Some(String::from("baz")),
        ..Default::default()
    };
    let c = Config { args, ..Default::default() };

    let name = cover_letter_file_name(&c);
    assert_eq!(name, String::from("baz"));
}

#[test]
fn test_add_https_to_url() {
    let url = add_https_to_url("example.com");
    assert_eq!(url, "https://example.com");

    let url = add_https_to_url("https://example.com");
    assert_eq!(url, "https://example.com");
}

#[test]
fn test_time_range_string() {
    let s = time_range_string("foo", "bar");
    assert_eq!(s, "foo - bar");
}

#[test]
fn test_footer_text() {
    let f = FooterText::new();
    assert_eq!(f.url, "github.com/spencewenski/resume_generator");
    let now = chrono::Local::now();
    let prefix = format!(
        "Updated on {} {} {} using",
        now.day(),
        now.format("%B"),
        now.year()
    );
    assert_eq!(f.prefix, prefix);
    assert_eq!(f.basic_text, format!("{} {}", prefix, f.url));
}

#[test]
fn test_footer_text_with_date() {
    let f = FooterText::new_with_date("24 June 2021");
    assert_eq!(f.prefix, "Updated on 24 June 2021 using");
    assert_eq!(
        f.basic_text,
        "Updated on 24 June 2021 using github.com/spencewenski/resume_generator"
    );
}

#[test]
fn test_escape_special_chars() {
    // '\\', '&', '%', '$', '#', '_', '{', '}', '~', '^'
    let input = "\\ & % $ # _ { } ~ ^";
    let output = escape_special_chars(input);
    assert_eq!(output, "\\\\ \\& \\% \\$ \\# \\_ \\{ \\} \\~ \\^");
}

#[test]
fn test_escape_special_chars_twice() {
    let once = escape_special_chars("&");
    assert_eq!(once, "\\&");
    let twice = escape_special_chars(&once);
    assert_eq!(twice, "\\\\\\&");
}

#[test]
fn test_split_string_across_lines() {
    let s = "Foo bar baz things and stuff.";
    let s = split_string_across_lines(s, 10, None, None);

    assert_eq!(s, "Foo bar\nbaz things\nand stuff.");
}

#[test]
fn test_split_string_across_lines_with_prefix() {
    let s = "Foo bar baz things and stuff.";
    let s = split_string_across_lines(s, 12, None, Some(String::from("  ")));

    assert_eq!(s, "Foo bar baz\n  things and\n  stuff.");
}

#[test]
fn test_split_string_across_lines_with_first_line_prefix() {
    let s = "Foo bar baz things and stuff.";
    let s = split_string_across_lines(s, 20, Some(String::from("- ")), Some(String::from("  ")));

    assert_eq!(s, "- Foo bar baz things\n  and stuff.");
}

#[test]
fn test_split_long_word_kept_whole() {
    let s = split_string_across_lines("tiny enormousword", 8, None, None);
    assert_eq!(s, "tiny\nenormousword");
}

#[test]
fn test_split_fitting_text_unchanged() {
    let s = split_string_across_lines("aa bb cc", 10, None, None);
    assert_eq!(s, "aa bb cc");
}

#[test]
fn test_centered_string() {
    let s = centered_string("UNIVERSITY", 50);
    assert_eq!(s, "                    UNIVERSITY");
    assert_eq!(s.trim_matches(' '), "UNIVERSITY");
}

#[test]
fn test_right_and_left_aligned() {
    let s = right_and_left_aligned("github.com/foo", Some("foo@bar.com"), 50);
    assert_eq!(s, "github.com/foo                         foo@bar.com");
    assert_eq!(s.len(), 50);

    let s = right_and_left_aligned("left", None, 50);
    assert_eq!(s, "left");
}

#[test]
fn test_right_and_left_aligned_overflow() {
    let s = right_and_left_aligned("a rather long left part", Some("and a long right part"), 10);
    assert_eq!(s, "a rather long left partand a long right part");
}
