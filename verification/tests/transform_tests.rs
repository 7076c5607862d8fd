use asstosrt_core::transform::{map_block, ChineseConv, Lines};

fn block(s: &str, policy: Lines, conv: ChineseConv) -> Option<String> {
    map_block(String::from(s), &policy, &conv)
}

#[test]
fn first_of_multiline_block() {
    assert_eq!(block("a\nb\nc", Lines::First, ChineseConv::Off), Some(String::from("a")));
}

#[test]
fn last_of_multiline_block() {
    assert_eq!(block("a\nb\nc", Lines::Last, ChineseConv::Off), Some(String::from("c")));
}

#[test]
fn all_of_multiline_block() {
    assert_eq!(block("a\nb\nc", Lines::All, ChineseConv::Off), Some(String::from("a\nb\nc")));
}

#[test]
fn empty_block_dropped_by_first_and_last() {
    assert_eq!(block("", Lines::First, ChineseConv::Off), None);
    assert_eq!(block("", Lines::Last, ChineseConv::Off), None);
}

#[test]
fn empty_block_kept_by_all() {
    assert_eq!(block("", Lines::All, ChineseConv::Off), Some(String::from("")));
}

#[test]
fn crlf_breaks_are_stripped() {
    assert_eq!(block("a\r\nb\r\n", Lines::First, ChineseConv::Off), Some(String::from("a")));
    assert_eq!(block("a\r\nb\r\n", Lines::Last, ChineseConv::Off), Some(String::from("b")));
}

#[test]
fn lone_trailing_cr_is_content() {
    assert_eq!(block("a\nx\r", Lines::Last, ChineseConv::Off), Some(String::from("x\r")));
}

#[test]
fn trailing_break_opens_no_line() {
    assert_eq!(block("a\n", Lines::Last, ChineseConv::Off), Some(String::from("a")));
    assert_eq!(block("a\n\n", Lines::Last, ChineseConv::Off), Some(String::from("")));
}

#[test]
fn single_break_block_has_one_empty_line() {
    assert_eq!(block("\n", Lines::First, ChineseConv::Off), Some(String::from("")));
}

#[test]
fn s2t_rewrites_simplified_text() {
    assert_eq!(block("简体", Lines::All, ChineseConv::S2T), Some(String::from("簡體")));
}

#[test]
fn t2s_rewrites_traditional_text() {
    assert_eq!(block("簡體", Lines::All, ChineseConv::T2S), Some(String::from("简体")));
}

#[test]
fn dictionaries_pass_non_cjk_text_through() {
    let text = "Hello, world! 123 \u{e9}\u{fc}";
    assert_eq!(block(text, Lines::All, ChineseConv::S2T), Some(String::from(text)));
    assert_eq!(block(text, Lines::All, ChineseConv::T2S), Some(String::from(text)));
}

#[test]
fn first_line_with_conversion() {
    assert_eq!(block("简体\n中文", Lines::First, ChineseConv::S2T), Some(String::from("簡體")));
}
