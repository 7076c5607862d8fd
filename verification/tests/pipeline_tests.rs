use asstosrt_core::pipeline::{finish, prepare, ConvError, Options};
use asstosrt_core::transform::{map_block, ChineseConv, Lines};

fn options(
    in_charset: Option<&str>,
    out_charset: Option<&str>,
    chinese_conv: ChineseConv,
    lines: Lines,
) -> Options {
    Options {
        in_charset: in_charset.map(String::from),
        out_charset: out_charset.map(String::from),
        chinese_conv,
        lines,
    }
}

#[test]
fn unknown_input_label_is_rejected() {
    let opts = options(Some("not-a-real-charset"), None, ChineseConv::Off, Lines::All);
    let r = prepare(&b"anything".to_vec(), &opts);
    assert!(matches!(r, Err(ConvError::UnknownCharset)));
}

#[test]
fn unknown_output_label_is_rejected() {
    let opts = options(Some("utf-8"), Some("no-such-charset"), ChineseConv::Off, Lines::All);
    let r = prepare(&b"hello".to_vec(), &opts);
    assert!(matches!(r, Err(ConvError::UnknownCharset)));
}

#[test]
fn failed_detection_is_terminal() {
    let opts = options(None, None, ChineseConv::Off, Lines::All);
    let r = prepare(&Vec::new(), &opts);
    assert!(matches!(r, Err(ConvError::CharsetDetectionFailed)));
}

#[test]
fn absent_output_charset_defaults_to_the_input_one() {
    let opts = options(Some("utf-16le"), None, ChineseConv::Off, Lines::All);
    let p = prepare(&vec![0x48, 0x00], &opts).unwrap();
    assert_eq!(p.out_charset.name().as_str(), "utf-16le");
    assert_eq!(p.text, "H");
}

#[test]
fn converter_rejection_is_terminal_with_its_diagnostic() {
    let opts = options(Some("utf-8"), None, ChineseConv::Off, Lines::All);
    let p = prepare(&b"x".to_vec(), &opts).unwrap();
    let r = finish(&p.out_charset, Err(String::from("bad dialogue")));
    match r {
        Err(ConvError::SubtitleConversionFailed(m)) => assert_eq!(m, "bad dialogue"),
        Err(other) => panic!("unexpected error: {:?}", other),
        Ok(_) => panic!("conversion should not have succeeded"),
    }
}

#[test]
fn end_to_end_identity_conversion() {
    let input = b"Hello\nWorld".to_vec();
    let opts = options(None, Some("utf-8"), ChineseConv::Off, Lines::All);
    let p = prepare(&input, &opts).unwrap();
    assert_eq!(p.text, "Hello\nWorld");
    let mapped = map_block(p.text.clone(), &opts.lines, &opts.chinese_conv).unwrap();
    assert_eq!(mapped, "Hello\nWorld");
    let out = finish(&p.out_charset, Ok(mapped)).unwrap();
    assert_eq!(out.bytes, b"Hello\nWorld".to_vec());
    assert_eq!(out.media_type, "text/srt");
}

#[test]
fn end_to_end_first_line_with_chinese_conversion() {
    let input = "简体\n中文".as_bytes().to_vec();
    let opts = options(Some("utf-8"), Some("utf-8"), ChineseConv::S2T, Lines::First);
    let p = prepare(&input, &opts).unwrap();
    let mapped = map_block(p.text.clone(), &opts.lines, &opts.chinese_conv).unwrap();
    assert_eq!(mapped, "簡體");
    let out = finish(&p.out_charset, Ok(mapped)).unwrap();
    assert_eq!(out.bytes, "簡體".as_bytes().to_vec());
}

#[test]
fn utf16_output_carries_a_byte_order_mark() {
    let opts = options(Some("utf-8"), Some("utf-16le"), ChineseConv::Off, Lines::All);
    let p = prepare(&b"Hi".to_vec(), &opts).unwrap();
    let out = finish(&p.out_charset, Ok(p.text.clone())).unwrap();
    assert_eq!(out.bytes[..2], [0xff, 0xfe]);
    assert_eq!(out.bytes, vec![0xff, 0xfe, 0x48, 0x00, 0x69, 0x00]);
}

#[test]
fn non_utf16_output_carries_no_mark() {
    let opts = options(Some("utf-8"), Some("utf-8"), ChineseConv::Off, Lines::All);
    let p = prepare(&b"Hi".to_vec(), &opts).unwrap();
    let out = finish(&p.out_charset, Ok(p.text.clone())).unwrap();
    assert_eq!(out.bytes, b"Hi".to_vec());
}

#[test]
fn esc_bearing_input_fails_detection_terminally() {
    let opts = options(None, None, ChineseConv::Off, Lines::All);
    let r = prepare(&b"an \x1b escape byte".to_vec(), &opts);
    assert!(matches!(r, Err(ConvError::CharsetDetectionFailed)));
}
