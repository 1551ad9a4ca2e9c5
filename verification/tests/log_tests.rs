use ultralight::handles::ViewHandle;
use ultralight::log::{
    decode_or_placeholder, decode_wide_text, log_forward_cb, push_decimal, LogLevel, LogRecord,
    LogSource,
};

fn wide(text: &str) -> Vec<u16> {
    text.encode_utf16().collect()
}

#[test]
fn every_native_level_maps_to_its_name() {
    assert_eq!(LogLevel::from_native(1), LogLevel::Log);
    assert_eq!(LogLevel::from_native(2), LogLevel::Warning);
    assert_eq!(LogLevel::from_native(3), LogLevel::Error);
    assert_eq!(LogLevel::from_native(4), LogLevel::Debug);
    assert_eq!(LogLevel::from_native(5), LogLevel::Info);
    assert_eq!(LogLevel::Log.name(), "log");
    assert_eq!(LogLevel::Warning.name(), "warning");
    assert_eq!(LogLevel::Error.name(), "error");
    assert_eq!(LogLevel::Debug.name(), "debug");
    assert_eq!(LogLevel::Info.name(), "info");
    assert_eq!(LogLevel::Unknown.name(), "unknown");
}

#[test]
fn undefined_levels_map_to_unknown() {
    assert_eq!(LogLevel::from_native(0), LogLevel::Unknown);
    assert_eq!(LogLevel::from_native(6), LogLevel::Unknown);
    assert_eq!(LogLevel::from_native(u32::MAX), LogLevel::Unknown);
}

#[test]
fn every_native_source_maps_to_its_name() {
    let expected = [
        (LogSource::Xml, "xml"),
        (LogSource::Js, "js"),
        (LogSource::Network, "network"),
        (LogSource::ConsoleApi, "consoleapi"),
        (LogSource::Storage, "storage"),
        (LogSource::AppCache, "appcache"),
        (LogSource::Rendering, "rendering"),
        (LogSource::Css, "css"),
        (LogSource::Security, "security"),
        (LogSource::ContentBlocker, "contentblocker"),
        (LogSource::Other, "other"),
    ];
    for (number, (source, name)) in expected.iter().enumerate() {
        assert_eq!(LogSource::from_native(number as u32), *source);
        assert_eq!(source.name(), *name);
    }
    assert_eq!(LogSource::Unknown.name(), "unknown");
}

#[test]
fn undefined_sources_map_to_unknown() {
    assert_eq!(LogSource::from_native(11), LogSource::Unknown);
    assert_eq!(LogSource::from_native(1000), LogSource::Unknown);
    assert_eq!(LogSource::from_native(u32::MAX), LogSource::Unknown);
}

#[test]
fn decodes_plain_and_paired_code_units() {
    assert_eq!(decode_wide_text(&[]), Some(String::new()));
    assert_eq!(decode_wide_text(&wide("hello")), Some("hello".to_string()));
    assert_eq!(decode_wide_text(&wide("gr\u{fc}\u{df}e \u{4e16}\u{754c}")), Some("gr\u{fc}\u{df}e \u{4e16}\u{754c}".to_string()));
    assert_eq!(decode_wide_text(&[0xD83D, 0xDE00]), Some("\u{1F600}".to_string()));
    assert_eq!(decode_wide_text(&[0xD800, 0xDC00]), Some("\u{10000}".to_string()));
    assert_eq!(decode_wide_text(&[0xDBFF, 0xDFFF]), Some("\u{10FFFF}".to_string()));
    assert_eq!(decode_wide_text(&[0xD7FF, 0xE000, 0xFFFF]), Some("\u{D7FF}\u{E000}\u{FFFF}".to_string()));
    assert_eq!(decode_wide_text(&[0x61, 0xD834, 0xDD1E, 0x62]), Some("a\u{1D11E}b".to_string()));
}

#[test]
fn refuses_ill_formed_code_units() {
    assert_eq!(decode_wide_text(&[0xD800]), None);
    assert_eq!(decode_wide_text(&[0xDC00]), None);
    assert_eq!(decode_wide_text(&[0x61, 0xD800, 0x62]), None);
    assert_eq!(decode_wide_text(&[0xDC00, 0xD800]), None);
    assert_eq!(decode_wide_text(&[0xD800, 0xD800, 0xDC00]), None);
    assert_eq!(decode_wide_text(&[0x61, 0x62, 0xDFFF]), None);
}

#[test]
fn decoding_agrees_with_std() {
    let samples: [&[u16]; 6] = [
        &[0x48, 0x69],
        &[0xD83D, 0xDE00, 0x21],
        &[0xD83D],
        &[0xDE00, 0xD83D],
        &[0xFFFE, 0xFEFF],
        &[0xDBFF, 0xDC00, 0xD7FF],
    ];
    for units in samples.iter() {
        assert_eq!(decode_wide_text(units), String::from_utf16(units).ok());
    }
}

#[test]
fn ill_formed_text_becomes_the_placeholder() {
    assert_eq!(decode_or_placeholder(&[0xD800]), "!parsing failed!");
    assert_eq!(decode_or_placeholder(&wide("fine")), "fine");
}

#[test]
fn decimal_rendering() {
    let mut out = String::from("n=");
    push_decimal(&mut out, 0);
    assert_eq!(out, "n=0");
    let mut out = String::new();
    push_decimal(&mut out, 7);
    push_decimal(&mut out, 10);
    assert_eq!(out, "710");
    let mut out = String::new();
    push_decimal(&mut out, 1234567890);
    assert_eq!(out, "1234567890");
    let mut out = String::new();
    push_decimal(&mut out, u32::MAX);
    assert_eq!(out, "4294967295");
}

#[test]
fn formats_one_line_per_record() {
    let line = log_forward_cb(
        ViewHandle(0),
        3,
        1,
        &wide("123"),
        17,
        4,
        &wide("https://example.org/app.js"),
    );
    assert_eq!(line, "[log] [consoleapi] 123 (https://example.org/app.js:17:4)");
}

#[test]
fn malformed_message_does_not_stop_the_line() {
    let line = log_forward_cb(ViewHandle(0), 2, 3, &[0x61, 0xDC00], 0, 4294967295, &wide("src"));
    assert_eq!(line, "[error] [network] !parsing failed! (src:0:4294967295)");
    let line = log_forward_cb(ViewHandle(0), 1, 2, &wide("msg"), 1, 2, &[0xD800]);
    assert_eq!(line, "[warning] [js] msg (!parsing failed!:1:2)");
    let line = log_forward_cb(ViewHandle(0), 99, 99, &[0xD800], 10, 20, &[0xDFFF]);
    assert_eq!(line, "[unknown] [unknown] !parsing failed! (!parsing failed!:10:20)");
}

#[test]
fn record_holds_decoded_fields() {
    let record = LogRecord::from_native(10, 5, &wide("m"), 8, 9, &[]);
    assert_eq!(record.level, LogLevel::Info);
    assert_eq!(record.source, LogSource::Other);
    assert_eq!(record.message, "m");
    assert_eq!(record.source_id, "");
    assert_eq!((record.line, record.column), (8, 9));
    assert_eq!(record.format(), "[info] [other] m (:8:9)");
}
