use dynarmic_sys::egg::dynarmic_colorful_egg;
use dynarmic_sys::jit::{granted_jit_size, jit_size_bytes, requested_jit_size};
use dynarmic_sys::switches::{
    parse_default_off_flag, parse_default_on_flag, shared_fastmem_page_table_enabled,
};
use dynarmic_sys::text::parse_u64;

#[test]
fn default_on_flag_needs_an_off_word() {
    assert!(parse_default_on_flag(None));
    for off in ["0", "false", "off", "no", "FALSE", "Off", "nO"] {
        assert!(!parse_default_on_flag(Some(off)), "{off}");
    }
    for on in ["", "1", "true", "offf", " off", "00", "n", "\u{212a}"] {
        assert!(parse_default_on_flag(Some(on)), "{on}");
    }
}

#[test]
fn default_off_flag_needs_an_on_word() {
    assert!(!parse_default_off_flag(None));
    for on in ["1", "true", "on", "yes", "TRUE", "On", "yEs"] {
        assert!(parse_default_off_flag(Some(on)), "{on}");
        assert!(shared_fastmem_page_table_enabled(&mut None, Some(on)), "{on}");
    }
    for off in ["", "0", "no", "on ", "y", "11", "tru\u{e9}"] {
        assert!(!parse_default_off_flag(Some(off)), "{off}");
        assert!(!shared_fastmem_page_table_enabled(&mut None, Some(off)), "{off}");
    }
    assert!(!shared_fastmem_page_table_enabled(&mut None, None));
}

#[test]
fn sharing_switch_keeps_its_first_answer() {
    let mut seen = None;
    assert!(shared_fastmem_page_table_enabled(&mut seen, Some("on")));
    assert_eq!(seen, Some(true));
    assert!(shared_fastmem_page_table_enabled(&mut seen, Some("off")));
    assert!(shared_fastmem_page_table_enabled(&mut seen, None));
    let mut seen = None;
    assert!(!shared_fastmem_page_table_enabled(&mut seen, None));
    assert!(!shared_fastmem_page_table_enabled(&mut seen, Some("1")));
    assert_eq!(seen, Some(false));
}

#[test]
fn flags_agree_with_ascii_lowercase_words() {
    for text in ["0", "fAlse", "OFF", "No", "1", "tRUE", "oN", "YES", "x", "", "\u{c0}ff"] {
        let lower = text.to_ascii_lowercase();
        assert_eq!(
            parse_default_on_flag(Some(text)),
            !matches!(lower.as_str(), "0" | "false" | "off" | "no")
        );
        assert_eq!(
            parse_default_off_flag(Some(text)),
            matches!(lower.as_str(), "1" | "true" | "on" | "yes")
        );
    }
}

#[test]
fn jit_size_defaults_and_clamps() {
    let granted = |value: Option<&str>| granted_jit_size(requested_jit_size(value));
    assert_eq!(granted(None), 64);
    assert_eq!(granted(Some("")), 64);
    assert_eq!(granted(Some("lots")), 64);
    assert_eq!(granted(Some("-8")), 64);
    assert_eq!(granted(Some("0")), 8);
    assert_eq!(granted(Some("7")), 8);
    assert_eq!(granted(Some("8")), 8);
    assert_eq!(granted(Some("128")), 128);
    assert_eq!(granted(Some("+512")), 512);
    assert_eq!(granted(Some("513")), 512);
    assert_eq!(granted(Some("18446744073709551615")), 512);
    assert_eq!(granted(Some("18446744073709551616")), 64);
    assert_eq!(requested_jit_size(Some("7")), 7);
    assert_eq!(jit_size_bytes(8), 8 * 1024 * 1024);
    assert_eq!(jit_size_bytes(512), 536_870_912);
}

#[test]
fn numbers_are_read_as_std_reads_them() {
    for text in [
        "", "+", "-", "-0", "+0", "++1", "0", "00", "007", "64", " 64", "64 ", "6_4", "0x10",
        "1e3", "18446744073709551615", "18446744073709551616", "18446744073709551620",
        "99999999999999999999999", "000000000000000000000000000012", "\u{661}", "1+",
    ] {
        assert_eq!(parse_u64(text), text.parse::<u64>().ok(), "{text}");
    }
}

#[test]
fn sizes_in_range_are_read_back() {
    for mb in 8u64..=512 {
        let text = mb.to_string();
        assert_eq!(granted_jit_size(requested_jit_size(Some(text.as_str()))), mb);
    }
}

#[test]
fn greeting_is_text() {
    assert_eq!(dynarmic_colorful_egg(None), "");
    assert_eq!(dynarmic_colorful_egg(Some(b"")), "");
    assert_eq!(dynarmic_colorful_egg(Some("h\u{e9}llo".as_bytes())), "h\u{e9}llo");
    assert_eq!(dynarmic_colorful_egg(Some(b"a\xffb")), "a\u{fffd}b");
}
