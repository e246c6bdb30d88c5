use cloud_cli::text::{
    chars_of, concat3, contains, ends_with, i64_to_string, join, join_path, lines, parent_path,
    parse_u16, parse_u32, parse_u64, replace, sort_texts, sorted_set, split, split_whitespace,
    starts_with, string_of, to_ascii_lowercase, trim, trim_end, trim_matches, u128_to_string,
    u64_to_string, group_digits, pad_left, pad_right, repeat, text_le, cut, is_cut_point,
};
use cloud_cli::tools::common::format_utils::format_bytes;
use cloud_cli::ui::utils::parse_i64;

fn samples() -> Vec<&'static str> {
    vec![
        "",
        " ",
        "a",
        "  a b  ",
        "\t webserver_port = 8040 \r\n",
        "line1\nline2",
        "line1\r\nline2\r\n",
        "trailing\n",
        "\n\nblank\n\n",
        "cr only\rhere",
        "ends with cr\r",
        "\u{2003}unicode space\u{00a0}",
        "\u{3000}ideographic\u{3000}",
        "daß ist gut: äöü",
        "key: value: more",
        "a,b,,c,",
        "\"quoted\"",
        "\"\"\"",
        "${DORIS_HOME}/log",
        "x\ty\tz",
    ]
}

#[test]
fn chars_round_trip() {
    for s in samples() {
        let v = chars_of(s);
        assert_eq!(v, s.chars().collect::<Vec<char>>());
        assert_eq!(string_of(&v), s);
    }
}

#[test]
fn trimming_agrees_with_std() {
    for s in samples() {
        assert_eq!(trim(s), s.trim());
        assert_eq!(trim_end(s), s.trim_end());
        assert_eq!(trim_matches(s, '"'), s.trim_matches('"'));
        assert_eq!(trim_matches(s, '`'), s.trim_matches('`'));
    }
}

#[test]
fn lines_agree_with_std() {
    for s in samples() {
        let ours = lines(s);
        let theirs: Vec<String> = s.lines().map(|l| l.to_string()).collect();
        assert_eq!(ours, theirs);
    }
}

#[test]
fn splitting_agrees_with_std() {
    for s in samples() {
        let by_comma: Vec<String> = s.split(',').map(|l| l.to_string()).collect();
        assert_eq!(split(s, ','), by_comma);
        let by_tab: Vec<String> = s.split('\t').map(|l| l.to_string()).collect();
        assert_eq!(split(s, '\t'), by_tab);
        let words: Vec<String> = s.split_whitespace().map(|l| l.to_string()).collect();
        assert_eq!(split_whitespace(s), words);
    }
}

#[test]
fn searching_agrees_with_std() {
    let patterns = vec!["a", "line", "\n", "${DORIS_HOME}", ":", "zz", "\r\n", "\"", "b  "];
    for s in samples() {
        for p in &patterns {
            assert_eq!(contains(s, p), s.contains(p));
            assert_eq!(starts_with(s, p), s.starts_with(p));
            assert_eq!(ends_with(s, p), s.ends_with(p));
            assert_eq!(replace(s, p, "<>"), s.replace(p, "<>"));
            assert_eq!(replace(s, p, ""), s.replace(p, ""));
        }
        assert!(contains(s, ""));
    }
    assert_eq!(replace("aaa", "aa", "b"), "ba");
    assert_eq!(replace("it''s", "'", "''"), "it''''s");
}

#[test]
fn numbers_parse_as_std_does() {
    let inputs = vec![
        "0", "7", "8040", "65535", "65536", "+12", "-1", "", "+", "12a", " 12", "00012",
        "4294967295", "4294967296", "18446744073709551615", "18446744073709551616",
        "99999999999999999999999", "1_000", "٣",
    ];
    for s in inputs {
        assert_eq!(parse_u16(s), s.parse::<u16>().ok());
        assert_eq!(parse_u32(s), s.parse::<u32>().ok());
        assert_eq!(parse_u64(s), s.parse::<u64>().ok());
    }
    let signed = vec![
        "0", "-0", "+5", "-5", "--5", "-+5", "+-5", "9223372036854775807",
        "9223372036854775808", "-9223372036854775808", "-9223372036854775809", "", "-", "+",
        "12x",
    ];
    for s in signed {
        assert_eq!(parse_i64(s), s.parse::<i64>().ok());
    }
}

#[test]
fn numbers_print_as_std_does() {
    for n in [0u64, 1, 9, 10, 99, 100, 12345, u32::MAX as u64, u64::MAX] {
        assert_eq!(u64_to_string(n), n.to_string());
    }
    for n in [0u128, 10, u64::MAX as u128 + 1, u128::MAX] {
        assert_eq!(u128_to_string(n), n.to_string());
    }
    for n in [0i64, -1, 1, i64::MIN, i64::MAX, -1000] {
        assert_eq!(i64_to_string(n), n.to_string());
    }
}

#[test]
fn digits_are_grouped_in_threes() {
    assert_eq!(group_digits(""), "");
    assert_eq!(group_digits("1"), "1");
    assert_eq!(group_digits("123"), "123");
    assert_eq!(group_digits("1234"), "1,234");
    assert_eq!(group_digits("123456"), "123,456");
    assert_eq!(group_digits("1234567"), "1,234,567");
}

#[test]
fn padding_agrees_with_format() {
    for s in ["", "a", "Partition", "exactly18characters", "äö"] {
        assert_eq!(pad_right(s, 18), format!("{:<18}", s));
        assert_eq!(pad_left(s, 11), format!("{:>11}", s));
        assert_eq!(pad_left(s, 0), s);
    }
    assert_eq!(repeat("─", 3), "───");
    assert_eq!(repeat("ab", 0), "");
}

#[test]
fn joining_and_concatenating() {
    assert_eq!(concat3("a", "b", "c"), "abc");
    let parts = vec!["x".to_string(), "y".to_string(), "z".to_string()];
    assert_eq!(join(&parts, ", "), "x, y, z");
    assert_eq!(join(&Vec::new(), ", "), "");
    assert_eq!(join(&vec!["only".to_string()], ", "), "only");
    assert_eq!(to_ascii_lowercase("MiXed ÄB"), "MiXed ÄB".to_ascii_lowercase());
}

#[test]
fn paths_join_as_std_does() {
    let cases = vec![
        ("/opt/doris/be", "conf"),
        ("/opt/doris/be/", "conf"),
        ("", "conf"),
        ("/opt", "/abs"),
        ("/opt", ""),
        ("/opt/jdk", "bin/jmap"),
        ("rel", "x"),
    ];
    for (base, rel) in cases {
        let expected = std::path::Path::new(base).join(rel).to_string_lossy().to_string();
        assert_eq!(join_path(base, rel), expected, "{base:?} + {rel:?}");
    }
    assert_eq!(parent_path("/opt/doris/fe/conf/log4j2.xml"), "/opt/doris/fe/conf");
    assert_eq!(parent_path("/opt"), "/");
    assert_eq!(parent_path("/"), "/");
    assert_eq!(parent_path("name"), "");
    assert_eq!(parent_path(""), "");
}

#[test]
fn strings_sort_as_std_does() {
    let v: Vec<String> =
        ["b", "a", "", "ab", "B", "a", "ä", "aa", "b"].iter().map(|s| s.to_string()).collect();
    let mut expected = v.clone();
    expected.sort();
    assert_eq!(sort_texts(&v), expected);
    expected.dedup();
    assert_eq!(sorted_set(&v), expected);
    for a in &v {
        for b in &v {
            assert_eq!(text_le(a, b), a <= b);
        }
    }
}

#[test]
fn cutting_counts_bytes() {
    assert_eq!(cut("short", 10, 10, "..."), "short");
    assert_eq!(cut("0123456789abc", 10, 10, "..."), "0123456789...");
    assert_eq!(cut("0123456789abc", 10, 7, "..."), "0123456...");
    assert!(is_cut_point("äö", 2));
    assert!(!is_cut_point("äö", 1));
    assert!(is_cut_point("äö", 9));
    assert_eq!(cut("äöü", 4, 2, "…"), "ä…");
}

fn by_float(bytes: u64, precision: usize, show_original: bool) -> String {
    const KB: f64 = 1024.0;
    const MB: f64 = KB * 1024.0;
    const GB: f64 = MB * 1024.0;
    if bytes >= GB as u64 {
        let formatted = format!("{:.precision$} GB", bytes as f64 / GB);
        if show_original {
            format!("{} ({bytes} bytes)", formatted)
        } else {
            formatted
        }
    } else if bytes >= MB as u64 {
        let formatted = format!("{:.precision$} MB", bytes as f64 / MB);
        if show_original {
            format!("{} ({bytes} bytes)", formatted)
        } else {
            formatted
        }
    } else if bytes >= KB as u64 {
        let formatted = format!("{:.precision$} KB", bytes as f64 / KB);
        if show_original {
            format!("{} ({bytes} bytes)", formatted)
        } else {
            formatted
        }
    } else if show_original {
        format!("{bytes} bytes")
    } else {
        format!("{} B", bytes)
    }
}

#[test]
fn bytes_are_written_as_floating_point_would() {
    let mut values: Vec<u64> = vec![
        0, 1, 1023, 1024, 1025, 1536, 2560, 3584, 1048575, 1048576, 1572864, 6919553,
        1073741823, 1073741824, 1610612736, 5368709120, 123456789012, 1 << 40, (1 << 53) - 1,
        1 << 53, (1 << 53) + 1, (1 << 53) + 2, (1 << 53) + 3, (1 << 60) + 12345, u64::MAX - 1,
        u64::MAX, u64::MAX - 1024, 9007199254740993, 18014398509481985, 1024 * 1000 + 512,
    ];
    let mut x: u64 = 88172645463325252;
    for _ in 0..2000 {
        x ^= x << 13;
        x ^= x >> 7;
        x ^= x << 17;
        values.push(x);
        values.push(x >> 20);
        values.push(x >> 40);
    }
    for bytes in values {
        for precision in [0usize, 1, 2, 3, 6, 10, 18, 19, 24, 29, 30, 31, 45, 120] {
            assert_eq!(
                format_bytes(bytes, precision, false),
                by_float(bytes, precision, false),
                "{bytes} with {precision}"
            );
        }
        assert_eq!(format_bytes(bytes, 2, true), by_float(bytes, 2, true));
    }
}

#[test]
fn bytes_formula_examples() {
    assert_eq!(format_bytes(512, 3, false), "512 B");
    assert_eq!(format_bytes(512, 3, true), "512 bytes");
    assert_eq!(format_bytes(1536, 1, false), "1.5 KB");
    assert_eq!(format_bytes(1536, 0, false), "2 KB");
    assert_eq!(format_bytes(2560, 0, false), "2 KB");
    assert_eq!(format_bytes(6919553, 3, false), "6.599 MB");
    assert_eq!(format_bytes(1073741824, 2, true), "1.00 GB (1073741824 bytes)");
    assert_eq!(format_bytes(1025, 20, false), "1.00097656250000000000 KB");
    assert_eq!(format_bytes(1073741825, 30, false), "1.000000000931322574615478515625 GB");
    assert_eq!(
        format_bytes(1073741825, 33, false),
        "1.000000000931322574615478515625000 GB"
    );
    assert_eq!(format_bytes(2048, 32, false), format!("2.{} KB", "0".repeat(32)));
    assert_eq!(format_bytes(1999, 1, false), "2.0 KB");
}
