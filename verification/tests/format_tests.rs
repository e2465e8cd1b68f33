use serve_here::encoding::{escape_attr, escape_html, url_decode, url_encode};
use serve_here::format::{content_type_for, format_bytes, format_date, format_url_host, http_date};

#[test]
fn format_bytes_of_unknown_and_zero() {
    assert_eq!(format_bytes(None), "-");
    assert_eq!(format_bytes(Some(0)), "0 B");
}

#[test]
fn format_bytes_below_a_kilobyte() {
    assert_eq!(format_bytes(Some(1)), "1.0 B");
    assert_eq!(format_bytes(Some(9)), "9.0 B");
    assert_eq!(format_bytes(Some(10)), "10 B");
    assert_eq!(format_bytes(Some(512)), "512 B");
    assert_eq!(format_bytes(Some(1000)), "1000 B");
    assert_eq!(format_bytes(Some(1023)), "1023 B");
}

#[test]
fn format_bytes_in_larger_units() {
    assert_eq!(format_bytes(Some(1024)), "1.0 KB");
    assert_eq!(format_bytes(Some(1536)), "1.5 KB");
    assert_eq!(format_bytes(Some(10239)), "10.0 KB");
    assert_eq!(format_bytes(Some(10240)), "10 KB");
    assert_eq!(format_bytes(Some(999_999)), "977 KB");
    assert_eq!(format_bytes(Some(1_048_575)), "1024 KB");
    assert_eq!(format_bytes(Some(1_048_576)), "1.0 MB");
    assert_eq!(format_bytes(Some(123_456_789)), "118 MB");
    assert_eq!(format_bytes(Some(5 * 1024 * 1024 * 1024 + 1)), "5.0 GB");
    assert_eq!(format_bytes(Some(3 * 1024u64.pow(5))), "3.0 PB");
    assert_eq!(format_bytes(Some(u64::MAX)), "16384 PB");
}

#[test]
fn format_bytes_follows_double_precision() {
    let pb: u64 = 1 << 50;
    assert_eq!(format_bytes(Some(pb - 4)), "1024 TB");
    assert_eq!(format_bytes(Some(pb - 3)), "1.0 PB");
    assert_eq!(format_bytes(Some(pb - 1)), "1.0 PB");
    assert_eq!(format_bytes(Some(pb)), "1.0 PB");
    assert_eq!(format_bytes(Some(10 * pb - 1)), "10 PB");
    assert_eq!(format_bytes(Some(10 * pb - 16)), "10.0 PB");
    assert_eq!(format_bytes(Some((1 << 53) + 1)), "8.0 PB");
    assert_eq!(format_bytes(Some(1 << 40)), "1.0 TB");
    assert_eq!(format_bytes(Some((1 << 40) - 1)), "1024 GB");
    for b in [1u64, 999, 1025, 12345, 999_999_999, 1 << 33, (1 << 53) - 1, 1 << 60, 12_345_678_901_234_567_890] {
        let exponent = ((b as f64).log(1024.0).floor() as usize).min(5);
        let size = b as f64 / 1024f64.powi(exponent as i32);
        let units = ["B", "KB", "MB", "GB", "TB", "PB"];
        let expected = if size >= 10.0 {
            format!("{:.0} {}", size, units[exponent])
        } else {
            format!("{:.1} {}", size, units[exponent])
        };
        assert_eq!(format_bytes(Some(b)), expected);
    }
}

#[test]
fn url_hosts_bracket_ipv6_literals() {
    assert_eq!(format_url_host("::1"), "[::1]");
    assert_eq!(format_url_host("127.0.0.1"), "127.0.0.1");
    assert_eq!(format_url_host("[::1]"), "[::1]");
    assert_eq!(format_url_host("localhost"), "localhost");
}

#[test]
fn html_escaping() {
    assert_eq!(escape_html("<a href=\"x\">&</a>"), "&lt;a href=\"x\"&gt;&amp;&lt;/a&gt;");
    assert_eq!(escape_attr("say \"hi\" & <go>"), "say &quot;hi&quot; &amp; &lt;go&gt;");
    assert_eq!(escape_html("plain 中文"), "plain 中文");
}

#[test]
fn url_encoding_round_trip() {
    assert_eq!(url_encode("a b"), "a%20b");
    assert_eq!(url_encode("中文"), "%E4%B8%AD%E6%96%87");
    assert_eq!(url_encode("safe-._~"), "safe-._~");
    assert_eq!(url_decode("%E4%B8%AD%E6%96%87"), Some("中文".to_string()));
    assert_eq!(url_decode("100%"), Some("100%".to_string()));
    assert_eq!(url_decode("%FF"), None);
    let name = "a file & ü.txt";
    assert_eq!(url_decode(&url_encode(name)), Some(name.to_string()));
}

#[test]
fn content_types_by_extension() {
    assert_eq!(content_type_for(&b"hello.txt".to_vec()), "text/plain");
    assert_eq!(content_type_for(&b"index.html".to_vec()), "text/html");
    assert_eq!(content_type_for(&b"noext".to_vec()), "application/octet-stream");
    assert_eq!(content_type_for(&b".profile".to_vec()), "application/octet-stream");
    assert_eq!(content_type_for(&b"".to_vec()), "application/octet-stream");
    assert_eq!(content_type_for(&b"file.".to_vec()), "application/octet-stream");
    assert_eq!(content_type_for(&vec![0xff, b'.', b'h', b't', b'm', b'l']), "text/html");
    assert_eq!(content_type_for(&vec![b'a', b'.', 0xff]), "application/octet-stream");
    assert_eq!(content_type_for(&"图.txt".as_bytes().to_vec()), "text/plain");
}

#[test]
fn dates() {
    assert_eq!(format_date(None), "-");
    assert_eq!(http_date(0), Some("Thu, 01 Jan 1970 00:00:00 GMT".to_string()));
    assert_eq!(http_date(1_700_000_000), Some("Tue, 14 Nov 2023 22:13:20 GMT".to_string()));
    let label = format_date(Some(1_700_000_000));
    assert_eq!(label.len(), "2023/11/14 22:13:20".len());
}

#[test]
fn local_dates_are_what_chrono_writes() {
    for secs in [0i64, 1_700_000_000, 951_782_400, -86_400 * 365] {
        let expected = chrono::DateTime::from_timestamp(secs, 0)
            .unwrap()
            .with_timezone(&chrono::Local)
            .format("%Y/%m/%d %H:%M:%S")
            .to_string();
        assert_eq!(format_date(Some(secs)), expected);
    }
    assert_eq!(format_date(Some(i64::MAX)), "-");
}
