use gitatlas::error::AppError;
use gitatlas::paths;
use gitatlas::text;

#[test]
fn paths_join() {
    assert_eq!(paths::join("/a", "b"), "/a/b");
    assert_eq!(paths::join("/a/", "b"), "/a/b");
    assert_eq!(paths::join("/a", "/b"), "/b");
    assert_eq!(paths::join("", "b"), "b");
}

#[test]
fn paths_agree_with_std() {
    let all = [
        "/a/b.c", "a/b/", "/", "", ".", "..", "a/..", "a/.", "./a", "a//b", ".hidden", "x.tar.gz",
        "a.", "/a/.b", "a/./b", "//a", "key.pub", "dir.d/key", "..a", "a/b.pub/",
    ];
    for a in all {
        let p = std::path::Path::new(a);
        let name = p.file_name().map(|n| n.to_string_lossy().to_string());
        assert_eq!(paths::file_name(a), name, "{}", a);
        let ext = p.extension().map(|n| n.to_string_lossy().to_string());
        assert_eq!(paths::extension(a), ext, "{}", a);
        for e in ["pub", ""] {
            let mut with = p.to_path_buf();
            with.set_extension(e);
            let with = with.to_string_lossy().to_string();
            assert_eq!(paths::with_extension(a, e), with, "{} {}", a, e);
        }
        for b in all {
            let q = std::path::Path::new(b);
            assert_eq!(paths::same(a, b), p == q, "{} {}", a, b);
            assert_eq!(paths::not_after(a, b), p <= q, "{} {}", a, b);
            assert_eq!(paths::join(a, b), p.join(q).to_string_lossy().to_string());
        }
    }
}

#[test]
fn texts_agree_with_std() {
    let all = ["", "a", "ab", " a b ", "a\nb\r\nc", "\n", "a\r", "ÄÖ", "\u{2003}x\u{85}", "a:b:c"];
    for a in all {
        assert_eq!(text::trim(a), a.trim());
        let lines: Vec<String> = a.lines().map(|l| l.to_string()).collect();
        assert_eq!(text::lines(a), lines);
        assert_eq!(text::first_line(a), a.lines().next().unwrap_or(""));
        assert_eq!(text::to_ascii_lowercase(a), a.to_ascii_lowercase());
        assert_eq!(text::replace_char(a, ':', '/'), a.replace(':', "/"));
        assert_eq!(text::replace_first_char(a, ':', '/'), a.replacen(':', "/", 1));
        let once = a.split_once(':').map(|(x, y)| (x.to_string(), y.to_string()));
        assert_eq!(text::split_once(a, ':'), once);
        let last = a.rsplit_once(':').map(|(x, y)| (x.to_string(), y.to_string()));
        assert_eq!(text::rsplit_once(a, ':'), last);
        for b in all {
            assert_eq!(text::contains(a, b), a.contains(b));
            assert_eq!(text::starts_with(a, b), a.starts_with(b));
            assert_eq!(text::strip_prefix(a, b), a.strip_prefix(b).map(|s| s.to_string()));
            assert_eq!(text::strip_suffix(a, b), a.strip_suffix(b).map(|s| s.to_string()));
            assert_eq!(text::not_after(a, b), a <= b);
            assert_eq!(text::eq_ignore_ascii_case(a, b), a.eq_ignore_ascii_case(b));
        }
    }
}

#[test]
fn ports_are_read_as_std_reads_them() {
    for s in ["22", "0", "65535", "65536", "+22", "-1", "", "+", "2a", " 2", "00022", "99999999999"] {
        assert_eq!(text::parse_u16(s), s.parse::<u16>().ok(), "{}", s);
    }
}

#[test]
fn numbers_are_written_as_std_writes_them() {
    for n in [0u64, 7, 10, 99, 100, 12345, u64::MAX] {
        assert_eq!(text::decimal(n), n.to_string());
        assert_eq!(text::two_digits(n), format!("{:02}", n));
    }
}

#[test]
fn errors_have_texts() {
    assert_eq!(AppError::msg("x").text(), "x");
    assert_eq!(AppError::msg("x").report(), "x");
    assert_eq!(AppError::Git("g".to_string()).text(), "Git error: g");
    assert_eq!(AppError::Git("g".to_string()).report(), "Git error: g: g");
    assert_eq!(AppError::Io("i".to_string()).text(), "IO error: i");
    assert_eq!(AppError::Io("i".to_string()).report(), "IO error: i: i");
}
