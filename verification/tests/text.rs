use async_downloader::attempt::range_header;
use async_downloader::file_name_from_url;
use async_downloader::text::{
    chars_of, eq_ignoring_ascii_case, has_white_space_property, push_decimal, push_hex, string_of,
    trim_bounds,
};

#[test]
fn white_space_is_that_of_unicode() {
    for code in 0u32..=0x10FFFF {
        if let Some(c) = char::from_u32(code) {
            assert_eq!(has_white_space_property(c), c.is_whitespace());
        }
    }
}

#[test]
fn decimals_are_those_of_std() {
    for n in [0u64, 9, 10, 11, 99, 100, 1234567890, u64::MAX] {
        let mut text: String = String::from("n=");
        push_decimal(&mut text, n);
        assert_eq!(text, format!("n={n}"));
    }
}

#[test]
fn hex_digits_are_those_of_std() {
    for byte in 0u8..=255 {
        let mut text: String = String::new();
        push_hex(&mut text, byte);
        assert_eq!(text, format!("{byte:02x}"));
    }
}

#[test]
fn trimming_is_that_of_std() {
    for text in ["", " ", "a", " a", "a ", "\t a b \n", "\u{a0}x\u{3000}", "\u{200b}x", "  \u{2028} "] {
        let chars: Vec<char> = chars_of(text);
        let (from, to): (usize, usize) = trim_bounds(&chars);
        assert_eq!(string_of(&chars, from, to), text.trim());
    }
}

#[test]
fn comparison_is_that_of_std() {
    let texts: [&str; 9] = ["", "a", "A", "ab", "aB", "AB ", "\u{e9}", "\u{c9}", "[{"];
    for a in texts {
        for b in texts {
            let x: Vec<char> = chars_of(a);
            let y: Vec<char> = chars_of(b);
            assert_eq!(eq_ignoring_ascii_case(&x, 0, x.len(), &y), a.eq_ignore_ascii_case(b));
        }
    }
    let part: Vec<char> = chars_of("xABCx");
    assert!(eq_ignoring_ascii_case(&part, 1, 4, &chars_of("abc")));
    assert!(!eq_ignoring_ascii_case(&part, 0, 4, &chars_of("abc")));
}

#[test]
fn a_range_header_asks_for_the_rest() {
    assert_eq!(range_header(0), "bytes=0-");
    assert_eq!(range_header(65536), "bytes=65536-");
    assert_eq!(range_header(u64::MAX), "bytes=18446744073709551615-");
}

fn by_splitting(url: &str) -> Option<String> {
    let trimmed: &str = url.split(['?', '#']).next().unwrap_or(url);
    let name: &str = trimmed.trim_end_matches('/').rsplit('/').next()?;
    if name.is_empty() {
        None
    } else {
        Some(name.to_owned())
    }
}

#[test]
fn file_names_out_of_addresses() {
    assert_eq!(
        file_name_from_url("https://example.com/file.bin"),
        Some("file.bin".to_owned())
    );
    assert_eq!(
        file_name_from_url("https://example.com/a/b.zip?x=1/2#y"),
        Some("b.zip".to_owned())
    );
    assert_eq!(
        file_name_from_url("https://example.com/dir///"),
        Some("dir".to_owned())
    );
    assert_eq!(
        file_name_from_url("https://example.com"),
        Some("example.com".to_owned())
    );
    assert_eq!(file_name_from_url(""), None);
    assert_eq!(file_name_from_url("///"), None);
    assert_eq!(file_name_from_url("?a/b"), None);
    assert_eq!(file_name_from_url("#"), None);
    assert_eq!(file_name_from_url("name"), Some("name".to_owned()));
    assert_eq!(
        file_name_from_url("http://h/\u{fc}ber\u{2014}.txt#/x"),
        Some("\u{fc}ber\u{2014}.txt".to_owned())
    );
}

#[test]
fn file_names_are_those_of_splitting() {
    let letters: [char; 4] = ['a', '/', '?', '#'];
    for code in 0usize..4096 {
        let mut url: String = String::new();
        let mut rest: usize = code;
        for _ in 0usize..6 {
            url.push(letters[rest % 4]);
            rest /= 4;
        }
        for end in 0usize..=6 {
            let part: &str = &url[..end];
            assert_eq!(file_name_from_url(part), by_splitting(part));
        }
    }
}

#[test]
fn a_query_and_a_trailing_slash_change_nothing() {
    let plain: Option<String> = file_name_from_url("http://h/x.iso");
    assert_eq!(file_name_from_url("http://h/x.iso?q=/y"), plain);
    assert_eq!(file_name_from_url("http://h/x.iso#f"), plain);
    assert_eq!(file_name_from_url("http://h/x.iso/"), plain);
    assert_eq!(file_name_from_url("http://h/x.iso?q#f?g"), plain);
    assert_eq!(file_name_from_url("http://h/x.iso?q/"), plain);
    assert_eq!(file_name_from_url("x.iso"), plain);
}
