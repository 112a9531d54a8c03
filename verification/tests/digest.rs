use async_downloader::digest::{verify, FileHash, PIECE};
use async_downloader::Verification;

fn digest_of(pieces: &[&[u8]]) -> String {
    let mut hash: FileHash = FileHash::new();
    for piece in pieces {
        assert!(hash.feed(piece, piece.len()));
    }
    assert!(!hash.feed(&[1, 2, 3], 0));
    hash.finish()
}

const ABC: &str = "ba7816bf8f01cfea414140de5dae2223b00361a396177a9cb410ff61f20015ad";

#[test]
fn digests_of_known_messages() {
    assert_eq!(
        digest_of(&[]),
        "e3b0c44298fc1c149afbf4c8996fb92427ae41e4649b934ca495991b7852b855"
    );
    assert_eq!(digest_of(&[b"abc"]), ABC);
    assert_eq!(
        digest_of(&[b"abcdbcdecdefdefgefghfghighijhijkijkljklmklmnlmnomnopnopq"]),
        "248d6a61d20638b8e5c026930c3e6039a33ce45964ff2167f6ecedd419db06c1"
    );
}

#[test]
fn the_pieces_do_not_matter() {
    assert_eq!(digest_of(&[b"a", b"b", b"c"]), ABC);
    assert_eq!(digest_of(&[b"ab", b"c"]), ABC);
}

#[test]
fn a_long_file_is_read_in_pieces() {
    let buffer: Vec<u8> = vec![b'a'; PIECE];
    let mut hash: FileHash = FileHash::new();
    let mut left: usize = 1_000_000;
    while left > 0 {
        let read: usize = left.min(PIECE);
        assert!(hash.feed(&buffer, read));
        left -= read;
    }
    assert!(!hash.feed(&buffer, 0));
    assert_eq!(
        hash.finish(),
        "cdc76e5c9914fb9281a1c7e284d73e67f1809a48a497200e046d39ccc7112cd0"
    );
}

#[test]
fn only_what_was_read_is_hashed() {
    let mut hash: FileHash = FileHash::new();
    assert!(hash.feed(b"abcdef", 3));
    assert_eq!(hash.finish(), ABC);
}

fn judged(expected: Option<&str>, found: &str) -> Verification {
    verify(&expected.map(|text| text.to_owned()), &found.to_owned())
}

#[test]
fn nothing_expected_is_not_compared() {
    assert_eq!(judged(None, ABC), Verification::Skipped);
}

#[test]
fn the_expected_digest_matches() {
    assert_eq!(judged(Some(ABC), ABC), Verification::Matched);
    assert_eq!(judged(Some(&ABC.to_uppercase()), ABC), Verification::Matched);
    assert_eq!(judged(Some(&format!(" \t{ABC}\n")), ABC), Verification::Matched);
}

#[test]
fn another_digest_does_not_match() {
    assert_eq!(judged(Some(""), ABC), Verification::Mismatch);
    assert_eq!(judged(Some(&ABC[1..]), ABC), Verification::Mismatch);
    assert_eq!(judged(Some(&format!("{ABC}0")), ABC), Verification::Mismatch);
    assert_eq!(judged(Some(&ABC.replace('b', "c")), ABC), Verification::Mismatch);
    assert_eq!(judged(Some(&ABC.replace("ad", "a d")), ABC), Verification::Mismatch);
}
