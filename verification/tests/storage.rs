use infuse::digest::Sha3Hex;
use infuse::storage::build_file_path;
use std::path::PathBuf;

const EMPTY_SHA3_256: &str = "a7ffc6f8bf1ed76651c14756a061d662f580ff4de43b49fa82d80a4b80f8434a";
const ABC_SHA3_256: &str = "3a985da74fe225b2045c172d6bd390bd855f086e3e9d525b46bfe24511431532";

#[test]
fn digest_of_empty_input() {
    assert_eq!(Sha3Hex::of_bytes(b"").as_str(), EMPTY_SHA3_256);
}

#[test]
fn digest_of_abc() {
    let d = Sha3Hex::of_bytes(b"abc");
    assert_eq!(d.as_str(), ABC_SHA3_256);
    assert_eq!(d.to_string(), ABC_SHA3_256);
    assert_eq!(d.copy().as_str(), ABC_SHA3_256);
}

#[test]
fn digest_is_lowercase_hex_of_fixed_length() {
    let d = Sha3Hex::of_bytes(&[0u8, 1, 2, 255, 254, 128]);
    assert_eq!(d.as_str().len(), 64);
    assert!(d.as_str().chars().all(|c| c.is_ascii_digit() || ('a'..='f').contains(&c)));
}

fn full_path(static_dir: &str, hash: &str) -> PathBuf {
    let parts = build_file_path(static_dir, hash);
    let mut path = PathBuf::from(&parts.root);
    path.push(&parts.first);
    path.push(&parts.second);
    path.push(&parts.file);
    path.set_extension(&parts.extension);
    path
}

#[test]
fn storage_path_shards_by_digest() {
    let d = Sha3Hex::of_bytes(b"abc");
    let p = build_file_path("/srv/static", d.as_str());
    assert_eq!(p.root, "/srv/static");
    assert_eq!(p.first, "3a");
    assert_eq!(p.second, "98");
    assert_eq!(p.file, ABC_SHA3_256);
    assert_eq!(p.extension, "pdf");
}

#[test]
fn storage_path_of_a_short_hash() {
    let p = build_file_path("/srv/static", "abcdef0123");
    assert_eq!(p.first, "ab");
    assert_eq!(p.second, "cd");
    assert_eq!(p.file, "abcdef0123");
    assert_eq!(
        full_path("/srv/static", "abcdef0123"),
        PathBuf::from("/srv/static/ab/cd/abcdef0123.pdf")
    );
    assert_eq!(full_path("s", "wxyz"), PathBuf::from("s/wx/yz/wxyz.pdf"));
}

#[test]
fn storage_path_cuts_at_bytes() {
    let p = build_file_path("d", "\u{e9}\u{e9}12");
    assert_eq!(p.first, "\u{e9}");
    assert_eq!(p.second, "\u{e9}");
    assert_eq!(p.file, "\u{e9}\u{e9}12");
}

#[test]
fn different_content_gets_different_files() {
    let one = Sha3Hex::of_bytes(b"one");
    let two = Sha3Hex::of_bytes(b"two");
    let a = full_path("s", one.as_str());
    let b = full_path("s", two.as_str());
    assert_ne!(a, b);
    assert_ne!(full_path("s", "abcd1"), full_path("s", "abcd2"));
}
