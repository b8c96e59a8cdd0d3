use mpm::desc::PackageDesc;
use mpm::digest::{sha_256, sha_512};
use mpm::error::BuildError;

const ABC_SHA256: &str = "ba7816bf8f01cfea414140de5dae2223b00361a396177a9cb410ff61f20015ad";
const ABC_SHA512: &str = "ddaf35a193617abacc417349ae20413112e6fa4e89a97ea20a9eeee64b55d39a\
2192992a274fc1a836ba3c23a3feebbd454d4423643ce80e2a9ac94fa54ca49f";

#[test]
fn sha256_of_known_bytes() {
    assert_eq!(sha_256(b"abc"), ABC_SHA256);
    assert_eq!(
        sha_256(b""),
        "e3b0c44298fc1c149afbf4c8996fb92427ae41e4649b934ca495991b7852b855"
    );
}

#[test]
fn sha512_of_known_bytes() {
    assert_eq!(sha_512(b"abc"), ABC_SHA512);
}

#[test]
fn matching_digest_passes() {
    let mut d = PackageDesc::new();
    d.sha256 = Some(vec![ABC_SHA256.to_string()]);
    assert!(d.match_hash(0, "abc.tar", b"abc").is_ok());
}

#[test]
fn differing_digest_fails_with_computed_value() {
    let mut d = PackageDesc::new();
    d.sha256 = Some(vec![ABC_SHA256.to_string()]);
    let r = d.match_hash(0, "abc.tar", b"abd");
    assert_eq!(
        r,
        Err(BuildError::HashMismatch("abc.tar".to_string(), sha_256(b"abd")))
    );
}

#[test]
fn skip_sentinel_always_passes() {
    let mut d = PackageDesc::new();
    d.sha256 = Some(vec!["SKIP".to_string()]);
    assert!(d.match_hash(0, "anything.bin", b"whatever bytes").is_ok());
}

#[test]
fn missing_index_fails_even_for_intact_file() {
    let mut d = PackageDesc::new();
    d.sha256 = Some(vec![ABC_SHA256.to_string()]);
    assert_eq!(
        d.match_hash(1, "second.tar", b"abc"),
        Err(BuildError::NoHash("second.tar".to_string()))
    );
}

#[test]
fn empty_entry_fails_even_for_intact_file() {
    let mut d = PackageDesc::new();
    d.sha256 = Some(vec!["".to_string()]);
    assert_eq!(
        d.match_hash(0, "first.tar", b"abc"),
        Err(BuildError::NoHash("first.tar".to_string()))
    );
}

#[test]
fn sha512_takes_precedence_over_sha256() {
    let mut d = PackageDesc::new();
    d.sha512 = Some(vec![ABC_SHA512.to_string()]);
    d.sha256 = Some(vec!["not even hex".to_string()]);
    assert!(d.match_hash(0, "abc.tar", b"abc").is_ok());

    let mut e = PackageDesc::new();
    e.sha512 = Some(vec!["0000".to_string()]);
    e.sha256 = Some(vec![ABC_SHA256.to_string()]);
    assert_eq!(
        e.match_hash(0, "abc.tar", b"abc"),
        Err(BuildError::HashMismatch("abc.tar".to_string(), sha_512(b"abc")))
    );
}

#[test]
fn no_digest_lists_means_no_verification() {
    let d = PackageDesc::new();
    assert!(d.match_hash(0, "abc.tar", b"abc").is_ok());
}
