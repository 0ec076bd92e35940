use patcher::checkpoint::{
    decode_checkpoint, encode_checkpoint, get_cache_file_path, CheckpointRecord,
};
use patcher::manifest::{parse_manifest, ManifestEntry};
use patcher::urls::{parse_base_url, resolve_patch_file_url};

fn names(entries: &[ManifestEntry]) -> Vec<(u64, &str)> {
    entries.iter().map(|e| (e.index, e.file_name.as_str())).collect()
}

#[test]
fn parse_plain_listing() {
    let body = "1 patch-001.thor\n2 patch-002.thor\n3 patch-003.thor\n";
    let m = parse_manifest(body);
    assert_eq!(
        names(&m),
        vec![(1, "patch-001.thor"), (2, "patch-002.thor"), (3, "patch-003.thor")]
    );
}

#[test]
fn parse_tolerates_crlf_blanks_and_junk() {
    let body = "1 a.thor\r\n\r\nnot a line\n  5 indented.thor\n2 b.thor";
    let m = parse_manifest(body);
    // the indented line has no leading digit, so it announces nothing
    assert_eq!(names(&m), vec![(1, "a.thor"), (2, "b.thor")]);
}

#[test]
fn parse_keeps_spaces_inside_names() {
    let m = parse_manifest("10   spaced name.thor\n");
    assert_eq!(names(&m), vec![(10, "spaced name.thor")]);
}

#[test]
fn parse_skips_lines_without_name_or_digits() {
    let m = parse_manifest("5\n6 \n x.thor\n7 ok.thor\n");
    assert_eq!(names(&m), vec![(7, "ok.thor")]);
}

#[test]
fn parse_skips_overflowing_index() {
    let m = parse_manifest("99999999999999999999999999 too-big.thor\n1 fits.thor\n");
    assert_eq!(names(&m), vec![(1, "fits.thor")]);
}

#[test]
fn parse_empty_body_is_empty_manifest() {
    assert!(parse_manifest("").is_empty());
    assert!(parse_manifest("\n\n").is_empty());
}

#[test]
fn parse_largest_index_fits() {
    let m = parse_manifest("18446744073709551615 last.thor\n");
    assert_eq!(names(&m), vec![(u64::MAX, "last.thor")]);
}

#[test]
fn cache_path_replaces_extension() {
    let p = get_cache_file_path(Some(String::from("rpatchur.exe"))).unwrap();
    assert_eq!(p.as_str(), "rpatchur.dat");
}

#[test]
fn cache_path_appends_extension_when_none() {
    let p = get_cache_file_path(Some(String::from("patcher"))).unwrap();
    assert_eq!(p.as_str(), "patcher.dat");
}

#[test]
fn cache_path_replaces_only_the_last_extension() {
    let p = get_cache_file_path(Some(String::from("patcher.tar.gz"))).unwrap();
    assert_eq!(p.as_str(), "patcher.tar.dat");
}

#[test]
fn cache_path_keeps_leading_dot_name() {
    let p = get_cache_file_path(Some(String::from(".hidden"))).unwrap();
    assert_eq!(p.as_str(), ".hidden.dat");
}

#[test]
fn cache_path_none_without_name() {
    assert!(get_cache_file_path(None).is_none());
}

#[test]
fn checkpoint_encodes_little_endian() {
    let rec = CheckpointRecord { last_applied_index: 0x0102030405060708 };
    let bytes = encode_checkpoint(&rec);
    assert_eq!(bytes, vec![0x08, 0x07, 0x06, 0x05, 0x04, 0x03, 0x02, 0x01]);
}

#[test]
fn checkpoint_roundtrips() {
    for idx in [0u64, 1, 42, u64::MAX - 1, u64::MAX] {
        let rec = CheckpointRecord { last_applied_index: idx };
        let bytes = encode_checkpoint(&rec);
        let back = decode_checkpoint(&bytes).unwrap();
        assert_eq!(back.last_applied_index, idx);
    }
}

#[test]
fn checkpoint_rejects_wrong_length() {
    assert!(decode_checkpoint(&[]).is_none());
    assert!(decode_checkpoint(&[1, 2, 3]).is_none());
    assert!(decode_checkpoint(&[0; 9]).is_none());
}

#[test]
fn patch_file_url_joins_against_base() {
    let base = parse_base_url("http://example.com/patches/").unwrap();
    let joined = resolve_patch_file_url(&base, "patch-001.thor").unwrap();
    assert_eq!(joined.as_str(), "http://example.com/patches/patch-001.thor");
}

#[test]
fn patch_file_url_rejects_unjoinable_name() {
    let base = parse_base_url("http://example.com/patches/").unwrap();
    assert!(resolve_patch_file_url(&base, "http://[oops").is_none());
}

#[test]
fn base_url_rejects_non_urls() {
    assert!(parse_base_url("not a url at all").is_none());
}
