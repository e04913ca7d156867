//! Texts, paths, digests and operations.

use a3s_oci_runtime::digest::{
    canonical_git_revision, canonical_optional_digest, canonical_sha256, canonical_sha256_digest,
    sha256_digest, sha256_hex,
};
use a3s_oci_runtime::operations::{
    agent_operations, expected_operations, inventory_of, rank, record_operation, same_operations,
    RuntimeOperation,
};
use a3s_oci_runtime::path::{
    components_of, file_name_of, has_no_parent_step, is_absolute, is_directly_below, join,
    same_path, starts_with,
};
use a3s_oci_runtime::text::{
    append_decimal, append_padded_decimal, append_wide_decimal, byte_count, chars_of,
    contains_text, decode_hex, encode_hex, find_pair, less, parse_unsigned, rfind_char,
    rfind_pair, sort_texts, split, split_fields, string_of, strip_prefix, strip_suffix, text_eq,
    trim,
};
use a3s_oci_runtime::text_map::TextMap;

#[test]
fn hexadecimal_texts_come_back_as_bytes() {
    assert_eq!(encode_hex(&[0, 1, 0xab, 255]), "0001abff");
    assert_eq!(decode_hex(&chars_of("0001abff")), vec![0, 1, 0xab, 255]);
}

#[test]
fn numbers_are_written_and_read() {
    let mut text = String::new();
    append_decimal(&mut text, u64::MAX);
    assert_eq!(text, "18446744073709551615");
    text.clear();
    append_decimal(&mut text, 0);
    append_padded_decimal(&mut text, 42, 5);
    assert_eq!(text, "000042");
    text.clear();
    append_wide_decimal(&mut text, u128::MAX);
    assert_eq!(text, "340282366920938463463374607431768211455");
    assert_eq!(parse_unsigned(&chars_of("255"), 255), Some(255));
    assert_eq!(parse_unsigned(&chars_of("256"), 255), None);
    assert_eq!(parse_unsigned(&chars_of("+7"), 255), Some(7));
    assert_eq!(parse_unsigned(&chars_of("-7"), 255), None);
    assert_eq!(parse_unsigned(&chars_of(""), 255), None);
}

#[test]
fn texts_are_taken_apart() {
    assert_eq!(
        split(&chars_of("a,,b"), ','),
        vec![vec!['a'], Vec::new(), vec!['b']]
    );
    assert_eq!(
        split_fields(&chars_of(" a\t bc\n"), true),
        vec![vec!['a'], vec!['b', 'c']]
    );
    assert_eq!(trim(&chars_of("  a b \n")), chars_of("a b"));
    assert_eq!(strip_prefix("sha256:ab", "sha256:"), Some(vec!['a', 'b']));
    assert_eq!(strip_prefix("ab", "sha256:"), None);
    assert_eq!(strip_suffix("a.json", ".json"), Some(vec!['a']));
    assert_eq!(rfind_char(&chars_of("a)b)c"), ')'), Some(3));
    assert_eq!(find_pair(&chars_of("a) b) c"), ')', ' '), Some(1));
    assert_eq!(rfind_pair(&chars_of("a) b) c"), ')', ' '), Some(4));
    assert!(contains_text("needle in hay", "le in"));
    assert!(!contains_text("needle in hay", "hay "));
    assert_eq!(string_of(&['\u{e9}', 'x']), "\u{e9}x");
    assert_eq!(byte_count("\u{e9}x\u{10ffff}"), 7);
    assert!(text_eq("a", "a"));
    assert!(!text_eq("a", "b"));
}

#[test]
fn texts_are_ordered_as_strings_are() {
    let pairs = [("", "a"), ("a", "b"), ("a", "ab"), ("Z", "a"), ("\u{e9}", "\u{10ffff}"), ("a", "a")];
    for (left, right) in pairs {
        assert_eq!(less(left, right), left < right);
        assert_eq!(less(right, left), right < left);
    }
    let sorted = sort_texts(vec!["b".to_string(), "a".to_string(), "ab".to_string()]);
    assert_eq!(sorted, vec!["a", "ab", "b"]);
}

#[test]
fn paths_are_compared_by_their_steps() {
    assert!(is_absolute("/a"));
    assert!(!is_absolute("a"));
    assert!(same_path("/a//b/", "/a/b"));
    assert!(same_path("/a/./b", "/a/b"));
    assert!(!same_path("a", "/a"));
    assert!(starts_with("/a/b", "/a"));
    assert!(!starts_with("/ab", "/a"));
    assert!(has_no_parent_step("/a/b"));
    assert!(!has_no_parent_step("/a/../b"));
    assert_eq!(join("/a", "b"), "/a/b");
    assert_eq!(join("/a/", "b"), "/a/b");
    assert_eq!(join("/a", "/b"), "/b");
    assert!(is_directly_below("/a/b", "/a"));
    assert!(!is_directly_below("/a/b/c", "/a"));
    assert_eq!(file_name_of("/a/b"), Some("b".to_string()));
    assert_eq!(file_name_of("/a/.."), None);
    assert_eq!(components_of("/a/b").len(), 3);
}

#[test]
fn digests_are_those_of_the_bytes() {
    assert_eq!(
        sha256_hex(b""),
        "e3b0c44298fc1c149afbf4c8996fb92427ae41e4649b934ca495991b7852b855"
    );
    assert_eq!(
        sha256_digest(b"abc"),
        "sha256:ba7816bf8f01cfea414140de5dae2223b00361a396177a9cb410ff61f20015ad"
    );
    assert!(canonical_sha256_digest(&sha256_digest(b"abc")));
    assert!(canonical_sha256(&sha256_hex(b"abc")));
    assert!(!canonical_sha256(&"A".repeat(64)));
    assert!(!canonical_sha256_digest(&"a".repeat(64)));
    assert!(canonical_optional_digest(&Some(sha256_digest(b"abc"))));
    assert!(canonical_git_revision(&"0".repeat(40)));
    assert!(!canonical_git_revision(&"0".repeat(41)));
}

#[test]
fn operations_are_counted_once_in_their_order() {
    let all = expected_operations();
    assert_eq!(all.len(), 23);
    assert!(!all.contains(&RuntimeOperation::Checkpoint));
    for pair in all.windows(2) {
        assert!(rank(pair[0]) < rank(pair[1]));
    }
    assert_eq!(agent_operations().len(), 20);
    let mut shuffled = vec![
        RuntimeOperation::Kill,
        RuntimeOperation::Create,
        RuntimeOperation::Kill,
    ];
    assert_eq!(
        inventory_of(&shuffled),
        vec![RuntimeOperation::Create, RuntimeOperation::Kill]
    );
    record_operation(&mut shuffled, RuntimeOperation::Wait);
    assert!(shuffled.contains(&RuntimeOperation::Wait));
    assert!(same_operations(&all, &expected_operations()));
    assert!(!same_operations(&all, &agent_operations()));
}

#[test]
fn maps_keep_one_value_for_each_text() {
    let mut map: TextMap<u32> = TextMap::new();
    map.insert("b", 1);
    map.insert("a", 2);
    map.insert("b", 3);
    assert_eq!(map.get("b"), Some(&3));
    map.remove("b");
    assert_eq!(map.get("b"), None);
    assert_eq!(map.get("a"), Some(&2));
}
