use std::cmp::Ordering;

use bunny_storage::key_order::order_of_bytes;
use bunny_storage::BunnyRemoteFile;
use bunny_storage::KeyOrder;
use bunny_storage::RemoteFile;

fn file(key: &str) -> BunnyRemoteFile {
    BunnyRemoteFile { key: key.to_string() }
}

fn keys() -> Vec<&'static str> {
    vec!["", "a", "a.txt", "a.txu", "A", "aa", "ab", "b", "z", "\u{00e9}", "e\u{0301}", "\u{1f407}", "\u{ffff}", "\u{10000}", "~", "a/b", "a b"]
}

#[test]
fn references_are_equal_when_their_keys_are() {
    assert!(file("a.txt") == file("a.txt"));
    assert!(file("a.txt") != file("a.txu"));
    assert!(file("a.txt") != file("A.TXT"));
    assert!(file("") == file(""));
    assert!(file("") != file(" "));
}

#[test]
fn equality_is_that_of_the_keys_for_every_pair() {
    for a in keys() {
        for b in keys() {
            assert_eq!(file(a) == file(b), a == b);
            assert_eq!(file(a) != file(b), a != b);
        }
    }
}

#[test]
fn references_are_ordered_as_their_keys() {
    assert_eq!(file("a").partial_cmp(&file("b")), Some(Ordering::Less));
    assert_eq!(file("b").partial_cmp(&file("a")), Some(Ordering::Greater));
    assert_eq!(file("a").partial_cmp(&file("a")), Some(Ordering::Equal));
    assert_eq!(file("a").partial_cmp(&file("aa")), Some(Ordering::Less));
    assert_eq!(file("").partial_cmp(&file("a")), Some(Ordering::Less));
    assert_eq!(file("B").partial_cmp(&file("a")), Some(Ordering::Less));
    assert!(file("a.txt") < file("a.txu"));
    assert!(file("z") > file("a/b"));
    assert!(file("a") <= file("a"));
    assert!(file("a") >= file("a"));
}

#[test]
fn order_is_that_of_the_keys_for_every_pair() {
    for a in keys() {
        for b in keys() {
            assert_eq!(file(a).partial_cmp(&file(b)), Some(a.cmp(b)));
            assert_eq!(file(a).cmp(&file(b)), a.cmp(b));
            assert_eq!(file(a) < file(b), a < b);
        }
    }
}

#[test]
fn order_agrees_with_equality() {
    for a in keys() {
        for b in keys() {
            assert_eq!(file(a).partial_cmp(&file(b)) == Some(Ordering::Equal), file(a) == file(b));
            assert_eq!(
                file(a).partial_cmp(&file(b)) == Some(Ordering::Less),
                file(b).partial_cmp(&file(a)) == Some(Ordering::Greater)
            );
        }
    }
}

#[test]
fn bytes_are_ordered_place_by_place() {
    assert_eq!(order_of_bytes(&[], &[]), KeyOrder::Same);
    assert_eq!(order_of_bytes(&[], &[0]), KeyOrder::Before);
    assert_eq!(order_of_bytes(&[0], &[]), KeyOrder::After);
    assert_eq!(order_of_bytes(&[1, 2, 3], &[1, 2, 3]), KeyOrder::Same);
    assert_eq!(order_of_bytes(&[1, 2, 3], &[1, 2, 4]), KeyOrder::Before);
    assert_eq!(order_of_bytes(&[1, 2, 4], &[1, 2, 3]), KeyOrder::After);
    assert_eq!(order_of_bytes(&[1, 2], &[1, 2, 0]), KeyOrder::Before);
    assert_eq!(order_of_bytes(&[1, 2, 0], &[1, 2]), KeyOrder::After);
    assert_eq!(order_of_bytes(&[2], &[1, 255, 255]), KeyOrder::After);
    assert_eq!(order_of_bytes(&[127], &[128]), KeyOrder::Before);
    assert_eq!(order_of_bytes(&[255], &[0, 0]), KeyOrder::After);
}

#[test]
fn byte_order_is_transitive_on_samples() {
    let samples: Vec<Vec<u8>> = vec![vec![], vec![0], vec![0, 0], vec![0, 1], vec![1], vec![1, 0], vec![255], vec![255, 255]];
    for a in &samples {
        for b in &samples {
            for c in &samples {
                if order_of_bytes(a, b) == KeyOrder::Before && order_of_bytes(b, c) == KeyOrder::Before {
                    assert_eq!(order_of_bytes(a, c), KeyOrder::Before);
                }
            }
            assert_eq!(order_of_bytes(a, b) == KeyOrder::Before, order_of_bytes(b, a) == KeyOrder::After);
            assert_eq!(order_of_bytes(a, b) == KeyOrder::Same, a == b);
        }
    }
}

#[test]
fn tagged_references_are_equal_when_tag_and_content_are() {
    let bunny = RemoteFile::Bunny(file("a.txt"));
    let other = RemoteFile::Other { backend: "local".to_string(), reference: "a.txt".to_string() };
    assert_eq!(bunny, RemoteFile::Bunny(file("a.txt")));
    assert_ne!(bunny, RemoteFile::Bunny(file("b.txt")));
    assert_ne!(bunny, other);
    assert_eq!(other.clone(), other);
}

#[test]
fn a_clone_of_a_reference_is_equal_to_it() {
    let first = file("nar/abc.nar");
    let copy = first.clone();
    assert_eq!(copy, first);
    assert_eq!(copy.key, "nar/abc.nar");
}
