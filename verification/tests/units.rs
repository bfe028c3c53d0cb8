use std::sync::Arc;

use tough::datastore::{Datastore, StoreFile, StoreOp, Stored};
use tough::der::{read_element, read_length, read_subject_public_key};
use tough::error::{Error, RoleType};
use tough::fetch::{fetch_max_size, fetch_sha256, FetchRequest, Fetched};
use tough::limits::Limits;
use tough::named_map::NamedMap;
use tough::schema::{
    bytes_equal, keys_equal, Hashes, Key, KeyType, SignatureScheme, Signed, Timestamp, Version,
};
use tough::time::UtcTime;
use tough::urls::{join_url, metadata_file, normalize, parse_url, target_file, versioned_name};

// A URL given with its final slash and one given without it parse to the same URL.
#[test]
fn url_missing_trailing_slash() {
    let parsed_url_without_trailing_slash = parse_url("https://example.org/a/b/c").unwrap();
    let parsed_url_with_trailing_slash = parse_url("https://example.org/a/b/c/").unwrap();
    assert_eq!(
        parsed_url_without_trailing_slash,
        parsed_url_with_trailing_slash
    )
}

#[test]
fn parse_url_gives_the_text_of_the_parsed_url() {
    assert_eq!(parse_url("https://example.org/a/b/c").unwrap(), "https://example.org/a/b/c/");
    assert_eq!(parse_url("HTTPS://Example.ORG").unwrap(), "https://example.org/");
    assert_eq!(parse_url("https://h/p").unwrap(), parse_url("https://h/p/").unwrap());
}

#[test]
fn parse_url_rejects_what_is_no_absolute_url() {
    assert_eq!(
        parse_url("not a url"),
        Err(Error::ParseUrl { url: "not a url/".to_owned() })
    );
    assert_eq!(parse_url(""), Err(Error::ParseUrl { url: "/".to_owned() }));
}

#[test]
fn normalize_adds_one_slash_and_no_more() {
    assert_eq!(normalize("https://h/p"), "https://h/p/");
    assert_eq!(normalize("https://h/p/"), "https://h/p/");
    assert_eq!(normalize(""), "/");
    assert_eq!(normalize("/"), "/");
    assert_eq!(normalize("https://h/\u{e9}"), "https://h/\u{e9}/");
    for url in ["https://h/p", "https://h/p/", "", "a//"] {
        let once = normalize(url);
        assert_eq!(normalize(&once), once);
    }
}

#[test]
fn join_url_appends_to_a_normalized_base() {
    let base = parse_url("https://example.org/metadata").unwrap();
    assert_eq!(
        join_url(&base, "timestamp.json".to_owned()).unwrap(),
        "https://example.org/metadata/timestamp.json"
    );
    assert_eq!(
        join_url(&base, "2.root.json".to_owned()).unwrap(),
        "https://example.org/metadata/2.root.json"
    );
}

#[test]
fn join_url_fails_on_a_base_that_cannot_be_one() {
    let base = parse_url("mailto:someone").unwrap();
    assert_eq!(
        join_url(&base, "timestamp.json".to_owned()),
        Err(Error::JoinUrl { path: "timestamp.json".to_owned(), url: base.clone() })
    );
    assert_eq!(
        join_url("no url at all", "x".to_owned()),
        Err(Error::JoinUrl { path: "x".to_owned(), url: "no url at all".to_owned() })
    );
}

#[test]
fn versioned_names_are_decimal() {
    assert_eq!(versioned_name(0, "root.json"), "0.root.json");
    assert_eq!(versioned_name(7, "root.json"), "7.root.json");
    assert_eq!(versioned_name(10, "root.json"), "10.root.json");
    assert_eq!(versioned_name(42, "snapshot.json"), "42.snapshot.json");
    assert_eq!(versioned_name(1234567890, "targets.json"), "1234567890.targets.json");
    assert_eq!(
        versioned_name(u64::MAX as u128, "root.json"),
        "18446744073709551615.root.json"
    );
    assert_eq!(
        versioned_name(u64::MAX as u128 + 1, "root.json"),
        "18446744073709551616.root.json"
    );
}

#[test]
fn metadata_files_carry_a_version_only_with_consistent_snapshots() {
    assert_eq!(metadata_file(false, 3, "snapshot.json"), "snapshot.json");
    assert_eq!(metadata_file(true, 3, "snapshot.json"), "3.snapshot.json");
    assert_eq!(metadata_file(true, 100, "targets.json"), "100.targets.json");
}

#[test]
fn target_files_carry_a_digest_only_with_consistent_snapshots() {
    let digest = [0x00u8, 0x0f, 0x10, 0xab, 0xff];
    assert_eq!(target_file(false, &digest, "app.bin"), "app.bin");
    assert_eq!(target_file(true, &digest, "app.bin"), "000f10abff.app.bin");
    assert_eq!(target_file(true, &[], "app.bin"), ".app.bin");
    assert_eq!(target_file(true, &[1, 2, 3, 15, 16], "x"), "0102030f10.x");
}

#[test]
fn default_limits() {
    let limits = Limits::default();
    assert_eq!(limits.max_root_size, 1_048_576);
    assert_eq!(limits.max_targets_size, 10_485_760);
    assert_eq!(limits.max_timestamp_size, 1_048_576);
    assert_eq!(limits.max_root_updates, 1024);
}

#[test]
fn times_are_ordered_by_seconds_then_nanoseconds() {
    let a = UtcTime::new(10, 5);
    let b = UtcTime::new(10, 6);
    let c = UtcTime::new(11, 0);
    let d = UtcTime::new(-1, 999_999_999);
    assert!(a.is_before(&b));
    assert!(b.is_before(&c));
    assert!(a.is_before(&c));
    assert!(d.is_before(&a));
    assert!(!a.is_before(&a));
    assert!(!b.is_before(&a));
    assert!(!c.is_before(&b));
    assert_eq!(a, UtcTime { secs: 10, nanos: 5 });
}

#[test]
fn bytes_and_keys_compare_by_all_they_hold() {
    assert!(bytes_equal(&[], &[]));
    assert!(bytes_equal(&[1, 2, 3], &[1, 2, 3]));
    assert!(!bytes_equal(&[1, 2, 3], &[1, 2, 4]));
    assert!(!bytes_equal(&[1, 2, 3], &[1, 2]));
    let key = Key {
        key_id: vec![1],
        key_type: KeyType::Ed25519,
        scheme: SignatureScheme::Ed25519,
        public: vec![9; 32],
    };
    assert!(keys_equal(&key, &key.clone()));
    assert!(!keys_equal(&key, &Key { key_id: vec![2], ..key.clone() }));
    assert!(!keys_equal(&key, &Key { key_type: KeyType::Rsa, ..key.clone() }));
    assert!(!keys_equal(&key, &Key { scheme: SignatureScheme::RsassaPssSha256, ..key.clone() }));
    assert!(!keys_equal(&key, &Key { public: vec![8; 32], ..key.clone() }));
}

#[test]
fn named_map_keeps_one_value_for_each_name() {
    let map: NamedMap<u32> = NamedMap::new();
    assert_eq!(map.len(), 0);
    assert_eq!(map.get("a"), None);
    let (map, replaced) = map.insert("a".to_owned(), 1);
    assert_eq!(replaced, None);
    let (map, replaced) = map.insert("b".to_owned(), 2);
    assert_eq!(replaced, None);
    let (map, replaced) = map.insert("a".to_owned(), 3);
    assert_eq!(replaced, Some(1));
    assert_eq!(map.len(), 2);
    assert_eq!(map.get("a"), Some(&3));
    assert_eq!(map.get("b"), Some(&2));
    assert_eq!(map.get("c"), None);
    assert_eq!(map.name_at(0), "a");
    assert_eq!(map.name_at(1), "b");
    assert_eq!(*map.value_at(0), 3);
    assert_eq!(*map.value_at(1), 2);
}

#[test]
fn named_map_of_texts_can_be_duplicated() {
    let map: NamedMap<String> = NamedMap::new();
    let (map, _) = map.insert("one".to_owned(), "1".to_owned());
    let (map, _) = map.insert("two".to_owned(), "[2]".to_owned());
    let copy = map.duplicate();
    assert_eq!(copy, map);
    assert_eq!(copy.get("two"), Some(&"[2]".to_owned()));
}

#[test]
fn size_verdicts() {
    assert_eq!(fetch_max_size(0, 0, "x"), Ok(()));
    assert_eq!(fetch_max_size(10, 10, "x"), Ok(()));
    assert_eq!(
        fetch_max_size(11, 10, "max_root_size argument"),
        Err(Error::MaxSizeExceeded { specifier: "max_root_size argument", max_bytes: 10 })
    );
}

#[test]
fn digest_verdicts() {
    assert_eq!(fetch_sha256(5, 5, "targets.json", vec![1, 2], &[1, 2]), Ok(()));
    assert_eq!(
        fetch_sha256(5, 5, "targets.json", vec![1, 3], &[1, 2]),
        Err(Error::HashMismatch {
            specifier: "targets.json",
            expected: vec![1, 2],
            calculated: vec![1, 3],
        })
    );
    // The size is judged before the digest.
    assert_eq!(
        fetch_sha256(6, 5, "targets.json", vec![1, 3], &[1, 2]),
        Err(Error::MaxSizeExceeded { specifier: "targets.json", max_bytes: 5 })
    );
}

fn timestamp_document(version: u64) -> Arc<Signed<Timestamp>> {
    Arc::new(Signed {
        signed: Timestamp {
            version: Version::new(version).unwrap(),
            expires: UtcTime::new(2_000_000_000, 0),
            meta: NamedMap::new(),
        },
        signatures: Vec::new(),
        canonical: Vec::new(),
    })
}

#[test]
fn requests_judge_what_came_back() {
    let plain = FetchRequest {
        url: "https://example.org/timestamp.json".to_owned(),
        max_bytes: 100,
        specifier: "max_timestamp_size argument",
        sha256: None,
    };
    let document = timestamp_document(1);
    assert_eq!(
        plain.accept::<Timestamp>(Fetched::Unavailable, RoleType::Timestamp),
        Err(Error::Transport { url: "https://example.org/timestamp.json".to_owned() })
    );
    assert_eq!(
        plain.accept(
            Fetched::Received { length: 100, sha256: vec![7], document: Some(document.clone()) },
            RoleType::Timestamp
        ),
        Ok(document.clone())
    );
    assert_eq!(
        plain.accept(
            Fetched::Received { length: 101, sha256: vec![7], document: Some(document.clone()) },
            RoleType::Timestamp
        ),
        Err(Error::MaxSizeExceeded { specifier: "max_timestamp_size argument", max_bytes: 100 })
    );
    assert_eq!(
        plain.accept::<Timestamp>(
            Fetched::Received { length: 3, sha256: vec![7], document: None },
            RoleType::Timestamp
        ),
        Err(Error::ParseMetadata { role: RoleType::Timestamp })
    );
    let hashed = FetchRequest { sha256: Some(vec![1, 2, 3]), specifier: "timestamp.json", ..plain };
    assert_eq!(
        hashed.accept(
            Fetched::Received { length: 3, sha256: vec![1, 2, 3], document: Some(document.clone()) },
            RoleType::Snapshot
        ),
        Ok(document.clone())
    );
    // A digest that does not match is reported before a document that did not decode.
    assert_eq!(
        hashed.accept::<Timestamp>(
            Fetched::Received { length: 3, sha256: vec![3, 2, 1], document: None },
            RoleType::Snapshot
        ),
        Err(Error::HashMismatch {
            specifier: "timestamp.json",
            expected: vec![1, 2, 3],
            calculated: vec![3, 2, 1],
        })
    );
}

#[test]
fn datastore_reads_what_was_written() {
    let mut datastore = Datastore::new(Stored::Absent, Stored::Absent, Stored::Absent, Stored::Absent);
    assert_eq!(datastore.latest_known_time.reader(StoreFile::LatestKnownTime), Ok(None));
    assert_eq!(datastore.timestamp.reader(StoreFile::Timestamp), Ok(None));

    let time = UtcTime::new(1_700_000_000, 123);
    datastore.create_time(time);
    assert_eq!(datastore.latest_known_time.reader(StoreFile::LatestKnownTime), Ok(Some(&time)));

    let document = timestamp_document(4);
    datastore.create_timestamp(document.clone());
    assert_eq!(datastore.timestamp.reader(StoreFile::Timestamp), Ok(Some(&document)));

    datastore.remove(StoreFile::Timestamp);
    assert_eq!(datastore.timestamp.reader(StoreFile::Timestamp), Ok(None));
    datastore.remove(StoreFile::Snapshot);

    assert_eq!(
        datastore.take_pending(),
        vec![
            StoreOp::WriteTime(time),
            StoreOp::Write(StoreFile::Timestamp),
            StoreOp::Remove(StoreFile::Timestamp),
            StoreOp::Remove(StoreFile::Snapshot),
        ]
    );
    assert_eq!(datastore.take_pending(), Vec::new());
    assert_eq!(datastore.latest_known_time, Stored::Present(time));
}

#[test]
fn datastore_reports_what_it_cannot_read() {
    let unreadable: Stored<UtcTime> = Stored::Unreadable;
    assert_eq!(
        unreadable.reader(StoreFile::LatestKnownTime),
        Err(Error::DatastoreUnreadable { file: "latest_known_time.json" })
    );
    assert_eq!(StoreFile::Timestamp.name(), "timestamp.json");
    assert_eq!(StoreFile::Snapshot.name(), "snapshot.json");
    assert_eq!(StoreFile::Targets.name(), "targets.json");
}

#[test]
fn targets_are_converted_field_by_field() {
    let (custom, _) = NamedMap::new().insert("note".to_owned(), "\"x\"".to_owned());
    let described = tough::schema::Target {
        length: 5,
        hashes: Hashes { sha256: vec![1, 2, 3] },
        custom,
    };
    let target = tough::repository::Target::from(described);
    assert_eq!(target.length, 5);
    assert_eq!(target.sha256, vec![1, 2, 3]);
    assert_eq!(target.custom.get("note"), Some(&"\"x\"".to_owned()));
}

#[test]
fn der_lengths_are_short_or_long() {
    assert_eq!(read_length(&[]), None);
    assert_eq!(read_length(&[0x00]), Some((0, 1)));
    assert_eq!(read_length(&[0x7f, 0xaa]), Some((127, 1)));
    assert_eq!(read_length(&[0x80]), None);
    assert_eq!(read_length(&[0x81]), None);
    assert_eq!(read_length(&[0x81, 0x80]), Some((128, 2)));
    assert_eq!(read_length(&[0x82, 0x01, 0x22, 0xff]), Some((0x0122, 3)));
    assert_eq!(read_length(&[0x84, 0x01, 0x02, 0x03, 0x04]), Some((0x0102_0304, 5)));
    assert_eq!(read_length(&[0x84, 0x01, 0x02, 0x03]), None);
    assert_eq!(read_length(&[0x85, 0, 0, 0, 0, 1]), None);
}

#[test]
fn der_elements_are_cut_at_their_length() {
    let input = [0x30, 0x03, 1, 2, 3, 0x04, 0x00];
    let (contents, rest) = read_element(&input, 0x30).unwrap();
    assert_eq!(contents, &[1, 2, 3]);
    assert_eq!(rest, &[0x04, 0x00]);
    let (contents, rest) = read_element(rest, 0x04).unwrap();
    assert_eq!(contents, &[] as &[u8]);
    assert_eq!(rest, &[] as &[u8]);
    assert_eq!(read_element(&input, 0x31), None);
    assert_eq!(read_element(&[0x30, 0x03, 1, 2], 0x30), None);
    assert_eq!(read_element(&[0x30], 0x30), None);
    assert_eq!(read_element(&[], 0x30), None);
    let mut long = vec![0x30, 0x82, 0x01, 0x00];
    long.extend(std::iter::repeat(7u8).take(256));
    long.push(9);
    let (contents, rest) = read_element(&long, 0x30).unwrap();
    assert_eq!(contents, vec![7u8; 256].as_slice());
    assert_eq!(rest, &[9]);
}

#[test]
fn the_key_is_taken_out_of_its_wrapping() {
    // An Ed25519 key as a SubjectPublicKeyInfo.
    let mut info = vec![0x30, 0x2a, 0x30, 0x05, 0x06, 0x03, 0x2b, 0x65, 0x70, 0x03, 0x21, 0x00];
    let key: Vec<u8> = (1..=32).collect();
    info.extend(&key);
    assert_eq!(read_subject_public_key(&info), Some(key.clone()));
    // What follows the outer sequence is not looked at.
    info.push(0xff);
    assert_eq!(read_subject_public_key(&info), Some(key));
    // A bit string that does not end on a byte is no key.
    let odd = [0x30, 0x07, 0x30, 0x00, 0x03, 0x03, 0x01, 0xaa, 0xbb];
    assert_eq!(read_subject_public_key(&odd), None);
    let even = [0x30, 0x07, 0x30, 0x00, 0x03, 0x03, 0x00, 0xaa, 0xbb];
    assert_eq!(read_subject_public_key(&even), Some(vec![0xaa, 0xbb]));
    assert_eq!(read_subject_public_key(&[0x30, 0x02, 0x30, 0x00]), None);
    assert_eq!(read_subject_public_key(&[0x30, 0x04, 0x30, 0x00, 0x03, 0x00]), None);
    assert_eq!(read_subject_public_key(&[0x31, 0x00]), None);
    assert_eq!(read_subject_public_key(&[]), None);
}

fn target_request(digest: Option<Vec<u8>>) -> FetchRequest {
    FetchRequest {
        url: "https://example.org/targets/app.bin".to_owned(),
        max_bytes: 10,
        specifier: "targets.json",
        sha256: digest,
    }
}

#[test]
fn a_reading_is_held_to_the_length_of_its_request() {
    let mut reading = target_request(Some(vec![1, 2])).reading();
    assert_eq!(reading.verdict(), Ok(()));
    assert_eq!(reading.advance(4), Ok(()));
    assert_eq!(reading.advance(6), Ok(()));
    let exceeded = Err(Error::MaxSizeExceeded { specifier: "targets.json", max_bytes: 10 });
    assert_eq!(reading.advance(1), exceeded);
    // What was refused stays refused.
    assert_eq!(reading.verdict(), exceeded);
    assert_eq!(reading.advance(0), exceeded);
    assert_eq!(reading.finish(vec![1, 2]), exceeded);
    assert_eq!(reading.advance(u64::MAX), exceeded);
    assert_eq!(reading.advance(u64::MAX), exceeded);
}

#[test]
fn a_reading_is_held_to_the_digest_of_its_request() {
    let mut good = target_request(Some(vec![1, 2])).reading();
    assert_eq!(good.advance(10), Ok(()));
    assert_eq!(good.finish(vec![1, 2]), Ok(()));
    assert_eq!(good.verdict(), Ok(()));

    let mut bad = target_request(Some(vec![1, 2])).reading();
    assert_eq!(bad.advance(3), Ok(()));
    let mismatch = Err(Error::HashMismatch {
        specifier: "targets.json",
        expected: vec![1, 2],
        calculated: vec![2, 1],
    });
    assert_eq!(bad.finish(vec![2, 1]), mismatch);
    assert_eq!(bad.verdict(), mismatch);
    // A later end of the stream does not make it good.
    assert_eq!(bad.finish(vec![1, 2]), mismatch);
    assert_eq!(bad.advance(1), mismatch);

    let mut unbound = target_request(None).reading();
    assert_eq!(unbound.advance(10), Ok(()));
    assert_eq!(unbound.finish(vec![9]), Ok(()));
}
