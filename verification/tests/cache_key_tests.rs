use kube_cache::cache_key::{
    cache_key, cache_path, job_name, object_location, staging_path, ObjectLocation,
};

#[test]
fn key_of_s3_url_drops_scheme_and_flattens_path() {
    assert_eq!(cache_key("s3://models/m1"), "models-m1");
}

#[test]
fn path_and_job_name_follow_the_key() {
    let key = cache_key("s3://models/m2");
    assert_eq!(key, "models-m2");
    assert_eq!(cache_path("/tmp", &key), "/tmp/models-m2");
    assert_eq!(job_name(&key), "fetcher-models-m2");
}

#[test]
fn plain_paths_are_written_as_they_are() {
    for (did, key) in [
        ("s3://models/m1", "models-m1"),
        ("s3://a/b/c/d", "a-b-c-d"),
        ("s3://bucket", "bucket"),
        ("s3://Mod\u{e9}les/\u{1f600}", "Mod\u{e9}les-\u{1f600}"),
        ("s3://a//b/", "a--b-"),
    ] {
        assert_eq!(cache_key(did), key, "for {:?}", did);
    }
}

#[test]
fn special_characters_are_escaped() {
    for (did, key) in [
        ("s3://models/gpt-4-weights", "models-gpt%-4%-weights"),
        ("s3://a-b", "a%-b"),
        ("s3://a/b", "a-b"),
        ("s3://a%b", "a%%b"),
        ("s3://weights.tar", "weights%.tar"),
        ("s3://.", "%."),
        ("s3://..", "%.%."),
        ("s3://x/s3://y", "x-s3:--y"),
    ] {
        assert_eq!(cache_key(did), key, "for {:?}", did);
    }
}

#[test]
fn identifiers_without_the_marker_and_the_bare_marker_keep_a_prefix() {
    for (did, key) in [
        ("s3://", "%0"),
        ("", "%_"),
        ("models/m1", "%_models-m1"),
        ("s3:/models", "%_s3:-models"),
        ("S3://models", "%_S3:--models"),
        ("0", "%_0"),
        ("s3://0", "0"),
        ("s3://%0", "%%0"),
        ("s3://%_x", "%%_x"),
    ] {
        assert_eq!(cache_key(did), key, "for {:?}", did);
    }
}

#[test]
fn distinct_identifiers_have_distinct_keys() {
    let dids = [
        "s3://a/b",
        "s3://a-b",
        "s3://a%-b",
        "s3://a%b",
        "a/b",
        "a-b",
        "s3://",
        "",
        "s3://0",
        "0",
        "s3://%0",
        "s3://%_",
        "%_",
        "s3://s3://a/b",
        "s3://a/b/",
        "s3:///a/b",
        "s3://a.b",
        "s3://a%.b",
        "s3://models/m1",
        "s3://models/m2",
        "s3://models-m1",
        "s3://model/sm1",
    ];
    for (i, a) in dids.iter().enumerate() {
        for b in &dids[i + 1..] {
            assert_ne!(cache_key(a), cache_key(b), "{:?} and {:?}", a, b);
            assert_ne!(job_name(&cache_key(a)), job_name(&cache_key(b)));
        }
    }
}

#[test]
fn key_names_a_single_file() {
    for did in ["s3://a/b", "/", "////", "s3:///", "x/s3://y", "s3://", "", "s3://.", "s3://..", ".", ".."] {
        let key = cache_key(did);
        assert!(!key.is_empty());
        assert!(!key.contains('/'));
        assert_ne!(key, ".");
        assert_ne!(key, "..");
    }
}

#[test]
fn cache_path_joins_with_one_separator() {
    assert_eq!(cache_path("/var/cache/kube-cache", "models-m1"), "/var/cache/kube-cache/models-m1");
    assert_eq!(cache_path("", "k"), "/k");
}

#[test]
fn object_location_splits_bucket_and_key() {
    assert_eq!(
        object_location("s3://models/gpt-4-weights"),
        Some(ObjectLocation { bucket: "models".to_string(), key: "gpt-4-weights".to_string() })
    );
    assert_eq!(
        object_location("s3://models/a/b/c"),
        Some(ObjectLocation { bucket: "models".to_string(), key: "a/b/c".to_string() })
    );
    for bad in ["", "s3://", "s3://models", "s3://models/", "s3:///key", "models/m1", "http://a/b"] {
        assert_eq!(object_location(bad), None, "for {:?}", bad);
    }
}

#[test]
fn staging_path_lies_beside_the_entry() {
    assert_eq!(staging_path("/tmp/models-m1"), "/tmp/models-m1.part");
}
