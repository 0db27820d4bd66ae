use emotion_transform::resolver::find_root;
use emotion_transform::resolver::find_root_step;
use emotion_transform::resolver::DirProbe;
use emotion_transform::resolver::ParentCache;
use emotion_transform::resolver::Resolution;
use emotion_transform::resolver::RootPathInfo;

fn s(text: &str) -> String {
    String::from(text)
}

fn expect_probe(r: Resolution) -> String {
    match r {
        Resolution::NeedProbe(d) => d,
        Resolution::Found(_) => panic!("expected a probe request, got Found"),
        Resolution::NotFound => panic!("expected a probe request, got NotFound"),
    }
}

fn expect_found(r: Resolution) -> RootPathInfo {
    match r {
        Resolution::Found(info) => info,
        Resolution::NeedProbe(_) => panic!("expected Found, got a probe request"),
        Resolution::NotFound => panic!("expected Found, got NotFound"),
    }
}

#[test]
fn walk_finds_manifest_in_ancestor() {
    let mut cache = ParentCache::new();
    let file = s("/repo/pkg-a/src/button.ts");

    let d1 = expect_probe(find_root(&cache, &file));
    assert_eq!(d1, "/repo/pkg-a/src");

    let d2 = expect_probe(find_root_step(&mut cache, d1, DirProbe::NoManifest));
    assert_eq!(d2, "/repo/pkg-a");

    let found = expect_found(find_root_step(
        &mut cache,
        d2,
        DirProbe::Manifest(s("{\"name\": \"pkg-a\"}")),
    ));
    assert_eq!(found.package_name, "pkg-a");
    assert_eq!(found.root_path, "/repo/pkg-a");
}

#[test]
fn second_query_answered_from_cache_without_manifest_read() {
    let mut cache = ParentCache::new();
    let file = s("/repo/pkg-a/src/button.ts");
    let d1 = expect_probe(find_root(&cache, &file));
    let d2 = expect_probe(find_root_step(&mut cache, d1, DirProbe::NoManifest));
    expect_found(find_root_step(&mut cache, d2, DirProbe::Manifest(s("{\"name\":\"pkg-a\"}"))));

    // The same file again: the walk re-checks the src directory, but the
    // manifest directory is answered from the cache; no manifest probe is
    // ever requested for it again.
    let d1 = expect_probe(find_root(&cache, &file));
    assert_eq!(d1, "/repo/pkg-a/src");
    let found = expect_found(find_root_step(&mut cache, d1, DirProbe::NoManifest));
    assert_eq!(found.package_name, "pkg-a");
    assert_eq!(found.root_path, "/repo/pkg-a");

    // A sibling file directly under the cached root is answered at once.
    let sibling = s("/repo/pkg-a/index.ts");
    let found = expect_found(find_root(&cache, &sibling));
    assert_eq!(found.package_name, "pkg-a");
}

#[test]
fn missing_directory_is_unresolved() {
    let mut cache = ParentCache::new();
    let d = expect_probe(find_root(&cache, &s("/gone/file.ts")));
    assert!(matches!(find_root_step(&mut cache, d, DirProbe::Missing), Resolution::NotFound));
}

#[test]
fn walk_past_filesystem_root_is_unresolved() {
    let mut cache = ParentCache::new();
    let d = expect_probe(find_root(&cache, &s("/file.ts")));
    assert_eq!(d, "/");
    assert!(matches!(
        find_root_step(&mut cache, d, DirProbe::NoManifest),
        Resolution::NotFound
    ));
}

#[test]
fn path_without_parent_is_unresolved() {
    let cache = ParentCache::new();
    assert!(matches!(find_root(&cache, &s("file.ts")), Resolution::NotFound));
    assert!(matches!(find_root(&cache, &s("")), Resolution::NotFound));
}

#[test]
fn malformed_manifest_fails_the_attempt_and_caches_nothing() {
    let mut cache = ParentCache::new();
    let file = s("/repo/pkg/x.ts");

    let d = expect_probe(find_root(&cache, &file));
    assert!(matches!(
        find_root_step(&mut cache, d, DirProbe::Manifest(s("{not json"))),
        Resolution::NotFound
    ));

    // Nothing was cached, so the next attempt probes the directory again and
    // can still succeed.
    let d = expect_probe(find_root(&cache, &file));
    assert_eq!(d, "/repo/pkg");
    let found = expect_found(find_root_step(&mut cache, d, DirProbe::Manifest(s("{\"name\":\"pkg\"}"))));
    assert_eq!(found.package_name, "pkg");
}

#[test]
fn manifest_without_string_name_fails_the_attempt() {
    let mut cache = ParentCache::new();
    let d = expect_probe(find_root(&cache, &s("/repo/pkg/x.ts")));
    assert!(matches!(
        find_root_step(&mut cache, d, DirProbe::Manifest(s("{}"))),
        Resolution::NotFound
    ));
    let d = expect_probe(find_root(&cache, &s("/repo/pkg/x.ts")));
    assert!(matches!(
        find_root_step(&mut cache, d, DirProbe::Manifest(s("{\"name\": 7}"))),
        Resolution::NotFound
    ));
    let d = expect_probe(find_root(&cache, &s("/repo/pkg/x.ts")));
    assert!(matches!(
        find_root_step(&mut cache, d, DirProbe::Manifest(s("[1, 2]"))),
        Resolution::NotFound
    ));
}

#[test]
fn unreadable_manifest_fails_the_attempt() {
    let mut cache = ParentCache::new();
    let d = expect_probe(find_root(&cache, &s("/repo/pkg/x.ts")));
    assert!(matches!(
        find_root_step(&mut cache, d, DirProbe::ManifestUnreadable),
        Resolution::NotFound
    ));
}

#[test]
fn manifest_with_extra_members_still_parses() {
    let mut cache = ParentCache::new();
    let d = expect_probe(find_root(&cache, &s("/repo/pkg/x.ts")));
    let text = s("{\"version\": \"1.0.0\", \"name\": \"pkg\", \"private\": true}");
    let found = expect_found(find_root_step(&mut cache, d, DirProbe::Manifest(text)));
    assert_eq!(found.package_name, "pkg");
}

#[test]
fn cache_first_writer_wins() {
    let mut cache = ParentCache::new();
    let first = cache.insert(s("/repo/pkg"), RootPathInfo::new(s("one"), s("/repo/pkg")));
    assert_eq!(first.package_name, "one");
    let second = cache.insert(s("/repo/pkg"), RootPathInfo::new(s("two"), s("/repo/pkg")));
    assert_eq!(second.package_name, "one");
    let held = cache.get(&s("/repo/pkg")).unwrap();
    assert_eq!(held.package_name, "one");
    assert!(cache.get(&s("/elsewhere")).is_none());
}
