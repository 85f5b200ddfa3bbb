use cassie_cool::tools::test::is_supported_test_ext;
use cassie_cool::tools::test::is_supported_test_path;
use cassie_cool::tools::test::FailFastTracker;

#[test]
fn test_is_supported_test_ext() {
    assert!(!is_supported_test_ext("tests/subdir/redirects"));
    assert!(is_supported_test_ext("README.md"));
    assert!(is_supported_test_ext("readme.MD"));
    assert!(is_supported_test_ext("lib/typescript.d.ts"));
    assert!(is_supported_test_ext("testdata/run/001_hello.js"));
    assert!(is_supported_test_ext("testdata/run/002_hello.ts"));
    assert!(is_supported_test_ext("foo.jsx"));
    assert!(is_supported_test_ext("foo.tsx"));
    assert!(is_supported_test_ext("foo.TS"));
    assert!(is_supported_test_ext("foo.TSX"));
    assert!(is_supported_test_ext("foo.JS"));
    assert!(is_supported_test_ext("foo.JSX"));
    assert!(is_supported_test_ext("foo.mjs"));
    assert!(is_supported_test_ext("foo.mts"));
    assert!(is_supported_test_ext("foo.cjs"));
    assert!(is_supported_test_ext("foo.cts"));
    assert!(!is_supported_test_ext("foo.mjsx"));
    assert!(!is_supported_test_ext("foo.jsonc"));
    assert!(!is_supported_test_ext("foo.JSONC"));
    assert!(!is_supported_test_ext("foo.json"));
    assert!(!is_supported_test_ext("foo.JsON"));
}

#[test]
fn test_is_supported_test_path() {
    assert!(is_supported_test_path("tests/subdir/foo_test.ts"));
    assert!(is_supported_test_path("tests/subdir/foo_test.tsx"));
    assert!(is_supported_test_path("tests/subdir/foo_test.js"));
    assert!(is_supported_test_path("tests/subdir/foo_test.jsx"));
    assert!(is_supported_test_path("bar/foo.test.ts"));
    assert!(is_supported_test_path("bar/foo.test.tsx"));
    assert!(is_supported_test_path("bar/foo.test.js"));
    assert!(is_supported_test_path("bar/foo.test.jsx"));
    assert!(is_supported_test_path("foo/bar/test.js"));
    assert!(is_supported_test_path("foo/bar/test.jsx"));
    assert!(is_supported_test_path("foo/bar/test.ts"));
    assert!(is_supported_test_path("foo/bar/test.tsx"));
    assert!(!is_supported_test_path("README.md"));
    assert!(!is_supported_test_path("lib/typescript.d.ts"));
    assert!(!is_supported_test_path("notatest.js"));
    assert!(!is_supported_test_path("NotAtest.ts"));
}

#[test]
fn fail_fast_tracker_without_maximum_never_stops() {
    let mut t = FailFastTracker::new(None);
    assert!(!t.should_stop());
    assert!(!t.add_failure());
    assert!(!t.add_failure());
    assert!(!t.should_stop());
}

#[test]
fn fail_fast_tracker_stops_at_maximum() {
    let mut t = FailFastTracker::new(Some(2));
    assert!(!t.should_stop());
    assert!(!t.add_failure());
    assert!(!t.should_stop());
    assert!(!t.add_failure());
    assert!(t.should_stop());
    assert!(t.add_failure());
    assert!(t.should_stop());
}

#[test]
fn hidden_files_have_no_extension() {
    assert!(!is_supported_test_ext("dir/.ts"));
    assert!(!is_supported_test_ext(""));
    assert!(is_supported_test_ext("dir/.hidden.md"));
}
