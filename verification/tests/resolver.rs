use comment_checker::resolver::DirEntry;
use comment_checker::resolver::EntryKind;
use comment_checker::resolver::PathResolver;

fn entry(path: &str, kind: EntryKind) -> DirEntry {
    DirEntry { path: path.to_string(), kind }
}

#[test]
fn discovery_completeness() {
    // A root directory with two source files, two non-matching entries and a
    // subdirectory that holds one more source file: exactly the three source
    // files come out, all distinct, and no directory path among them.
    let mut r = PathResolver::new(vec!["proj".to_string()], None);
    assert_eq!(r.next_path(), Some("proj".to_string()));
    r.on_directory(vec![
        entry("proj/a.py", EntryKind::SourceFile),
        entry("proj/readme.md", EntryKind::Other),
        entry("proj/sub", EntryKind::Subdir),
        entry("proj/b.py", EntryKind::SourceFile),
        entry("proj/data.bin", EntryKind::Other),
    ]);
    assert_eq!(r.next_path(), Some("proj/sub".to_string()));
    r.on_directory(vec![entry("proj/sub/c.py", EntryKind::SourceFile)]);
    assert_eq!(r.next_path(), None);
    let files = r.finish().expect("no path was missing");
    assert_eq!(
        files,
        vec!["proj/a.py".to_string(), "proj/b.py".to_string(), "proj/sub/c.py".to_string()]
    );
    for (i, f) in files.iter().enumerate() {
        assert_ne!(f.as_str(), "proj");
        assert_ne!(f.as_str(), "proj/sub");
        for g in files.iter().skip(i + 1) {
            assert_ne!(f, g);
        }
    }
}

#[test]
fn top_level_file_kept_verbatim() {
    // A path given directly is kept whatever its extension; extension
    // filtering only applies to entries found inside directories.
    let mut r = PathResolver::new(vec!["notes.txt".to_string()], None);
    assert_eq!(r.next_path(), Some("notes.txt".to_string()));
    r.on_file("notes.txt".to_string());
    assert_eq!(r.next_path(), None);
    assert_eq!(r.finish(), Some(vec!["notes.txt".to_string()]));
}

#[test]
fn missing_path_fails_the_whole_resolution() {
    let mut r = PathResolver::new(
        vec!["a.py".to_string(), "typo.py".to_string()],
        None,
    );
    assert_eq!(r.next_path(), Some("a.py".to_string()));
    r.on_file("a.py".to_string());
    assert_eq!(r.next_path(), Some("typo.py".to_string()));
    r.on_missing();
    assert_eq!(r.next_path(), None);
    assert_eq!(r.finish(), None);
}

#[test]
fn ignore_is_exact_string_match() {
    // The ignored path disappears; a trailing slash or a relative prefix
    // makes a different string, which is not a match.
    let ignore = vec!["proj/skip.py".to_string()];
    let mut r = PathResolver::new(vec!["proj".to_string()], Some(ignore));
    assert_eq!(r.next_path(), Some("proj".to_string()));
    r.on_directory(vec![
        entry("proj/skip.py", EntryKind::SourceFile),
        entry("proj/keep.py", EntryKind::SourceFile),
    ]);
    assert_eq!(r.next_path(), None);
    let files = r.finish().expect("no path was missing");
    assert_eq!(files, vec!["proj/keep.py".to_string()]);

    let ignore = vec!["proj/skip.py/".to_string(), "./proj/skip.py".to_string()];
    let mut r = PathResolver::new(vec!["proj".to_string()], Some(ignore));
    assert_eq!(r.next_path(), Some("proj".to_string()));
    r.on_directory(vec![entry("proj/skip.py", EntryKind::SourceFile)]);
    assert_eq!(r.next_path(), None);
    let files = r.finish().expect("no path was missing");
    assert_eq!(files, vec!["proj/skip.py".to_string()]);
}

#[test]
fn subdirectories_are_walked_breadth_first() {
    let mut r = PathResolver::new(vec!["root".to_string()], None);
    assert_eq!(r.next_path(), Some("root".to_string()));
    r.on_directory(vec![
        entry("root/s1", EntryKind::Subdir),
        entry("root/s2", EntryKind::Subdir),
    ]);
    assert_eq!(r.next_path(), Some("root/s1".to_string()));
    r.on_directory(vec![entry("root/s1/deep", EntryKind::Subdir)]);
    // The sibling s2 comes before s1's own subdirectory.
    assert_eq!(r.next_path(), Some("root/s2".to_string()));
    r.on_directory(vec![]);
    assert_eq!(r.next_path(), Some("root/s1/deep".to_string()));
    r.on_directory(vec![]);
    assert_eq!(r.next_path(), None);
    assert_eq!(r.finish(), Some(Vec::new()));
}

#[test]
fn ignored_file_given_at_top_level_is_filtered_too() {
    let ignore = vec!["direct.py".to_string()];
    let mut r = PathResolver::new(vec!["direct.py".to_string()], Some(ignore));
    assert_eq!(r.next_path(), Some("direct.py".to_string()));
    r.on_file("direct.py".to_string());
    assert_eq!(r.next_path(), None);
    assert_eq!(r.finish(), Some(Vec::new()));
}
