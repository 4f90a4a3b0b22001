use mkpath::path::{directory, final_segment, has_extension, leaf_kind, parent, LeafKind};

#[test]
fn final_segment_is_what_follows_the_last_separator() {
    assert_eq!(final_segment("a/b/file.txt"), "file.txt");
    assert_eq!(final_segment("a/b/dir"), "dir");
    assert_eq!(final_segment("file.txt"), "file.txt");
    assert_eq!(final_segment("/etc"), "etc");
}

#[test]
fn final_segment_ignores_trailing_separators() {
    assert_eq!(final_segment("a/b/"), "b");
    assert_eq!(final_segment("a/b.d///"), "b.d");
}

#[test]
fn final_segment_is_empty_without_a_segment() {
    assert_eq!(final_segment(""), "");
    assert_eq!(final_segment("/"), "");
    assert_eq!(final_segment("///"), "");
}

#[test]
fn parent_is_the_path_without_its_final_segment() {
    assert_eq!(parent("a/b/file.txt"), Some("a/b"));
    assert_eq!(parent("a/b"), Some("a"));
    assert_eq!(parent("/usr/lib"), Some("/usr"));
    assert_eq!(parent("./x"), Some("."));
    assert_eq!(parent("../x.txt"), Some(".."));
}

#[test]
fn parent_drops_the_separators_between() {
    assert_eq!(parent("a/b/"), Some("a"));
    assert_eq!(parent("a//b"), Some("a"));
    assert_eq!(parent("a/b///c//"), Some("a/b"));
}

#[test]
fn parent_directly_below_the_root_is_the_root() {
    assert_eq!(parent("/etc"), Some("/"));
    assert_eq!(parent("//etc/"), Some("/"));
}

#[test]
fn parent_is_absent_for_a_single_segment_and_for_no_segment() {
    assert_eq!(parent("file.txt"), None);
    assert_eq!(parent("dir/"), None);
    assert_eq!(parent(""), None);
    assert_eq!(parent("/"), None);
    assert_eq!(parent("//"), None);
}

#[test]
fn directory_is_the_parent_or_nothing() {
    assert_eq!(directory("a/b/file.txt"), "a/b");
    assert_eq!(directory("/etc"), "/");
    assert_eq!(directory("file.txt"), "");
    assert_eq!(directory(""), "");
}

#[test]
fn extension_needs_text_on_both_sides_of_the_last_dot() {
    assert!(has_extension("file.txt"));
    assert!(has_extension("archive.tar.gz"));
    assert!(has_extension("a.b"));
    assert!(has_extension("..a"));
    assert!(has_extension(".config.toml"));
}

#[test]
fn no_extension_without_a_dot_or_with_a_dot_at_either_end() {
    assert!(!has_extension("dir"));
    assert!(!has_extension(""));
    assert!(!has_extension(".hidden"));
    assert!(!has_extension("name."));
    assert!(!has_extension("."));
    assert!(!has_extension(".."));
    assert!(!has_extension("..."));
    assert!(!has_extension("a.b."));
}

#[test]
fn dotted_final_segment_asks_for_a_file() {
    assert_eq!(leaf_kind("a/b/file.txt"), LeafKind::File);
    assert_eq!(leaf_kind("file.txt"), LeafKind::File);
    assert_eq!(leaf_kind("/tmp/x/notes.md"), LeafKind::File);
    assert_eq!(leaf_kind("a/b.d/"), LeafKind::File);
}

#[test]
fn plain_final_segment_asks_for_a_directory() {
    assert_eq!(leaf_kind("a/b/dir"), LeafKind::Directory);
    assert_eq!(leaf_kind("dir"), LeafKind::Directory);
    assert_eq!(leaf_kind("a/b/"), LeafKind::Directory);
    assert_eq!(leaf_kind(""), LeafKind::Directory);
    assert_eq!(leaf_kind("/"), LeafKind::Directory);
}

#[test]
fn a_dot_in_a_directory_above_does_not_make_a_file() {
    assert_eq!(leaf_kind("v1.2/bin"), LeafKind::Directory);
    assert_eq!(leaf_kind("a.b/c.d/e"), LeafKind::Directory);
}

#[test]
fn purely_dotted_segments_ask_for_a_directory() {
    assert_eq!(leaf_kind("."), LeafKind::Directory);
    assert_eq!(leaf_kind(".."), LeafKind::Directory);
    assert_eq!(leaf_kind("a/.."), LeafKind::Directory);
    assert_eq!(leaf_kind("a/.hidden"), LeafKind::Directory);
    assert_eq!(leaf_kind("a/name."), LeafKind::Directory);
}

#[test]
fn characters_beyond_ascii_count_as_one_each() {
    assert_eq!(final_segment("données/été.txt"), "été.txt");
    assert_eq!(parent("données/été.txt"), Some("données"));
    assert_eq!(leaf_kind("données/été.txt"), LeafKind::File);
    assert_eq!(leaf_kind("données/été"), LeafKind::Directory);
    assert!(has_extension("日本.語"));
}
