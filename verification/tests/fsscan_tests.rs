use open_imago::fsscan::cleanup_targets;
use open_imago::fsscan::find_in_entries;
use open_imago::fsscan::DirEntry;
use open_imago::fsscan::FsNode;
use open_imago::fsscan::FsNodeKind;
use open_imago::strutil::contains_sub;
use open_imago::strutil::str_eq;

fn file(name: &str) -> FsNode {
    FsNode { name: name.to_string(), kind: FsNodeKind::File }
}

fn dir(name: &str, children: Vec<FsNode>) -> FsNode {
    FsNode { name: name.to_string(), kind: FsNodeKind::Dir(children) }
}

#[test]
fn finds_a_nested_muxer() {
    let entries = vec![
        file("a.txt"),
        dir("ffmpeg-7.0", vec![dir("bin", vec![file("ffprobe.exe"), file("ffmpeg.exe")])]),
    ];
    let found = find_in_entries(&entries, "ffmpeg.exe").unwrap();
    assert_eq!(found, vec!["ffmpeg-7.0", "bin", "ffmpeg.exe"]);
}

#[test]
fn finds_a_top_level_match() {
    let entries = vec![file("ffmpeg.exe")];
    assert_eq!(find_in_entries(&entries, "ffmpeg.exe").unwrap(), vec!["ffmpeg.exe"]);
}

#[test]
fn reports_nothing_when_absent() {
    let entries = vec![file("a.txt"), dir("sub", vec![file("b.txt")])];
    assert!(find_in_entries(&entries, "ffmpeg.exe").is_none());
}

#[test]
fn never_descends_into_excluded_directories() {
    let entries = vec![
        dir("node_modules", vec![file("ffmpeg.exe")]),
        dir(".git", vec![file("ffmpeg.exe")]),
    ];
    assert!(find_in_entries(&entries, "ffmpeg.exe").is_none());
}

#[test]
fn directories_named_like_the_target_do_not_match() {
    let entries = vec![dir("ffmpeg.exe", vec![file("other.txt")])];
    assert!(find_in_entries(&entries, "ffmpeg.exe").is_none());
}

#[test]
fn first_match_in_listing_order_wins() {
    let entries = vec![
        dir("first", vec![file("ffmpeg.exe")]),
        dir("second", vec![file("ffmpeg.exe")]),
        file("ffmpeg.exe"),
    ];
    let found = find_in_entries(&entries, "ffmpeg.exe").unwrap();
    assert_eq!(found, vec!["first", "ffmpeg.exe"]);
}

#[test]
fn empty_listing_has_no_match() {
    let entries: Vec<FsNode> = vec![];
    assert!(find_in_entries(&entries, "ffmpeg.exe").is_none());
}

#[test]
fn cleanup_removes_only_matching_directories() {
    let entries = vec![
        DirEntry { name: "ffmpeg-7.0".to_string(), is_dir: true },
        DirEntry { name: "ffmpeg.exe".to_string(), is_dir: false },
        DirEntry { name: "other".to_string(), is_dir: true },
        DirEntry { name: "my-ffmpeg-builds".to_string(), is_dir: true },
        DirEntry { name: "ffmpe".to_string(), is_dir: true },
    ];
    assert_eq!(cleanup_targets(&entries), vec!["ffmpeg-7.0", "my-ffmpeg-builds"]);
}

#[test]
fn cleanup_of_an_empty_listing_is_empty() {
    let entries: Vec<DirEntry> = vec![];
    assert!(cleanup_targets(&entries).is_empty());
}

#[test]
fn substring_search_matches_anywhere() {
    assert!(contains_sub("xffmpegy", "ffmpeg"));
    assert!(contains_sub("ffmpeg", "ffmpeg"));
    assert!(!contains_sub("ffmpe", "ffmpeg"));
    assert!(!contains_sub("", "ffmpeg"));
    assert!(contains_sub("anything", ""));
    assert!(!contains_sub("ffmPEG", "ffmpeg"));
}

#[test]
fn string_equality_is_exact() {
    assert!(str_eq("abc", "abc"));
    assert!(!str_eq("abc", "abd"));
    assert!(!str_eq("abc", "abcd"));
    assert!(str_eq("", ""));
}
