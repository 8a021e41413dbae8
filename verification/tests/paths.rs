use backend_supervisor::paths::{
    join_path, last_segment_of, parent_of, same_text, segment_begin, trimmed_length,
};
use backend_supervisor::platform::PathStyle;

#[test]
fn styles_name_their_separators() {
    assert_eq!(PathStyle::Posix.separator_text(), "/");
    assert_eq!(PathStyle::Windows.separator_text(), "\\");
    assert!(PathStyle::Posix.separates('/'));
    assert!(!PathStyle::Posix.separates('\\'));
    assert!(PathStyle::Windows.separates('/'));
    assert!(PathStyle::Windows.separates('\\'));
    assert!(!PathStyle::Windows.separates(':'));
    assert_eq!(PathStyle::Posix.script_suffix_text(), "");
    assert_eq!(PathStyle::Windows.script_suffix_text(), ".cmd");
    assert_eq!(PathStyle::Posix.executable_suffix_text(), "");
    assert_eq!(PathStyle::Windows.executable_suffix_text(), ".exe");
}

#[test]
fn same_text_compares_characters() {
    assert!(same_text("", ""));
    assert!(same_text("src-tauri", "src-tauri"));
    assert!(!same_text("src-tauri", "src-taurI"));
    assert!(!same_text("src-tauri", "src-tauri/"));
    assert!(!same_text("a", ""));
    assert!(same_text("h\u{e9}", "h\u{e9}"));
    assert!(!same_text("h\u{e9}", "he"));
}

#[test]
fn trimmed_length_drops_trailing_separators() {
    assert_eq!(trimmed_length("", PathStyle::Posix), 0);
    assert_eq!(trimmed_length("/", PathStyle::Posix), 0);
    assert_eq!(trimmed_length("///", PathStyle::Posix), 0);
    assert_eq!(trimmed_length("/a/b", PathStyle::Posix), 4);
    assert_eq!(trimmed_length("/a/b//", PathStyle::Posix), 4);
    assert_eq!(trimmed_length("a\\", PathStyle::Posix), 2);
    assert_eq!(trimmed_length("a\\", PathStyle::Windows), 1);
    assert_eq!(trimmed_length("C:\\x\\/", PathStyle::Windows), 4);
}

#[test]
fn segment_begin_finds_the_last_segment() {
    assert_eq!(segment_begin("", PathStyle::Posix), 0);
    assert_eq!(segment_begin("/", PathStyle::Posix), 0);
    assert_eq!(segment_begin("abc", PathStyle::Posix), 0);
    assert_eq!(segment_begin("/a/bc", PathStyle::Posix), 3);
    assert_eq!(segment_begin("/a/bc/", PathStyle::Posix), 3);
    assert_eq!(segment_begin("C:\\a\\bc", PathStyle::Windows), 5);
    assert_eq!(segment_begin("C:\\a\\bc", PathStyle::Posix), 0);
}

#[test]
fn last_segment_posix() {
    assert_eq!(last_segment_of("/home/u/app/src-tauri", PathStyle::Posix), "src-tauri");
    assert_eq!(last_segment_of("/home/u/app/src-tauri/", PathStyle::Posix), "src-tauri");
    assert_eq!(last_segment_of("src-tauri", PathStyle::Posix), "src-tauri");
    assert_eq!(last_segment_of("/", PathStyle::Posix), "");
    assert_eq!(last_segment_of("", PathStyle::Posix), "");
    assert_eq!(last_segment_of("/a\\b", PathStyle::Posix), "a\\b");
    assert_eq!(last_segment_of("/caf\u{e9}/na\u{ef}ve", PathStyle::Posix), "na\u{ef}ve");
}

#[test]
fn last_segment_windows() {
    assert_eq!(last_segment_of("C:\\Users\\u\\app\\src-tauri", PathStyle::Windows), "src-tauri");
    assert_eq!(last_segment_of("C:\\Users\\u\\app/src-tauri\\", PathStyle::Windows), "src-tauri");
    assert_eq!(last_segment_of("C:\\", PathStyle::Windows), "C:");
    assert_eq!(last_segment_of("\\\\", PathStyle::Windows), "");
}

#[test]
fn parent_keeps_the_closing_separator() {
    assert_eq!(parent_of("/home/u/app/src-tauri", PathStyle::Posix), "/home/u/app/");
    assert_eq!(parent_of("/home/u/app/src-tauri//", PathStyle::Posix), "/home/u/app/");
    assert_eq!(parent_of("/src-tauri", PathStyle::Posix), "/");
    assert_eq!(parent_of("src-tauri", PathStyle::Posix), "");
    assert_eq!(parent_of("/", PathStyle::Posix), "");
    assert_eq!(parent_of("", PathStyle::Posix), "");
    assert_eq!(parent_of("C:\\app\\src-tauri", PathStyle::Windows), "C:\\app\\");
    assert_eq!(parent_of("C:\\src-tauri", PathStyle::Windows), "C:\\");
    assert_eq!(parent_of("C:/app/src-tauri", PathStyle::Windows), "C:/app/");
}

#[test]
fn join_puts_one_separator_between() {
    assert_eq!(join_path("/home/u/app", "backend-bun", PathStyle::Posix), "/home/u/app/backend-bun");
    assert_eq!(join_path("/home/u/app/", "backend-bun", PathStyle::Posix), "/home/u/app/backend-bun");
    assert_eq!(join_path("/", "backend-bun", PathStyle::Posix), "/backend-bun");
    assert_eq!(join_path("", "backend-bun", PathStyle::Posix), "backend-bun");
    assert_eq!(join_path("C:\\app", "backend-bun", PathStyle::Windows), "C:\\app\\backend-bun");
    assert_eq!(join_path("C:\\app\\", "backend-bun", PathStyle::Windows), "C:\\app\\backend-bun");
    assert_eq!(join_path("C:/app/", "backend-bun", PathStyle::Windows), "C:/app/backend-bun");
    assert_eq!(join_path("C:\\app\\", "x", PathStyle::Posix), "C:\\app\\/x");
    assert_eq!(join_path("/a", "", PathStyle::Posix), "/a/");
}

#[test]
fn join_then_split_gives_the_segment_back() {
    for style in [PathStyle::Posix, PathStyle::Windows] {
        for base in ["", "/", "/a", "/a/", "rel", "C:"] {
            let joined = join_path(base, "backend-bun", style);
            assert_eq!(last_segment_of(&joined, style), "backend-bun");
            let parent = parent_of(&joined, style);
            assert_eq!(format!("{}backend-bun", parent), joined);
        }
    }
}

#[test]
fn split_rebuilds_the_path() {
    for style in [PathStyle::Posix, PathStyle::Windows] {
        for path in ["", "/", "//", "a", "/a", "/a/b/", "a\\b\\", "C:\\x/y\\\\", "/a/b.c//"] {
            let end = trimmed_length(path, style);
            let tail: String = path.chars().skip(end).collect();
            let rebuilt =
                format!("{}{}{}", parent_of(path, style), last_segment_of(path, style), tail);
            assert_eq!(rebuilt, path);
            assert!(tail.chars().all(|c| style.separates(c)));
            assert!(!last_segment_of(path, style).chars().any(|c| style.separates(c)));
        }
    }
}
