use qbfrt::db::save_path::{unix_style, SavePath};

fn save_path(old: &str, new: &str, separator: &str) -> SavePath {
    SavePath {
        old_unix: unix_style(old),
        new_unix: unix_style(new),
        old: old.to_string(),
        new: new.to_string(),
        separator: separator.to_string(),
    }
}

#[test]
fn unix_style_turns_backslashes_into_slashes() {
    assert_eq!(unix_style("C:\\data\\movies"), "C:/data/movies");
    assert_eq!(unix_style("\\\\server\\folder"), "//server/folder");
    assert_eq!(unix_style("/already/unix"), "/already/unix");
    assert_eq!(unix_style(""), "");
}

#[test]
fn the_column_is_rewritten() {
    let sp = save_path("/data", "/archive", "/");
    assert!(sp.is_candidate("/data/movies"));
    assert_eq!(sp.rewrite_target("/data/movies"), "/archive/movies");
}

#[test]
fn a_windows_save_path_is_rewritten() {
    let sp = save_path("C:\\data", "D:\\archive", "\\");
    assert_eq!(sp.rewrite_save_path("C:\\data\\movies"), "D:\\archive\\movies");
    assert_eq!(sp.rewrite_target("C:/data/movies"), "D:/archive/movies");
}

#[test]
fn a_row_without_the_old_path_is_no_candidate() {
    let sp = save_path("/data", "/archive", "/");
    assert!(!sp.is_candidate("/srv/movies"));
    assert!(!sp.is_candidate("/Data/movies"));
    assert!(!sp.is_candidate(""));
}

#[test]
fn replacement_is_literal_and_not_aware_of_segments() {
    let sp = save_path("/data", "/archive", "/");
    assert!(sp.is_candidate("/data2/foo"));
    assert_eq!(sp.rewrite_target("/data2/foo"), "/archive2/foo");
    assert_eq!(sp.rewrite_target("/data/data/x"), "/archive/archive/x");
}

#[test]
fn the_separator_pass_runs_after_the_replacement() {
    // The old path uses backslashes, the record too: the replacement has to
    // see them before they are turned into slashes.
    let sp = save_path("C:\\data", "/mnt/archive", "/");
    assert_eq!(sp.rewrite_save_path("C:\\data\\movies\\x"), "/mnt/archive/movies/x");
    // Had the pass run first, the old path would not have matched.
    assert_eq!(sp.rewrite_save_path("C:/data/movies"), "C:/data/movies");
}

#[test]
fn the_windows_separator_turns_slashes_into_backslashes() {
    let sp = save_path("/data", "D:\\archive", "\\");
    assert_eq!(sp.rewrite_save_path("/data/movies/x"), "D:\\archive\\movies\\x");
}

#[test]
fn the_unix_separator_turns_backslashes_into_slashes() {
    let sp = save_path("nothing", "else", "/");
    assert_eq!(sp.rewrite_save_path("C:\\a\\b/c"), "C:/a/b/c");
}

#[test]
fn another_separator_replaces_backslashes_only() {
    let sp = save_path("a", "a", "::");
    assert_eq!(sp.rewrite_save_path("x\\y/z"), "x::y/z");
}

#[test]
fn column_and_record_agree_after_a_rewrite() {
    let sp = save_path("C:\\data", "D:\\archive\\new", "\\");
    let record_path = "C:\\data\\movies\\C:\\data";
    let column = unix_style(record_path);
    let new_record_path = sp.rewrite_save_path(record_path);
    let new_column = sp.rewrite_target(&column);
    assert_eq!(unix_style(&new_record_path), new_column);
    assert_eq!(new_column, "D:/archive/new/movies/D:/archive/new");
}

#[test]
fn column_and_record_disagree_when_the_styles_are_mixed() {
    // The operator wrote the old path with slashes, the record has backslashes.
    let sp = save_path("C:/data", "D:/archive", "\\");
    let new_record_path = sp.rewrite_save_path("C:\\data\\movies");
    let new_column = sp.rewrite_target("C:/data/movies");
    assert_eq!(new_record_path, "C:\\data\\movies");
    assert_eq!(new_column, "D:/archive/movies");
    assert_ne!(unix_style(&new_record_path), new_column);
}

#[test]
fn a_second_rewrite_finds_no_candidate() {
    let sp = save_path("/data", "/archive", "/");
    let once = sp.rewrite_target("/data/movies");
    assert!(!sp.is_candidate(&once));
    assert_eq!(sp.rewrite_target(&once), once);
}

#[test]
fn a_second_rewrite_matches_again_when_the_new_path_holds_the_old() {
    let sp = save_path("/data", "/data/new", "/");
    let once = sp.rewrite_target("/data/movies");
    assert_eq!(once, "/data/new/movies");
    assert!(sp.is_candidate(&once));
    assert_eq!(sp.rewrite_target(&once), "/data/new/new/movies");
}
