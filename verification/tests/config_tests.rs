use qbfrt::config::{CliOptions, Config, ConfigError};
use qbfrt::db::save_path::SavePath;
use qbfrt::db::tracker_url::TrackerUrl;
use qbfrt::db::{
    decimal_string, scan_summary, summary, write_confirmed, BackupPlan, OpenRequest, DB,
};

fn options() -> CliOptions {
    CliOptions {
        config_dir: Some("/cfg".to_string()),
        disable_backup: false,
        verbose: false,
        old_path: None,
        new_path: None,
        use_unix_sep: false,
        use_win_sep: false,
        old_tracker: None,
        new_tracker: None,
    }
}

fn text(s: &str) -> Option<String> {
    Some(s.to_string())
}

fn assemble(opts: CliOptions) -> Result<Config, ConfigError> {
    Config::assemble(opts, "/cfg".to_string(), "/cfg/torrents.db".to_string(), '/')
}

#[test]
fn only_the_old_path_is_rejected() {
    let mut opts = options();
    opts.old_path = text("/data");
    assert_eq!(Config::check(&opts), Some(ConfigError::NewPathMissing));
    assert_eq!(assemble(opts.clone()), Err(ConfigError::NewPathMissing));
    assert_eq!(Config::build(opts), Err(ConfigError::NewPathMissing));
}

#[test]
fn an_incomplete_pair_is_rejected() {
    let mut opts = options();
    opts.new_path = text("/archive");
    assert_eq!(assemble(opts.clone()), Err(ConfigError::OldPathMissing));
    assert_eq!(Config::build(opts), Err(ConfigError::OldPathMissing));
    let mut opts = options();
    opts.old_tracker = text("http://a.com");
    assert_eq!(assemble(opts.clone()), Err(ConfigError::NewTrackerMissing));
    assert_eq!(Config::build(opts), Err(ConfigError::NewTrackerMissing));
    let mut opts = options();
    opts.new_tracker = text("http://a.com");
    assert_eq!(assemble(opts.clone()), Err(ConfigError::OldTrackerMissing));
    assert_eq!(Config::build(opts), Err(ConfigError::OldTrackerMissing));
}

#[test]
fn both_separator_switches_are_rejected() {
    let mut opts = options();
    opts.old_path = text("/data");
    opts.new_path = text("/archive");
    opts.use_unix_sep = true;
    opts.use_win_sep = true;
    assert_eq!(assemble(opts.clone()), Err(ConfigError::ConflictingSeparators));
    assert_eq!(Config::build(opts), Err(ConfigError::ConflictingSeparators));
    let mut opts = options();
    opts.use_unix_sep = true;
    opts.use_win_sep = true;
    assert_eq!(assemble(opts), Err(ConfigError::ConflictingSeparators));
}

#[test]
fn faults_are_reported_in_a_fixed_order() {
    let mut opts = options();
    opts.old_path = text("/data");
    opts.use_unix_sep = true;
    opts.use_win_sep = true;
    opts.new_tracker = text("x");
    assert_eq!(Config::check(&opts), Some(ConfigError::NewPathMissing));
    opts.new_path = text("/archive");
    assert_eq!(Config::check(&opts), Some(ConfigError::ConflictingSeparators));
    opts.use_win_sep = false;
    assert_eq!(Config::check(&opts), Some(ConfigError::OldTrackerMissing));
    opts.old_tracker = text("y");
    assert_eq!(Config::check(&opts), None);
}

#[test]
fn options_without_a_rewrite_make_a_plain_configuration() {
    let mut opts = options();
    opts.verbose = true;
    opts.disable_backup = true;
    assert_eq!(
        assemble(opts),
        Ok(Config {
            qb_directory: "/cfg".to_string(),
            db_file: "/cfg/torrents.db".to_string(),
            disable_backup: true,
            save_path: None,
            tracker_url: None,
            verbose: true,
        })
    );
}

#[test]
fn a_path_pair_makes_a_save_path_in_both_styles() {
    let mut opts = options();
    opts.old_path = text("C:\\data\\old");
    opts.new_path = text("D:\\new");
    opts.use_win_sep = true;
    let config = assemble(opts).unwrap();
    assert_eq!(
        config.save_path,
        Some(SavePath {
            old_unix: "C:/data/old".to_string(),
            new_unix: "D:/new".to_string(),
            old: "C:\\data\\old".to_string(),
            new: "D:\\new".to_string(),
            separator: "\\".to_string(),
        })
    );
    assert_eq!(config.tracker_url, None);
}

#[test]
fn the_separator_follows_the_switches_and_then_the_host() {
    let mut opts = options();
    opts.old_path = text("/a");
    opts.new_path = text("/b");
    let on_unix = Config::assemble(opts.clone(), "d".to_string(), "f".to_string(), '/').unwrap();
    assert_eq!(on_unix.save_path.unwrap().separator, "/");
    let on_windows = Config::assemble(opts.clone(), "d".to_string(), "f".to_string(), '\\').unwrap();
    assert_eq!(on_windows.save_path.unwrap().separator, "\\");
    opts.use_unix_sep = true;
    let forced = Config::assemble(opts.clone(), "d".to_string(), "f".to_string(), '\\').unwrap();
    assert_eq!(forced.save_path.unwrap().separator, "/");
    opts.use_unix_sep = false;
    opts.use_win_sep = true;
    let forced = Config::assemble(opts, "d".to_string(), "f".to_string(), '/').unwrap();
    assert_eq!(forced.save_path.unwrap().separator, "\\");
}

#[test]
fn a_tracker_pair_makes_a_tracker_url() {
    let mut opts = options();
    opts.old_tracker = text("http://");
    opts.new_tracker = text("https://");
    let config = assemble(opts).unwrap();
    assert_eq!(
        config.tracker_url,
        Some(TrackerUrl { old: "http://".to_string(), new: "https://".to_string() })
    );
    assert_eq!(config.save_path, None);
}

#[test]
fn build_uses_the_directory_of_the_options() {
    let mut opts = options();
    opts.config_dir = text("some-dir");
    opts.old_path = text("/a");
    opts.new_path = text("/b");
    let config = Config::build(opts).unwrap();
    assert_eq!(config.qb_directory, "some-dir");
    assert_eq!(
        std::path::PathBuf::from(&config.db_file),
        std::path::Path::new("some-dir").join("torrents.db")
    );
    let sp = config.save_path.unwrap();
    assert_eq!(sp.separator, std::path::MAIN_SEPARATOR.to_string());
    assert_eq!(sp.old_unix, "/a");
}

#[test]
fn build_falls_back_to_the_local_data_directory() {
    let mut opts = options();
    opts.config_dir = None;
    match Config::build(opts) {
        Ok(config) => {
            assert!(std::path::Path::new(&config.qb_directory).ends_with("qBittorrent"));
            assert_eq!(
                std::path::PathBuf::from(&config.db_file),
                std::path::Path::new(&config.qb_directory).join("torrents.db")
            );
            assert_ne!(config.qb_directory, "qBittorrent");
        }
        Err(e) => assert_eq!(e, ConfigError::NoDataDirectory),
    }
}

#[test]
fn error_messages_name_the_option() {
    assert_eq!(ConfigError::NewPathMissing.message(), "--new-path is missing!");
    assert_eq!(ConfigError::OldPathMissing.message(), "--old-path is missing!");
    assert_eq!(ConfigError::NewTrackerMissing.message(), "--new-tracker is missing!");
    assert_eq!(ConfigError::OldTrackerMissing.message(), "--old-tracker is missing!");
    assert_eq!(
        ConfigError::ConflictingSeparators.message(),
        "--use-unix-sep and --use-win-sep exclude each other!"
    );
    assert_eq!(
        ConfigError::NoDataDirectory.message(),
        "the local data directory could not be found!"
    );
}

#[test]
fn the_backup_is_named_after_the_time() {
    let config = assemble(options()).unwrap();
    assert_eq!(
        DB::plan_backup(&config, "20240131235959"),
        BackupPlan::Copy {
            from: "/cfg/torrents.db".to_string(),
            file_name: "torrents.db-20240131235959.bak".to_string(),
        }
    );
    match DB::backup(&config) {
        BackupPlan::Copy { from, file_name } => {
            assert_eq!(from, "/cfg/torrents.db");
            assert!(file_name.starts_with("torrents.db-"));
            assert!(file_name.ends_with(".bak"));
            let stamp = &file_name["torrents.db-".len()..file_name.len() - ".bak".len()];
            assert!(stamp.len() >= 14);
            assert!(stamp.chars().all(|c| c.is_ascii_digit()));
        }
        BackupPlan::Skip => panic!("backup skipped"),
    }
}

#[test]
fn a_disabled_backup_is_skipped() {
    let mut opts = options();
    opts.disable_backup = true;
    let config = assemble(opts).unwrap();
    assert_eq!(DB::plan_backup(&config, "20240131235959"), BackupPlan::Skip);
    assert_eq!(DB::backup(&config), BackupPlan::Skip);
}

#[test]
fn the_database_is_opened_for_reading_and_writing() {
    let config = assemble(options()).unwrap();
    assert_eq!(
        DB::connect(&config),
        OpenRequest {
            db_file: "/cfg/torrents.db".to_string(),
            read_write: true,
            uri: true,
            no_mutex: true
        }
    );
}

#[test]
fn numbers_are_written_in_decimal() {
    assert_eq!(decimal_string(0), "0");
    assert_eq!(decimal_string(7), "7");
    assert_eq!(decimal_string(10), "10");
    assert_eq!(decimal_string(1234567890), "1234567890");
    assert_eq!(decimal_string(usize::MAX), usize::MAX.to_string());
}

#[test]
fn the_summary_counts_the_updated_torrents() {
    assert_eq!(summary("Save path", 0), "Save path: no torrents were updated");
    assert_eq!(summary("Save path", 1), "Save path: 1 torrent was updated");
    assert_eq!(summary("Save path", 2), "Save path: 2 torrents were updated");
    assert_eq!(summary("Tracker url", 1203), "Tracker url: 1203 torrents were updated");
}

#[test]
fn the_scan_line_counts_the_rows() {
    assert_eq!(scan_summary("Save path", 0), "Save path: 0 rows scanned");
    assert_eq!(scan_summary("Tracker url", 41), "Tracker url: 41 rows scanned");
}

#[test]
fn a_write_is_confirmed_by_exactly_one_row() {
    assert!(write_confirmed(1));
    assert!(!write_confirmed(0));
    assert!(!write_confirmed(2));
}
