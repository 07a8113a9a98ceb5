//! The rows of the torrent table and the resume record that each row carries.

use vstd::prelude::*;

verus! {

/// The character sequences of a list of strings.
pub open spec fn texts_view(list: Seq<String>) -> Seq<Seq<char>> {
    list.map_values(|s: String| s@)
}

/// The character sequences of a list of tiers of strings.
pub open spec fn tiers_view(tiers: Seq<Vec<String>>) -> Seq<Seq<Seq<char>>> {
    tiers.map_values(|tier: Vec<String>| texts_view(tier@))
}

/// One row of the torrent table, with every column.
#[derive(Debug, Clone, PartialEq, Eq)]
pub struct DatabaseData {
    /// Torrent database row id
    pub id: u64,
    /// Torrent hash id
    pub torrent_id: String,
    /// Queue position for torrent
    pub queue_position: i64,
    /// Torrent name, only used on re-named torrents
    pub name: Option<String>,
    /// Torrent category
    pub category: Option<String>,
    /// Comma-separated torrent tags
    pub tags: Option<String>,
    /// Save path for torrent content
    pub target_save_path: Option<String>,
    /// Download path, used for incomplete download directory
    pub download_path: Option<String>,
    /// Torrent content layout, whether sub-folders are created or not
    pub content_layout: String,
    /// Ratio limit for seeding
    pub ratio_limit: i64,
    /// Time limit for seeding
    pub seeding_time_limit: i64,
    /// Inactivity time limit for seeding
    pub inactive_seeding_time_limit: i64,
    /// Prioritize outer (first and last) pieces
    pub has_outer_pieces_priority: i64,
    /// Torrent is seeding
    pub has_seed_status: i64,
    /// Torrent management mode
    pub operating_mode: String,
    /// Torrent is stopped
    pub stopped: i64,
    /// Stop condition for torrents
    pub stop_condition: String,
    /// Binary blob containing libtorrent fastresume data
    pub libtorrent_resume_data: Vec<u8>,
    /// Binary blob containing metadata
    pub metadata: Vec<u8>,
}

/// The resume record of a torrent, as decoded from the
/// `libtorrent_resume_data` column.
#[derive(Debug, Clone, PartialEq, Eq)]
pub struct FastresumeData {
    /// Amount of time torrent has been active
    pub active_time: i64,
    /// Date torrent was added
    pub added_time: i64,
    /// Allocation
    pub allocation: String,
    /// Enable IP filter for torrent
    pub apply_ip_filter: i64,
    /// Enable auto manage for torrent
    pub auto_managed: i64,
    /// Date torrent was completed
    pub completed_time: i64,
    /// Enable DHT for torrent
    pub disable_dht: i64,
    /// Enable LSD for torrent
    pub disable_lsd: i64,
    /// Enable PEX for torrent
    pub disable_pex: i64,
    /// Set download rate limit for torrent
    pub download_rate_limit: i64,
    /// File format, "libtorrent resume file"
    ///
    /// Stored under the key `file-format`.
    pub file_format: String,
    /// Torrent file version
    ///
    /// Stored under the key `file-version`.
    pub file_version: i64,
    /// Priority level for each file
    pub file_priority: Option<Vec<u8>>,
    /// Date torrent was finished
    pub finished_time: i64,
    /// httpseed URLs used by torrent
    pub httpseeds: Vec<u8>,
    /// Info hash for torrent
    ///
    /// Stored under the key `info-hash`.
    pub info_hash: Vec<u8>,
    /// V2 info hash for torrent
    ///
    /// Stored under the key `info-hash2`.
    pub info_hash2: String,
    /// Date last downloaded
    pub last_download: i64,
    /// Date last seen complete
    pub last_seen_complete: i64,
    /// Date last uploaded
    pub last_upload: i64,
    /// libtorrent version
    ///
    /// Stored under the key `libtorrent-version`.
    pub libtorrent_version: String,
    /// Max number of active connections
    pub max_connections: i64,
    /// Max number of upload slots
    pub max_uploads: i64,
    /// Torrent name
    pub name: String,
    /// Number of completed pieces
    pub num_complete: u64,
    /// Number of downloaded pieces
    pub num_downloaded: u64,
    /// Number of incomplete pieces
    pub num_incomplete: u64,
    /// Torrent pause state
    pub paused: u64,
    /// Piece priority
    pub piece_priority: Option<String>,
    /// Torrent pieces, there should be no reason to manipulate this
    pub pieces: String,
    /// Save path for torrent content
    pub save_path: String,
    /// Seed mode
    pub seed_mode: i64,
    /// Amount of time torrent has been seeding
    pub seeding_time: u64,
    /// Enable sequential download for torrent
    pub sequential_download: i64,
    /// Toggle share mode for torrent
    pub share_mode: i64,
    /// Stop when a condition is met
    pub stop_when_ready: i64,
    /// Toggle super seeding for torrent
    pub super_seeding: i64,
    /// Total downloaded amount for torrent
    pub total_downloaded: u64,
    /// Total uploaded amount for torrent
    pub total_uploaded: u64,
    /// Trackers list for torrent
    pub trackers: Vec<Vec<String>>,
    /// Toggle upload mode for torrent
    pub upload_mode: i64,
    /// Upload rate limit set on torrent
    pub upload_rate_limit: i64,
    /// List of url-seed URLs for torrent
    ///
    /// Stored under the key `url-list`.
    pub url_list: Vec<String>,
}

/// The mathematical content of a resume record.
pub struct FastresumeModel {
    pub active_time: i64,
    pub added_time: i64,
    pub allocation: Seq<char>,
    pub apply_ip_filter: i64,
    pub auto_managed: i64,
    pub completed_time: i64,
    pub disable_dht: i64,
    pub disable_lsd: i64,
    pub disable_pex: i64,
    pub download_rate_limit: i64,
    pub file_format: Seq<char>,
    pub file_version: i64,
    pub file_priority: Option<Seq<u8>>,
    pub finished_time: i64,
    pub httpseeds: Seq<u8>,
    pub info_hash: Seq<u8>,
    pub info_hash2: Seq<char>,
    pub last_download: i64,
    pub last_seen_complete: i64,
    pub last_upload: i64,
    pub libtorrent_version: Seq<char>,
    pub max_connections: i64,
    pub max_uploads: i64,
    pub name: Seq<char>,
    pub num_complete: u64,
    pub num_downloaded: u64,
    pub num_incomplete: u64,
    pub paused: u64,
    pub piece_priority: Option<Seq<char>>,
    pub pieces: Seq<char>,
    pub save_path: Seq<char>,
    pub seed_mode: i64,
    pub seeding_time: u64,
    pub sequential_download: i64,
    pub share_mode: i64,
    pub stop_when_ready: i64,
    pub super_seeding: i64,
    pub total_downloaded: u64,
    pub total_uploaded: u64,
    pub trackers: Seq<Seq<Seq<char>>>,
    pub upload_mode: i64,
    pub upload_rate_limit: i64,
    pub url_list: Seq<Seq<char>>,
}

impl View for FastresumeData {
    type V = FastresumeModel;

    open spec fn view(&self) -> FastresumeModel {
        FastresumeModel {
            active_time: self.active_time,
            added_time: self.added_time,
            allocation: self.allocation@,
            apply_ip_filter: self.apply_ip_filter,
            auto_managed: self.auto_managed,
            completed_time: self.completed_time,
            disable_dht: self.disable_dht,
            disable_lsd: self.disable_lsd,
            disable_pex: self.disable_pex,
            download_rate_limit: self.download_rate_limit,
            file_format: self.file_format@,
            file_version: self.file_version,
            file_priority: match self.file_priority {
                Some(x) => Some(x@),
                None => None,
            },
            finished_time: self.finished_time,
            httpseeds: self.httpseeds@,
            info_hash: self.info_hash@,
            info_hash2: self.info_hash2@,
            last_download: self.last_download,
            last_seen_complete: self.last_seen_complete,
            last_upload: self.last_upload,
            libtorrent_version: self.libtorrent_version@,
            max_connections: self.max_connections,
            max_uploads: self.max_uploads,
            name: self.name@,
            num_complete: self.num_complete,
            num_downloaded: self.num_downloaded,
            num_incomplete: self.num_incomplete,
            paused: self.paused,
            piece_priority: match self.piece_priority {
                Some(x) => Some(x@),
                None => None,
            },
            pieces: self.pieces@,
            save_path: self.save_path@,
            seed_mode: self.seed_mode,
            seeding_time: self.seeding_time,
            sequential_download: self.sequential_download,
            share_mode: self.share_mode,
            stop_when_ready: self.stop_when_ready,
            super_seeding: self.super_seeding,
            total_downloaded: self.total_downloaded,
            total_uploaded: self.total_uploaded,
            trackers: tiers_view(self.trackers@),
            upload_mode: self.upload_mode,
            upload_rate_limit: self.upload_rate_limit,
            url_list: texts_view(self.url_list@),
        }
    }
}

/// The columns of a row that a save path rewrite reads.
#[derive(Debug, Clone, PartialEq, Eq)]
pub struct FetchedPathData {
    /// Torrent database row id
    pub id: u64,
    /// Torrent hash id
    pub torrent_id: String,
    /// Save path for torrent content
    pub target_save_path: Option<String>,
    /// Binary blob containing fastresume data
    pub libtorrent_resume_data: Vec<u8>,
}

/// The mathematical content of a `FetchedPathData`.
pub struct FetchedPathModel {
    pub id: u64,
    pub torrent_id: Seq<char>,
    pub target_save_path: Option<Seq<char>>,
    pub libtorrent_resume_data: Seq<u8>,
}

impl View for FetchedPathData {
    type V = FetchedPathModel;

    open spec fn view(&self) -> FetchedPathModel {
        FetchedPathModel {
            id: self.id,
            torrent_id: self.torrent_id@,
            target_save_path: match self.target_save_path {
                Some(t) => Some(t@),
                None => None,
            },
            libtorrent_resume_data: self.libtorrent_resume_data@,
        }
    }
}

/// The contents of a list of rows.
pub open spec fn path_rows_view(rows: Seq<FetchedPathData>) -> Seq<FetchedPathModel> {
    rows.map_values(|row: FetchedPathData| row@)
}

/// The columns of a row that a tracker rewrite reads.
#[derive(Debug, Clone, PartialEq, Eq)]
pub struct FetchedLibtorrentResumeData {
    /// Torrent database row id
    pub id: u64,
    /// Torrent hash id
    pub torrent_id: String,
    /// Binary blob containing fastresume data
    pub libtorrent_resume_data: Vec<u8>,
}

/// The mathematical content of a `FetchedLibtorrentResumeData`.
pub struct FetchedResumeModel {
    pub id: u64,
    pub torrent_id: Seq<char>,
    pub libtorrent_resume_data: Seq<u8>,
}

impl View for FetchedLibtorrentResumeData {
    type V = FetchedResumeModel;

    open spec fn view(&self) -> FetchedResumeModel {
        FetchedResumeModel {
            id: self.id,
            torrent_id: self.torrent_id@,
            libtorrent_resume_data: self.libtorrent_resume_data@,
        }
    }
}

/// The contents of a list of rows.
pub open spec fn resume_rows_view(rows: Seq<FetchedLibtorrentResumeData>) -> Seq<
    FetchedResumeModel,
> {
    rows.map_values(|row: FetchedLibtorrentResumeData| row@)
}

} // verus!
