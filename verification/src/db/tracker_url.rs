//! Rewriting the tracker URLs of a torrent.
//!
//! The trackers of a torrent are kept inside the resume record, as tiers of
//! URLs. A rewrite replaces a fragment in every URL of every tier, and only
//! rows in which the fragment occurs are written back.

use crate::codec::{decode, decoded, encode, encoded, CodecError};
use crate::db::db_structs::{
    resume_rows_view, texts_view, tiers_view, FastresumeData, FastresumeModel,
    FetchedLibtorrentResumeData, FetchedResumeModel,
};
use crate::db::{RowFailure, RowFailureModel};
use crate::text::{
    contains, contains_str, lemma_replace_without_occurrence, replace_all, replace_str,
};
use vstd::prelude::*;

verus! {

/// The fragment of a tracker URL that is replaced, and what replaces it.
#[derive(Debug, Clone, PartialEq, Eq)]
pub struct TrackerUrl {
    /// Existing tracker URL
    pub old: String,
    /// New tracker URL
    pub new: String,
}

impl TrackerUrl {
    /// A URL after the rewrite.
    pub open spec fn url_after(&self, url: Seq<char>) -> Seq<char> {
        replace_all(url, self.old@, self.new@)
    }

    /// A tier after the rewrite: the same URLs in the same order, each one
    /// rewritten.
    pub open spec fn tier_after(&self, tier: Seq<Seq<char>>) -> Seq<Seq<char>> {
        Seq::new(tier.len(), |j: int| self.url_after(tier[j]))
    }

    /// The tiers after the rewrite: the same tiers in the same order, empty
    /// ones too, each one rewritten.
    pub open spec fn tiers_after(&self, tiers: Seq<Seq<Seq<char>>>) -> Seq<Seq<Seq<char>>> {
        Seq::new(tiers.len(), |i: int| self.tier_after(tiers[i]))
    }

    /// The old fragment occurs in some URL of the tier.
    pub open spec fn tier_mentions(&self, tier: Seq<Seq<char>>) -> bool {
        exists|j: int| 0 <= j < tier.len() && contains(#[trigger] tier[j], self.old@)
    }

    /// The old fragment occurs in some URL of some tier.
    pub open spec fn mentions(&self, tiers: Seq<Seq<Seq<char>>>) -> bool {
        exists|i: int| 0 <= i < tiers.len() && self.tier_mentions(#[trigger] tiers[i])
    }

    /// Rewrites one tier, and tells whether the old fragment occurred in it.
    pub fn rewrite_tier(&self, tier: &Vec<String>) -> (r: (Vec<String>, bool))
        ensures
            texts_view(r.0@) == self.tier_after(texts_view(tier@)),
            r.1 == self.tier_mentions(texts_view(tier@)),
    {
        let ghost urls = texts_view(tier@);
        let mut out: Vec<String> = Vec::new();
        let mut found = false;
        let mut j: usize = 0;
        while j < tier.len()
            invariant
                j <= tier.len(),
                urls == texts_view(tier@),
                out@.len() == j,
                forall|k: int| 0 <= k < j ==> (#[trigger] out@[k])@ == self.url_after(urls[k]),
                found == (exists|k: int| 0 <= k < j && contains(#[trigger] urls[k], self.old@)),
            decreases tier.len() - j,
        {
            let url = tier[j].as_str();
            assert(url@ == urls[j as int]);
            if contains_str(url, self.old.as_str()) {
                found = true;
            }
            out.push(replace_str(url, self.old.as_str(), self.new.as_str()));
            j = j + 1;
        }
        assert(texts_view(out@) =~= self.tier_after(urls));
        (out, found)
    }

    /// Rewrites all tiers, and tells whether the old fragment occurred in
    /// any URL.
    pub fn rewrite_tiers(&self, tiers: &Vec<Vec<String>>) -> (r: (Vec<Vec<String>>, bool))
        ensures
            tiers_view(r.0@) == self.tiers_after(tiers_view(tiers@)),
            r.1 == self.mentions(tiers_view(tiers@)),
    {
        let ghost all = tiers_view(tiers@);
        let mut out: Vec<Vec<String>> = Vec::new();
        let mut found = false;
        let mut i: usize = 0;
        while i < tiers.len()
            invariant
                i <= tiers.len(),
                all == tiers_view(tiers@),
                out@.len() == i,
                forall|k: int|
                    0 <= k < i ==> texts_view((#[trigger] out@[k])@) == self.tier_after(all[k]),
                found == (exists|k: int| 0 <= k < i && self.tier_mentions(#[trigger] all[k])),
            decreases tiers.len() - i,
        {
            assert(texts_view(tiers@[i as int]@) == all[i as int]);
            let (tier, hit) = self.rewrite_tier(&tiers[i]);
            if hit {
                found = true;
            }
            out.push(tier);
            i = i + 1;
        }
        assert(tiers_view(out@) =~= self.tiers_after(all));
        (out, found)
    }
}

/// What is written back for one row after a tracker rewrite.
#[derive(Debug, Clone, PartialEq, Eq)]
pub struct TrackerUpdate {
    /// Torrent database row id
    pub id: u64,
    /// Torrent hash id
    pub torrent_id: String,
    /// New tracker tiers inside the resume record
    pub trackers: Vec<Vec<String>>,
    /// New value of the `libtorrent_resume_data` column
    pub libtorrent_resume_data: Vec<u8>,
}

/// The mathematical content of a `TrackerUpdate`.
pub struct TrackerUpdateModel {
    pub id: u64,
    pub torrent_id: Seq<char>,
    pub trackers: Seq<Seq<Seq<char>>>,
    pub libtorrent_resume_data: Seq<u8>,
}

impl View for TrackerUpdate {
    type V = TrackerUpdateModel;

    open spec fn view(&self) -> TrackerUpdateModel {
        TrackerUpdateModel {
            id: self.id,
            torrent_id: self.torrent_id@,
            trackers: tiers_view(self.trackers@),
            libtorrent_resume_data: self.libtorrent_resume_data@,
        }
    }
}

/// The updates of a list of updates.
pub open spec fn tracker_updates_view(updates: Seq<TrackerUpdate>) -> Seq<TrackerUpdateModel> {
    updates.map_values(|u: TrackerUpdate| u@)
}

/// The record with its trackers rewritten and nothing else changed.
pub open spec fn record_with_trackers(tu: TrackerUrl, m: FastresumeModel) -> FastresumeModel {
    FastresumeModel { trackers: tu.tiers_after(m.trackers), ..m }
}

/// What a tracker rewrite does with one row: the error where its blob does
/// not decode; nothing where the old fragment occurs in none of its URLs;
/// otherwise the update that holds the new tiers and the re-encoded record.
#[verifier::opaque]
pub open spec fn tracker_plan(tu: TrackerUrl, row: FetchedResumeModel) -> Result<
    Option<TrackerUpdateModel>,
    CodecError,
> {
    match decoded(row.libtorrent_resume_data) {
        Err(e) => Err(e),
        Ok(m) => if !tu.mentions(m.trackers) {
            Ok(None)
        } else {
            Ok(
                Some(
                    TrackerUpdateModel {
                        id: row.id,
                        torrent_id: row.torrent_id,
                        trackers: tu.tiers_after(m.trackers),
                        libtorrent_resume_data: encoded(record_with_trackers(tu, m)),
                    },
                ),
            )
        },
    }
}

/// What a tracker rewrite does with a list of rows: the updates of the rows
/// that mention the old fragment, in the order of the rows, or the first row
/// whose blob does not decode.
pub open spec fn tracker_plans(tu: TrackerUrl, rows: Seq<FetchedResumeModel>) -> Result<
    Seq<TrackerUpdateModel>,
    RowFailureModel,
>
    decreases rows.len(),
{
    if rows.len() == 0 {
        Ok(Seq::empty())
    } else {
        match tracker_plans(tu, rows.drop_last()) {
            Err(f) => Err(f),
            Ok(updates) => match tracker_plan(tu, rows.last()) {
                Err(e) => Err(
                    RowFailureModel {
                        index: rows.len() - 1,
                        id: rows.last().id,
                        torrent_id: rows.last().torrent_id,
                        error: e,
                    },
                ),
                Ok(None) => Ok(updates),
                Ok(Some(u)) => Ok(updates.push(u)),
            },
        }
    }
}

impl TrackerUrl {
    /// Rewrites the trackers of a decoded record in place, and tells
    /// whether the old fragment occurred in any of them.
    pub fn rewrite_record(&self, rec: &mut FastresumeData) -> (found: bool)
        ensures
            final(rec)@ == record_with_trackers(*self, old(rec)@),
            found == self.mentions(old(rec)@.trackers),
    {
        let (trackers, found) = self.rewrite_tiers(&rec.trackers);
        rec.trackers = trackers;
        found
    }

    /// Computes what is written back for one row, if anything.
    ///
    /// A row in which the old fragment does not occur gets no update: its
    /// blob is not encoded again, and stays as it is. The blob of an update
    /// decodes to the record of the row with the new tiers.
    pub fn rewrite_row(&self, row: &FetchedLibtorrentResumeData) -> (r: Result<
        Option<TrackerUpdate>,
        CodecError,
    >)
        ensures
            match tracker_plan(*self, row@) {
                Ok(Some(u)) => r matches Ok(Some(x)) && x@ == u && decoded(
                    x.libtorrent_resume_data@,
                ) == Ok::<FastresumeModel, CodecError>(
                    record_with_trackers(*self, decoded(row.libtorrent_resume_data@)->Ok_0),
                ),
                Ok(None) => r matches Ok(None),
                Err(e) => r matches Err(x) && x == e,
            },
            r matches Ok(None) <==> (decoded(row.libtorrent_resume_data@) matches Ok(m)
                && !self.mentions(m.trackers)),
    {
        reveal(tracker_plan);
        let mut rec = decode(row.libtorrent_resume_data.as_slice())?;
        let found = self.rewrite_record(&mut rec);
        if !found {
            return Ok(None);
        }
        let libtorrent_resume_data = encode(&rec)?;
        Ok(
            Some(
                TrackerUpdate {
                    id: row.id,
                    torrent_id: row.torrent_id.clone(),
                    trackers: rec.trackers,
                    libtorrent_resume_data,
                },
            ),
        )
    }
}

/// Computes the updates of a tracker rewrite over the given rows.
///
/// Nothing is returned for a row that does not mention the old fragment.
/// The first row whose blob does not decode ends the run with that row's
/// failure, and no update is returned at all.
pub fn change_tracker_url(rows: &Vec<FetchedLibtorrentResumeData>, tracker_url: &TrackerUrl) -> (r:
    Result<Vec<TrackerUpdate>, RowFailure>)
    ensures
        match tracker_plans(*tracker_url, resume_rows_view(rows@)) {
            Ok(updates) => r matches Ok(x) && tracker_updates_view(x@) == updates,
            Err(f) => r matches Err(x) && x@ == f,
        },
        r matches Ok(x) ==> x.len() <= rows.len(),
{
    proof {
        lemma_no_more_updates_than_rows(*tracker_url, resume_rows_view(rows@));
    }
    let mut updates: Vec<TrackerUpdate> = Vec::new();
    let mut i: usize = 0;
    assert(tracker_updates_view(updates@) =~= Seq::<TrackerUpdateModel>::empty());
    assert(resume_rows_view(rows@).take(0).len() == 0);
    while i < rows.len()
        invariant
            i <= rows.len(),
            tracker_plans(*tracker_url, resume_rows_view(rows@).take(i as int)) == Ok::<
                Seq<TrackerUpdateModel>,
                RowFailureModel,
            >(tracker_updates_view(updates@)),
        decreases rows.len() - i,
    {
        proof {
            lemma_tracker_plans_step(*tracker_url, resume_rows_view(rows@), i as int);
        }
        match tracker_url.rewrite_row(&rows[i]) {
            Ok(None) => {},
            Ok(Some(u)) => {
                assert(tracker_updates_view(updates@.push(u)) == tracker_updates_view(
                    updates@,
                ).push(u@));
                updates.push(u);
            },
            Err(e) => {
                proof {
                    lemma_tracker_failure_stays(*tracker_url, resume_rows_view(rows@), i + 1);
                }
                return Err(
                    RowFailure {
                        index: i,
                        id: rows[i].id,
                        torrent_id: rows[i].torrent_id.clone(),
                        error: e,
                    },
                );
            },
        }
        i = i + 1;
    }
    assert(resume_rows_view(rows@).take(rows.len() as int) == resume_rows_view(rows@));
    Ok(updates)
}

/// The plans of the first `i + 1` rows, from those of the first `i` and the
/// plan of the row at `i`.
pub proof fn lemma_tracker_plans_step(
    tu: TrackerUrl,
    rows: Seq<FetchedResumeModel>,
    i: int,
)
    requires
        0 <= i < rows.len(),
    ensures
        tracker_plans(tu, rows.take(i + 1)) == (match tracker_plans(tu, rows.take(i)) {
            Err(f) => Err(f),
            Ok(updates) => match tracker_plan(tu, rows[i]) {
                Err(e) => Err(
                    RowFailureModel {
                        index: i,
                        id: rows[i].id,
                        torrent_id: rows[i].torrent_id,
                        error: e,
                    },
                ),
                Ok(None) => Ok(updates),
                Ok(Some(u)) => Ok(updates.push(u)),
            },
        }),
{
    assert(rows.take(i + 1).drop_last() == rows.take(i));
    assert(rows.take(i + 1).last() == rows[i]);
}

/// A run plans at most one update for each row.
pub proof fn lemma_no_more_updates_than_rows(tu: TrackerUrl, rows: Seq<FetchedResumeModel>)
    ensures
        tracker_plans(tu, rows) matches Ok(updates) ==> updates.len() <= rows.len(),
    decreases rows.len(),
{
    if rows.len() > 0 {
        lemma_no_more_updates_than_rows(tu, rows.drop_last());
    }
}

/// A failure among the first `n` rows is the failure of the whole list.
pub proof fn lemma_tracker_failure_stays(
    tu: TrackerUrl,
    rows: Seq<FetchedResumeModel>,
    n: int,
)
    requires
        0 <= n <= rows.len(),
        tracker_plans(tu, rows.take(n)) is Err,
    ensures
        tracker_plans(tu, rows) == tracker_plans(tu, rows.take(n)),
    decreases rows.len() - n,
{
    if n < rows.len() {
        assert(rows.take(n + 1).drop_last() == rows.take(n));
        lemma_tracker_failure_stays(tu, rows, n + 1);
    } else {
        assert(rows.take(n) == rows);
    }
}

/// The row as the store holds it after a run: with the new blob where the
/// run updated it, as it was where it did not.
pub open spec fn row_after(tu: TrackerUrl, row: FetchedResumeModel) -> FetchedResumeModel {
    match tracker_plan(tu, row) {
        Ok(Some(u)) => FetchedResumeModel {
            libtorrent_resume_data: u.libtorrent_resume_data,
            ..row
        },
        _ => row,
    }
}

/// Tiers in which the old fragment does not occur are the same after the
/// rewrite.
pub proof fn lemma_unmentioned_tiers_stay(tu: TrackerUrl, tiers: Seq<Seq<Seq<char>>>)
    requires
        !tu.mentions(tiers),
    ensures
        tu.tiers_after(tiers) == tiers,
{
    assert forall|i: int| 0 <= i < tiers.len() implies tu.tier_after(tiers[i]) == tiers[i] by {
        let tier = tiers[i];
        assert(!tu.tier_mentions(tier));
        assert forall|j: int| 0 <= j < tier.len() implies tu.url_after(tier[j]) == tier[j] by {
            assert(!contains(tier[j], tu.old@));
            lemma_replace_without_occurrence(tier[j], tu.old@, tu.new@);
        }
        assert(tu.tier_after(tier) =~= tier);
    }
    assert(tu.tiers_after(tiers) =~= tiers);
}

/// A row whose trackers do not mention the old fragment gets no update, and
/// the store holds it after the run byte for byte as before.
pub proof fn lemma_unmentioned_row_stays(tu: TrackerUrl, row: FetchedResumeModel)
    requires
        decoded(row.libtorrent_resume_data) matches Ok(m) && !tu.mentions(m.trackers),
    ensures
        tracker_plan(tu, row) == Ok::<Option<TrackerUpdateModel>, CodecError>(None),
        row_after(tu, row) == row,
{
    reveal(tracker_plan);
}

} // verus!
