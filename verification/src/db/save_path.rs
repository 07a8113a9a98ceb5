//! Rewriting the save path of a torrent.
//!
//! The client stores the save path in two places: the `target_save_path`
//! column, always with forward slashes, and the `save_path` entry of the
//! resume record, with the separators of the host. A rewrite has to change
//! both, each in its own style.

use crate::codec::{decode, decoded, encode, encoded, CodecError};
use crate::db::db_structs::{
    path_rows_view, FastresumeData, FastresumeModel, FetchedPathData, FetchedPathModel,
};
use crate::db::{RowFailure, RowFailureModel};
use crate::text::{
    contains, contains_str, lemma_occurs_in_suffix, lemma_replace_one_char, occurs_at,
    replace_all, replace_str, swap_char, swap_str, to_chars,
};
use vstd::prelude::*;

verus! {

/// The forward-slash form of a path: every backslash becomes a slash.
pub open spec fn unix_form(s: Seq<char>) -> Seq<char> {
    swap_char(s, '\\', '/')
}

/// A path after the separator pass: where `separator` is a backslash every
/// slash is replaced by it, otherwise every backslash is replaced by it.
pub open spec fn with_separator(s: Seq<char>, separator: Seq<char>) -> Seq<char> {
    if separator == seq!['\\'] {
        replace_all(s, seq!['/'], separator)
    } else {
        replace_all(s, seq!['\\'], separator)
    }
}

/// The old and the new save path, each in both styles, and the separator
/// that rewritten host-style paths are normalized to.
#[derive(Debug, Clone, PartialEq, Eq)]
pub struct SavePath {
    /// Existing save path string, Unix-style
    pub old_unix: String,
    /// New save path string, Unix-style
    pub new_unix: String,
    /// Existing save path string, OS-specific
    pub old: String,
    /// New save path string, OS-specific
    pub new: String,
    /// Separator to use in file paths
    pub separator: String,
}

impl SavePath {
    /// The Unix-style strings are the forward-slash forms of the host-style
    /// ones, and the separator is a single slash or a single backslash.
    pub open spec fn well_formed(&self) -> bool {
        &&& self.old_unix@ == unix_form(self.old@)
        &&& self.new_unix@ == unix_form(self.new@)
        &&& (self.separator@ == seq!['/'] || self.separator@ == seq!['\\'])
    }

    /// A row takes part in the rewrite when its column holds the old path.
    pub open spec fn selects(&self, target_save_path: Seq<char>) -> bool {
        contains(target_save_path, self.old_unix@)
    }

    /// The column value after the rewrite.
    pub open spec fn target_after(&self, target_save_path: Seq<char>) -> Seq<char> {
        replace_all(target_save_path, self.old_unix@, self.new_unix@)
    }

    /// The record's save path after the rewrite: the host-style replacement
    /// first, the separator pass on its result.
    pub open spec fn save_path_after(&self, save_path: Seq<char>) -> Seq<char> {
        with_separator(replace_all(save_path, self.old@, self.new@), self.separator@)
    }

    /// Tells whether a row with this column value takes part in the rewrite.
    pub fn is_candidate(&self, target_save_path: &str) -> (b: bool)
        ensures
            b == self.selects(target_save_path@),
    {
        contains_str(target_save_path, self.old_unix.as_str())
    }

    /// Computes the new value of the `target_save_path` column.
    pub fn rewrite_target(&self, target_save_path: &str) -> (out: String)
        ensures
            out@ == self.target_after(target_save_path@),
    {
        replace_str(target_save_path, self.old_unix.as_str(), self.new_unix.as_str())
    }

    /// Computes the new save path of the resume record.
    pub fn rewrite_save_path(&self, save_path: &str) -> (out: String)
        ensures
            out@ == self.save_path_after(save_path@),
    {
        let replaced = replace_str(save_path, self.old.as_str(), self.new.as_str());
        let sep = to_chars(self.separator.as_str());
        if sep.len() == 1 && sep[0] == '\\' {
            assert(sep@ == seq!['\\']);
            proof {
                reveal_strlit("/");
            }
            assert("/"@ == seq!['/']);
            replace_str(replaced.as_str(), "/", self.separator.as_str())
        } else {
            assert(sep@ != seq!['\\']) by {
                if sep@ == seq!['\\'] {
                    assert(sep@.len() == 1);
                    assert(sep@[0] == '\\');
                }
            }
            proof {
                reveal_strlit("\\");
            }
            assert("\\"@ == seq!['\\']);
            replace_str(replaced.as_str(), "\\", self.separator.as_str())
        }
    }
}

/// Computes the forward-slash form of a path.
pub fn unix_style(path: &str) -> (out: String)
    ensures
        out@ == unix_form(path@),
{
    swap_str(path, '\\', '/')
}

/// What is written back for one row after a save path rewrite.
#[derive(Debug, Clone, PartialEq, Eq)]
pub struct PathUpdate {
    /// Torrent database row id
    pub id: u64,
    /// Torrent hash id
    pub torrent_id: String,
    /// New value of the `target_save_path` column
    pub target_save_path: String,
    /// New save path inside the resume record
    pub save_path: String,
    /// New value of the `libtorrent_resume_data` column
    pub libtorrent_resume_data: Vec<u8>,
}

/// The mathematical content of a `PathUpdate`.
pub struct PathUpdateModel {
    pub id: u64,
    pub torrent_id: Seq<char>,
    pub target_save_path: Seq<char>,
    pub save_path: Seq<char>,
    pub libtorrent_resume_data: Seq<u8>,
}

impl View for PathUpdate {
    type V = PathUpdateModel;

    open spec fn view(&self) -> PathUpdateModel {
        PathUpdateModel {
            id: self.id,
            torrent_id: self.torrent_id@,
            target_save_path: self.target_save_path@,
            save_path: self.save_path@,
            libtorrent_resume_data: self.libtorrent_resume_data@,
        }
    }
}

/// The updates of a list of updates.
pub open spec fn path_updates_view(updates: Seq<PathUpdate>) -> Seq<PathUpdateModel> {
    updates.map_values(|u: PathUpdate| u@)
}

/// The record with its save path rewritten and nothing else changed.
pub open spec fn record_after(sp: SavePath, m: FastresumeModel) -> FastresumeModel {
    FastresumeModel { save_path: sp.save_path_after(m.save_path), ..m }
}

/// A row is rewritten when its column is set and holds the old path.
pub open spec fn row_selected(sp: SavePath, row: FetchedPathModel) -> bool {
    row.target_save_path matches Some(t) && sp.selects(t)
}

/// What a save path rewrite does with one row: nothing where the row is not
/// selected; the error where its blob does not decode; otherwise the update
/// that holds the new column value and the re-encoded record.
#[verifier::opaque]
pub open spec fn path_plan(sp: SavePath, row: FetchedPathModel) -> Result<
    Option<PathUpdateModel>,
    CodecError,
> {
    if !row_selected(sp, row) {
        Ok(None)
    } else {
        match decoded(row.libtorrent_resume_data) {
            Err(e) => Err(e),
            Ok(m) => Ok(
                Some(
                    PathUpdateModel {
                        id: row.id,
                        torrent_id: row.torrent_id,
                        target_save_path: sp.target_after(row.target_save_path->0),
                        save_path: sp.save_path_after(m.save_path),
                        libtorrent_resume_data: encoded(record_after(sp, m)),
                    },
                ),
            ),
        }
    }
}

/// What a save path rewrite does with a list of rows: the updates of the
/// selected rows in the order of the rows, or the first row whose blob does
/// not decode.
pub open spec fn path_plans(sp: SavePath, rows: Seq<FetchedPathModel>) -> Result<
    Seq<PathUpdateModel>,
    RowFailureModel,
>
    decreases rows.len(),
{
    if rows.len() == 0 {
        Ok(Seq::empty())
    } else {
        match path_plans(sp, rows.drop_last()) {
            Err(f) => Err(f),
            Ok(updates) => match path_plan(sp, rows.last()) {
                Err(e) => Err(
                    RowFailureModel {
                        index: rows.len() - 1,
                        id: rows.last().id,
                        torrent_id: rows.last().torrent_id,
                        error: e,
                    },
                ),
                Ok(None) => Ok(updates),
                Ok(Some(u)) => Ok(updates.push(u)),
            },
        }
    }
}

impl SavePath {
    /// Rewrites the save path of a decoded record in place.
    pub fn rewrite_record(&self, rec: &mut FastresumeData)
        ensures
            final(rec)@ == record_after(*self, old(rec)@),
    {
        rec.save_path = self.rewrite_save_path(rec.save_path.as_str());
    }

    /// Computes what is written back for one row, if anything.
    ///
    /// The blob of the update decodes to the record of the row with the new
    /// save path.
    pub fn rewrite_row(&self, row: &FetchedPathData) -> (r: Result<Option<PathUpdate>, CodecError>)
        ensures
            match path_plan(*self, row@) {
                Ok(Some(u)) => r matches Ok(Some(x)) && x@ == u && decoded(
                    x.libtorrent_resume_data@,
                ) == Ok::<FastresumeModel, CodecError>(
                    record_after(*self, decoded(row.libtorrent_resume_data@)->Ok_0),
                ),
                Ok(None) => r matches Ok(None),
                Err(e) => r matches Err(x) && x == e,
            },
    {
        reveal(path_plan);
        let target = match &row.target_save_path {
            Some(t) => t,
            None => {
                return Ok(None);
            },
        };
        if !self.is_candidate(target.as_str()) {
            return Ok(None);
        }
        let target_save_path = self.rewrite_target(target.as_str());
        let mut rec = decode(row.libtorrent_resume_data.as_slice())?;
        self.rewrite_record(&mut rec);
        let libtorrent_resume_data = encode(&rec)?;
        Ok(
            Some(
                PathUpdate {
                    id: row.id,
                    torrent_id: row.torrent_id.clone(),
                    target_save_path,
                    save_path: rec.save_path,
                    libtorrent_resume_data,
                },
            ),
        )
    }
}

/// Computes the updates of a save path rewrite over the given rows.
///
/// Nothing is returned for a row that is not selected. The first row whose
/// blob does not decode ends the run with that row's failure, and no update
/// is returned at all.
pub fn change_save_path(rows: &Vec<FetchedPathData>, save_path: &SavePath) -> (r: Result<
    Vec<PathUpdate>,
    RowFailure,
>)
    ensures
        match path_plans(*save_path, path_rows_view(rows@)) {
            Ok(updates) => r matches Ok(x) && path_updates_view(x@) == updates,
            Err(f) => r matches Err(x) && x@ == f,
        },
        r matches Ok(x) ==> x.len() <= rows.len(),
{
    proof {
        lemma_no_more_updates_than_rows(*save_path, path_rows_view(rows@));
    }
    let mut updates: Vec<PathUpdate> = Vec::new();
    let mut i: usize = 0;
    assert(path_updates_view(updates@) =~= Seq::<PathUpdateModel>::empty());
    assert(path_rows_view(rows@).take(0).len() == 0);
    while i < rows.len()
        invariant
            i <= rows.len(),
            path_plans(*save_path, path_rows_view(rows@).take(i as int)) == Ok::<
                Seq<PathUpdateModel>,
                RowFailureModel,
            >(path_updates_view(updates@)),
        decreases rows.len() - i,
    {
        proof {
            lemma_path_plans_step(*save_path, path_rows_view(rows@), i as int);
        }
        match save_path.rewrite_row(&rows[i]) {
            Ok(None) => {},
            Ok(Some(u)) => {
                assert(path_updates_view(updates@.push(u)) == path_updates_view(updates@).push(
                    u@,
                ));
                updates.push(u);
            },
            Err(e) => {
                proof {
                    lemma_path_failure_stays(*save_path, path_rows_view(rows@), i + 1);
                }
                return Err(
                    RowFailure {
                        index: i,
                        id: rows[i].id,
                        torrent_id: rows[i].torrent_id.clone(),
                        error: e,
                    },
                );
            },
        }
        i = i + 1;
    }
    assert(path_rows_view(rows@).take(rows.len() as int) == path_rows_view(rows@));
    Ok(updates)
}

/// The plans of the first `i + 1` rows, from those of the first `i` and the
/// plan of the row at `i`.
pub proof fn lemma_path_plans_step(sp: SavePath, rows: Seq<FetchedPathModel>, i: int)
    requires
        0 <= i < rows.len(),
    ensures
        path_plans(sp, rows.take(i + 1)) == (match path_plans(sp, rows.take(i)) {
            Err(f) => Err(f),
            Ok(updates) => match path_plan(sp, rows[i]) {
                Err(e) => Err(
                    RowFailureModel {
                        index: i,
                        id: rows[i].id,
                        torrent_id: rows[i].torrent_id,
                        error: e,
                    },
                ),
                Ok(None) => Ok(updates),
                Ok(Some(u)) => Ok(updates.push(u)),
            },
        }),
{
    assert(rows.take(i + 1).drop_last() == rows.take(i));
    assert(rows.take(i + 1).last() == rows[i]);
}

/// A run plans at most one update for each row.
pub proof fn lemma_no_more_updates_than_rows(sp: SavePath, rows: Seq<FetchedPathModel>)
    ensures
        path_plans(sp, rows) matches Ok(updates) ==> updates.len() <= rows.len(),
    decreases rows.len(),
{
    if rows.len() > 0 {
        lemma_no_more_updates_than_rows(sp, rows.drop_last());
    }
}

/// A failure among the first `n` rows is the failure of the whole list.
pub proof fn lemma_path_failure_stays(sp: SavePath, rows: Seq<FetchedPathModel>, n: int)
    requires
        0 <= n <= rows.len(),
        path_plans(sp, rows.take(n)) is Err,
    ensures
        path_plans(sp, rows) == path_plans(sp, rows.take(n)),
    decreases rows.len() - n,
{
    if n < rows.len() {
        assert(rows.take(n + 1).drop_last() == rows.take(n));
        lemma_path_failure_stays(sp, rows, n + 1);
    } else {
        assert(rows.take(n) == rows);
    }
}

/// The old path occurs in `path` at exactly the places where its
/// forward-slash form occurs in the forward-slash form of `path`.
pub open spec fn same_occurrences(path: Seq<char>, old: Seq<char>) -> bool {
    forall|i: int| occurs_at(path, old, i) <==> occurs_at(unix_form(path), unix_form(old), i)
}

/// No separator of `path` is a slash where one of `old` is a backslash, nor
/// the other way round.
pub open spec fn one_style(path: Seq<char>, old: Seq<char>) -> bool {
    &&& !(path.contains('/') && old.contains('\\'))
    &&& !(path.contains('\\') && old.contains('/'))
}

/// The forward-slash form of a replacement is the replacement made on the
/// forward-slash forms, where the pattern occurs at the same places in both.
pub proof fn lemma_unix_form_of_replacement(path: Seq<char>, old: Seq<char>, new: Seq<char>)
    requires
        same_occurrences(path, old),
    ensures
        unix_form(replace_all(path, old, new)) == replace_all(
            unix_form(path),
            unix_form(old),
            unix_form(new),
        ),
    decreases path.len(),
{
    let up = unix_form(path);
    let uo = unix_form(old);
    let un = unix_form(new);
    if old.len() == 0 {
        if path.len() > 0 {
            let rest = path.skip(1);
            assert(same_occurrences(rest, old)) by {
                assert forall|i: int|
                    occurs_at(rest, old, i) <==> occurs_at(unix_form(rest), uo, i) by {
                    assert(rest.subrange(i, i + 0) =~= old || !(0 <= i <= rest.len()));
                    assert(unix_form(rest).subrange(i, i + 0) =~= uo || !(0 <= i <= rest.len()));
                }
            }
            lemma_unix_form_of_replacement(rest, old, new);
            assert(unix_form(rest) =~= up.skip(1));
            assert(unix_form(new + seq![path[0]] + replace_all(rest, old, new)) =~= un + seq![
                up[0],
            ] + unix_form(replace_all(rest, old, new)));
        }
    } else if path.len() < old.len() {
    } else {
        assert(occurs_at(path, old, 0) <==> occurs_at(up, uo, 0));
        if occurs_at(path, old, 0) {
            let k = old.len() as int;
            let rest = path.skip(k);
            assert(unix_form(rest) =~= up.skip(k));
            assert(same_occurrences(rest, old)) by {
                assert forall|i: int|
                    occurs_at(rest, old, i) <==> occurs_at(unix_form(rest), uo, i) by {
                    if 0 <= i {
                        lemma_occurs_in_suffix(path, old, k, i);
                        lemma_occurs_in_suffix(up, uo, k, i);
                    }
                }
            }
            lemma_unix_form_of_replacement(rest, old, new);
            assert(unix_form(new + replace_all(rest, old, new)) =~= un + unix_form(
                replace_all(rest, old, new),
            ));
        } else {
            let rest = path.skip(1);
            assert(unix_form(rest) =~= up.skip(1));
            assert(same_occurrences(rest, old)) by {
                assert forall|i: int|
                    occurs_at(rest, old, i) <==> occurs_at(unix_form(rest), uo, i) by {
                    if 0 <= i {
                        lemma_occurs_in_suffix(path, old, 1, i);
                        lemma_occurs_in_suffix(up, uo, 1, i);
                    }
                }
            }
            lemma_unix_form_of_replacement(rest, old, new);
            assert(unix_form(seq![path[0]] + replace_all(rest, old, new)) =~= seq![up[0]]
                + unix_form(replace_all(rest, old, new)));
        }
    }
}

/// The separator pass changes nothing in the forward-slash form of a path.
pub proof fn lemma_separator_pass_keeps_unix_form(path: Seq<char>, separator: Seq<char>)
    requires
        separator == seq!['/'] || separator == seq!['\\'],
    ensures
        unix_form(with_separator(path, separator)) == unix_form(path),
{
    if separator == seq!['\\'] {
        lemma_replace_one_char(path, '/', '\\');
        assert(unix_form(swap_char(path, '/', '\\')) =~= unix_form(path));
    } else {
        assert(seq!['/'] != seq!['\\']) by {
            assert(seq!['/'][0] == '/');
            assert(seq!['\\'][0] == '\\');
        }
        lemma_replace_one_char(path, '\\', '/');
        assert(unix_form(swap_char(path, '\\', '/')) =~= unix_form(path));
    }
}

/// A path and an old path that do not mix the two separators against each
/// other have the old path at the same places in both forms.
pub proof fn lemma_one_style_same_occurrences(path: Seq<char>, old: Seq<char>)
    requires
        one_style(path, old),
    ensures
        same_occurrences(path, old),
{
    let up = unix_form(path);
    let uo = unix_form(old);
    assert forall|i: int| occurs_at(path, old, i) <==> occurs_at(up, uo, i) by {
        if 0 <= i && i + old.len() <= path.len() {
            let a = path.subrange(i, i + old.len());
            let b = up.subrange(i, i + old.len());
            if a == old {
                assert(b =~= uo);
            }
            if b == uo {
                assert forall|k: int| 0 <= k < old.len() implies a[k] == old[k] by {
                    assert(b[k] == uo[k]);
                    assert(path.contains(path[i + k]));
                    assert(old.contains(old[k]));
                }
                assert(a =~= old);
            }
        }
    }
}

/// After a save path rewrite the column and the record name the same path.
///
/// Let the record's save path, in forward-slash form, be what the column
/// held before the rewrite, and let the old path occur in it at the same
/// places in both forms. Then the rewritten save path, in forward-slash
/// form, is the rewritten column, and the rewritten column is in
/// forward-slash form itself.
pub proof fn lemma_rewrite_keeps_paths_consistent(
    sp: SavePath,
    target_save_path: Seq<char>,
    save_path: Seq<char>,
)
    requires
        sp.well_formed(),
        unix_form(save_path) == target_save_path,
        same_occurrences(save_path, sp.old@),
    ensures
        unix_form(sp.save_path_after(save_path)) == sp.target_after(target_save_path),
        unix_form(sp.target_after(target_save_path)) == sp.target_after(target_save_path),
{
    let replaced = replace_all(save_path, sp.old@, sp.new@);
    lemma_unix_form_of_replacement(save_path, sp.old@, sp.new@);
    lemma_separator_pass_keeps_unix_form(replaced, sp.separator@);
    assert(unix_form(unix_form(replaced)) =~= unix_form(replaced));
}

/// An update keeps column and record consistent: where the record's save
/// path named the path of the column before, with the old path at the same
/// places in both forms, the new save path names the path of the new column.
pub proof fn lemma_update_is_consistent(sp: SavePath, row: FetchedPathModel)
    requires
        sp.well_formed(),
        path_plan(sp, row) matches Ok(Some(_)),
        unix_form(decoded(row.libtorrent_resume_data)->Ok_0.save_path) == row.target_save_path->0,
        same_occurrences(decoded(row.libtorrent_resume_data)->Ok_0.save_path, sp.old@),
    ensures
        path_plan(sp, row) matches Ok(Some(u)) && unix_form(u.save_path) == u.target_save_path,
{
    reveal(path_plan);
    lemma_rewrite_keeps_paths_consistent(
        sp,
        row.target_save_path->0,
        decoded(row.libtorrent_resume_data)->Ok_0.save_path,
    );
}

/// The row as the store holds it after a run: with the new column value and
/// the new blob where the run updated it, as it was where it did not.
pub open spec fn row_after(sp: SavePath, row: FetchedPathModel) -> FetchedPathModel {
    match path_plan(sp, row) {
        Ok(Some(u)) => FetchedPathModel {
            target_save_path: Some(u.target_save_path),
            libtorrent_resume_data: u.libtorrent_resume_data,
            ..row
        },
        _ => row,
    }
}

/// The rows as the store holds them after a run.
pub open spec fn rows_after(sp: SavePath, rows: Seq<FetchedPathModel>) -> Seq<FetchedPathModel> {
    Seq::new(rows.len(), |i: int| row_after(sp, rows[i]))
}

/// Rows of which none is selected get no update.
pub proof fn lemma_nothing_selected_nothing_planned(sp: SavePath, rows: Seq<FetchedPathModel>)
    requires
        forall|i: int| 0 <= i < rows.len() ==> !row_selected(sp, #[trigger] rows[i]),
    ensures
        path_plans(sp, rows) == Ok::<Seq<PathUpdateModel>, RowFailureModel>(Seq::empty()),
    decreases rows.len(),
{
    reveal(path_plan);
    if rows.len() > 0 {
        assert forall|i: int| 0 <= i < rows.drop_last().len() implies !row_selected(
            sp,
            #[trigger] rows.drop_last()[i],
        ) by {
            assert(rows.drop_last()[i] == rows[i]);
        }
        lemma_nothing_selected_nothing_planned(sp, rows.drop_last());
        assert(!row_selected(sp, rows[rows.len() - 1]));
    }
}

/// Where the plans of a list of rows are in order, so is the plan of each
/// row.
pub proof fn lemma_plans_in_order(sp: SavePath, rows: Seq<FetchedPathModel>, i: int)
    requires
        path_plans(sp, rows) is Ok,
        0 <= i < rows.len(),
    ensures
        path_plan(sp, rows[i]) is Ok,
    decreases rows.len(),
{
    if i < rows.len() - 1 {
        lemma_plans_in_order(sp, rows.drop_last(), i);
    }
}

/// A row that the run rewrote so that the old path is gone from its column,
/// or that the run did not select, is not selected afterwards, and a second
/// run leaves it as it is.
pub proof fn lemma_row_settles(sp: SavePath, row: FetchedPathModel)
    requires
        path_plan(sp, row) is Ok,
        row_selected(sp, row) ==> !sp.selects(sp.target_after(row.target_save_path->0)),
    ensures
        !row_selected(sp, row_after(sp, row)),
        path_plan(sp, row_after(sp, row)) == Ok::<Option<PathUpdateModel>, CodecError>(None),
        row_after(sp, row_after(sp, row)) == row_after(sp, row),
{
    reveal(path_plan);
}

/// Running the same rewrite a second time changes nothing, where the first
/// run went through and left the old path in no column that it rewrote: the
/// second run selects no row, plans no update, and leaves every row as the
/// first run left it.
pub proof fn lemma_second_run_changes_nothing(sp: SavePath, rows: Seq<FetchedPathModel>)
    requires
        path_plans(sp, rows) is Ok,
        forall|i: int|
            0 <= i < rows.len() && row_selected(sp, #[trigger] rows[i]) ==> !sp.selects(
                sp.target_after(rows[i].target_save_path->0),
            ),
    ensures
        forall|i: int|
            0 <= i < rows.len() ==> !row_selected(sp, #[trigger] rows_after(sp, rows)[i]),
        path_plans(sp, rows_after(sp, rows)) == Ok::<Seq<PathUpdateModel>, RowFailureModel>(
            Seq::empty(),
        ),
        rows_after(sp, rows_after(sp, rows)) == rows_after(sp, rows),
{
    let first = rows_after(sp, rows);
    assert forall|i: int| 0 <= i < first.len() implies !row_selected(sp, #[trigger] first[i])
        && row_after(sp, first[i]) == first[i] by {
        lemma_plans_in_order(sp, rows, i);
        lemma_row_settles(sp, rows[i]);
    }
    lemma_nothing_selected_nothing_planned(sp, first);
    assert(rows_after(sp, first) =~= first);
}

} // verus!
