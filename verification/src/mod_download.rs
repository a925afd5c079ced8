//! The decisions of downloading one mod: the running byte totals over its files, the
//! outcome of its files taken together, and what becomes of each downloaded archive.
use vstd::prelude::*;

use crate::download_manager::{DownloadErrorEvent, DownloadFileDto};
use crate::error::{error_message, Error};
use crate::text::{concat, join, seq_join, views};

verus! {

/// The sum of a sequence of byte counts.
pub open spec fn seq_sum(s: Seq<u64>) -> int
    decreases s.len(),
{
    if s.len() == 0 {
        0
    } else {
        seq_sum(s.drop_last()) + s.last()
    }
}

proof fn lemma_sum_prefix(s: Seq<u64>, i: int)
    requires
        0 <= i <= s.len(),
    ensures
        seq_sum(s.take(i)) <= seq_sum(s),
        i < s.len() ==> seq_sum(s.take(i + 1)) == seq_sum(s.take(i)) + s[i],
    decreases s.len() - i,
{
    if i < s.len() {
        assert(s.take(i + 1).drop_last() =~= s.take(i));
        lemma_sum_prefix(s, i + 1);
    } else {
        assert(s.take(i) =~= s);
    }
}

/// The sum of `v`, which fits in a `u64`.
fn sum_u64(v: &Vec<u64>) -> (r: u64)
    requires
        seq_sum(v@) <= u64::MAX,
    ensures
        r == seq_sum(v@),
{
    let mut total: u64 = 0;
    let mut i: usize = 0;
    assert(v@.take(0) =~= Seq::<u64>::empty());
    while i < v.len()
        invariant
            i <= v@.len(),
            total == seq_sum(v@.take(i as int)),
            seq_sum(v@) <= u64::MAX,
        decreases v@.len() - i,
    {
        proof {
            lemma_sum_prefix(v@, i as int);
            lemma_sum_prefix(v@, i + 1);
        }
        total = total + v[i];
        i = i + 1;
    }
    assert(v@.take(v@.len() as int) =~= v@);
    total
}

/// The sum of `v`, or `None` when it does not fit in a `u64`.
pub fn checked_sum(v: &Vec<u64>) -> (r: Option<u64>)
    ensures
        match r {
            Some(s) => s == seq_sum(v@),
            None => seq_sum(v@) > u64::MAX,
        },
{
    let mut total: u64 = 0;
    let mut i: usize = 0;
    assert(v@.take(0) =~= Seq::<u64>::empty());
    while i < v.len()
        invariant
            i <= v@.len(),
            total == seq_sum(v@.take(i as int)),
        decreases v@.len() - i,
    {
        proof {
            lemma_sum_prefix(v@, i as int);
            lemma_sum_prefix(v@, i + 1);
        }
        match total.checked_add(v[i]) {
            Some(t) => {
                total = t;
            },
            None => {
                return None;
            },
        }
        i = i + 1;
    }
    assert(v@.take(v@.len() as int) =~= v@);
    Some(total)
}

/// The announced sizes of a mod's files.
pub open spec fn file_sizes(files: Seq<DownloadFileDto>) -> Seq<u64> {
    files.map_values(|f: DownloadFileDto| f.size)
}

/// What one file's transfer knows of the whole mod's progress: the bytes it has seen
/// per file (each file's transfer keeps its own tally, starting from zero for all
/// files) and the files' announced sizes.
pub struct ProgressTally {
    file_downloaded: Vec<u64>,
    file_sizes: Vec<u64>,
}

impl ProgressTally {
    /// The bytes counted per file.
    pub closed spec fn downloaded_spec(self) -> Seq<u64> {
        self.file_downloaded@
    }

    /// The announced size per file.
    pub closed spec fn sizes_spec(self) -> Seq<u64> {
        self.file_sizes@
    }

    /// A tally for the files `files`, with nothing counted yet.
    pub fn new(files: &Vec<DownloadFileDto>) -> (r: Self)
        ensures
            r.sizes_spec() == file_sizes(files@),
            r.downloaded_spec() == Seq::new(files@.len(), |i: int| 0u64),
    {
        let mut sizes: Vec<u64> = Vec::new();
        let mut downloaded: Vec<u64> = Vec::new();
        let mut i: usize = 0;
        while i < files.len()
            invariant
                i <= files@.len(),
                sizes@ == file_sizes(files@).take(i as int),
                downloaded@ == Seq::new(i as nat, |j: int| 0u64),
            decreases files@.len() - i,
        {
            sizes.push(files[i].size);
            downloaded.push(0);
            assert(file_sizes(files@).take(i + 1) =~= file_sizes(files@).take(i as int).push(
                files@[i as int].size,
            ));
            assert(downloaded@ =~= Seq::new((i + 1) as nat, |j: int| 0u64));
            i = i + 1;
        }
        assert(file_sizes(files@).take(files@.len() as int) =~= file_sizes(files@));
        ProgressTally { file_downloaded: downloaded, file_sizes: sizes }
    }

    /// The file at `index` reports `downloaded` bytes. Returns the bytes counted over
    /// all files and the announced size of all files.
    pub fn record(&mut self, index: usize, downloaded: u64) -> (r: (u64, u64))
        requires
            index < old(self).downloaded_spec().len(),
            seq_sum(old(self).downloaded_spec().update(index as int, downloaded)) <= u64::MAX,
            seq_sum(old(self).sizes_spec()) <= u64::MAX,
        ensures
            final(self).downloaded_spec() == old(self).downloaded_spec().update(
                index as int,
                downloaded,
            ),
            final(self).sizes_spec() == old(self).sizes_spec(),
            r.0 == seq_sum(final(self).downloaded_spec()),
            r.1 == seq_sum(final(self).sizes_spec()),
    {
        self.file_downloaded.set(index, downloaded);
        let total_downloaded = sum_u64(&self.file_downloaded);
        let total_size = sum_u64(&self.file_sizes);
        (total_downloaded, total_size)
    }

    /// Records a file's report as [`Self::record`] does when the index is valid and the
    /// totals fit in a `u64`; otherwise changes nothing and returns `None`.
    pub fn try_record(&mut self, index: usize, downloaded: u64) -> (r: Option<(u64, u64)>)
        ensures
            ({
                let ok = index < old(self).downloaded_spec().len() && seq_sum(
                    old(self).downloaded_spec().update(index as int, downloaded),
                ) <= u64::MAX && seq_sum(old(self).sizes_spec()) <= u64::MAX;
                &&& ok <==> r is Some
                &&& ok ==> final(self).downloaded_spec() == old(self).downloaded_spec().update(
                    index as int,
                    downloaded,
                )
                &&& !ok ==> final(self).downloaded_spec() == old(self).downloaded_spec()
                &&& final(self).sizes_spec() == old(self).sizes_spec()
                &&& r matches Some(t) ==> t.0 == seq_sum(final(self).downloaded_spec()) && t.1
                    == seq_sum(final(self).sizes_spec())
            }),
    {
        if index >= self.file_downloaded.len() {
            return None;
        }
        let mut updated = self.file_downloaded.clone();
        updated.set(index, downloaded);
        if checked_sum(&updated).is_none() || checked_sum(&self.file_sizes).is_none() {
            return None;
        }
        Some(self.record(index, downloaded))
    }
}

/// The messages of the failed files, in order.
pub open spec fn failure_messages(rs: Seq<Result<String, String>>) -> Seq<Seq<char>>
    decreases rs.len(),
{
    if rs.len() == 0 {
        Seq::empty()
    } else {
        match rs.last() {
            Ok(_) => failure_messages(rs.drop_last()),
            Err(m) => failure_messages(rs.drop_last()).push(m@),
        }
    }
}

/// The paths of the saved files, in order.
pub open spec fn saved_paths(rs: Seq<Result<String, String>>) -> Seq<Seq<char>>
    decreases rs.len(),
{
    if rs.len() == 0 {
        Seq::empty()
    } else {
        match rs.last() {
            Ok(p) => saved_paths(rs.drop_last()).push(p@),
            Err(_) => saved_paths(rs.drop_last()),
        }
    }
}

/// The outcome of a mod's files taken together: their paths when all were saved,
/// otherwise [`Error::DownloadFailed`] with every failure's message joined by `; `.
pub fn collect_file_results(results: Vec<Result<String, String>>) -> (r: Result<
    Vec<String>,
    Error,
>)
    ensures
        r is Err <==> failure_messages(results@).len() > 0,
        r matches Ok(v) ==> views(v@) == saved_paths(results@),
        r matches Err(e) ==> e matches Error::DownloadFailed(m) && m@ == seq_join(
            failure_messages(results@),
            "; "@,
        ),
{
    let mut paths: Vec<String> = Vec::new();
    let mut errors: Vec<String> = Vec::new();
    let mut i: usize = 0;
    assert(results@.take(0) =~= Seq::<Result<String, String>>::empty());
    while i < results.len()
        invariant
            i <= results@.len(),
            views(paths@) == saved_paths(results@.take(i as int)),
            views(errors@) == failure_messages(results@.take(i as int)),
        decreases results@.len() - i,
    {
        let ghost pre = results@.take(i as int);
        assert(results@.take(i + 1).drop_last() =~= pre);
        match &results[i] {
            Ok(p) => {
                let c = p.clone();
                assert(views(paths@.push(c)) =~= views(paths@).push(p@));
                paths.push(c);
            },
            Err(m) => {
                let c = m.clone();
                assert(views(errors@.push(c)) =~= views(errors@).push(m@));
                errors.push(c);
            },
        }
        i = i + 1;
    }
    assert(results@.take(results@.len() as int) =~= results@);
    if errors.len() > 0 {
        Err(Error::DownloadFailed(join(&errors, "; ")))
    } else {
        Ok(paths)
    }
}

/// The error event for a mod whose downloaded files could not be processed.
pub fn processing_failed_event(mod_id: &str, e: &Error) -> (r: DownloadErrorEvent)
    ensures
        r.mod_id@ == mod_id@,
        r.error@ == "Failed to process files: "@ + error_message(*e),
{
    let m = e.message();
    DownloadErrorEvent { mod_id: mod_id.to_owned(), error: concat("Failed to process files: ", m.as_str()) }
}

/// What becomes of an extracted archive.
#[derive(Clone, Copy, Debug, PartialEq, Eq)]
pub enum ArchivePlan {
    /// Copy the files picked in the given file tree, clean up, and end processing.
    CopySelectedAndFinish,
    /// Keep the extracted files for the import to pick from later, and end processing.
    KeepForLaterSelection,
    /// Keep the extracted files, hand the file tree to the user, and end processing.
    OfferFileTree,
    /// Copy every archive file, clean up, and go on with the next downloaded file.
    CopyAllAndContinue,
}

/// The plan for an extracted archive: `multiple_files` is whether the archive's file
/// tree holds several files, or `None` when the tree could not be analysed.
pub open spec fn archive_plan_spec(
    is_profile_import: bool,
    has_file_tree: bool,
    multiple_files: Option<bool>,
) -> ArchivePlan {
    match multiple_files {
        Some(true) => if is_profile_import {
            if has_file_tree {
                ArchivePlan::CopySelectedAndFinish
            } else {
                ArchivePlan::KeepForLaterSelection
            }
        } else {
            ArchivePlan::OfferFileTree
        },
        _ => ArchivePlan::CopyAllAndContinue,
    }
}

/// Decides what becomes of an extracted archive (see [`archive_plan_spec`]).
pub fn plan_extracted_archive(
    is_profile_import: bool,
    has_file_tree: bool,
    multiple_files: Option<bool>,
) -> (r: ArchivePlan)
    ensures
        r == archive_plan_spec(is_profile_import, has_file_tree, multiple_files),
{
    match multiple_files {
        Some(true) => {
            if is_profile_import {
                if has_file_tree {
                    ArchivePlan::CopySelectedAndFinish
                } else {
                    ArchivePlan::KeepForLaterSelection
                }
            } else {
                ArchivePlan::OfferFileTree
            }
        },
        _ => ArchivePlan::CopyAllAndContinue,
    }
}

/// After copying the picked files: an error when none was copied.
pub fn check_selected_copy(copied: usize) -> (r: Result<(), Error>)
    ensures
        copied == 0 <==> r is Err,
        r matches Err(e) ==> e matches Error::InvalidInput(m) && m@
            == "No VPKs matched the file tree selection"@,
{
    if copied == 0 {
        Err(Error::InvalidInput("No VPKs matched the file tree selection".to_owned()))
    } else {
        Ok(())
    }
}

/// The name under which an archive's tree is analysed: its file name, or `unknown`.
pub fn archive_display_name(file_name: Option<String>) -> (r: String)
    ensures
        r@ == match file_name {
            Some(n) => n@,
            None => "unknown"@,
        },
{
    match file_name {
        Some(n) => n,
        None => "unknown".to_owned(),
    }
}

} // verus!
