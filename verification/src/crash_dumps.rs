//! The game's crash dumps: which files are dumps, their listing newest first, their
//! summary, and the errors met while reading them.
use vstd::prelude::*;

use crate::error::Error;
use crate::order::{
    insert_pos, lemma_insert_pos, lemma_insert_sorted, lemma_opt_le_total, lemma_opt_le_transitive,
    lemma_stable_sort_push, opt_le, opt_str_le, opt_view, sorted_by_le, stable_sort, total_preorder,
};
use crate::paths::DirEntryInfo;
use crate::text::{concat, contains, ends_with, seq_contains, seq_ends_with, to_lowercase, unicode_lowercase};

verus! {

broadcast use vstd::seq_lib::group_to_multiset_ensures;

/// One crash dump of the game.
#[derive(Clone, Debug)]
pub struct CrashDumpFile {
    pub name: String,
    pub path: String,
    pub size: u64,
    pub modified: Option<String>,
}

/// The crash dumps directory and its dumps.
#[derive(Clone, Debug)]
pub struct CrashDumpInfo {
    pub path: String,
    pub exists: bool,
    pub files: Vec<CrashDumpFile>,
    pub total_count: usize,
    pub total_size: u64,
}

/// The view of a dump: name, path, size and modification text.
pub type DumpView = (Seq<char>, Seq<char>, u64, Option<Seq<char>>);

/// The view of a dump.
pub open spec fn dump_view(f: CrashDumpFile) -> DumpView {
    (f.name@, f.path@, f.size, opt_view(f.modified))
}

/// The views of dumps.
pub open spec fn dump_views(fs: Seq<CrashDumpFile>) -> Seq<DumpView> {
    fs.map_values(|f: CrashDumpFile| dump_view(f))
}

/// What `chrono` prints for the UTC time `secs` seconds and `nanos` nanoseconds after
/// the epoch in the form `%Y-%m-%d %H:%M:%S`, or `None` when it cannot represent that time.
pub uninterp spec fn utc_timestamp_text(secs: int, nanos: int) -> Option<Seq<char>>;

/// `chrono::DateTime::<Utc>::from_timestamp` followed by `format("%Y-%m-%d %H:%M:%S")`.
/// The contract names the printed time (calendar arithmetic is not restated here) and
/// says only that it is a function of the two numbers.
#[verifier::external_body]
fn format_utc_timestamp(secs: i64, nanos: u32) -> (r: Option<String>)
    ensures
        opt_view(r) == utc_timestamp_text(secs as int, nanos as int),
{
    let t = chrono::DateTime::<chrono::Utc>::from_timestamp(secs, nanos)?;
    Some(t.format("%Y-%m-%d %H:%M:%S").to_string())
}

/// The modification text of a dump modified at `modified`, if known.
pub open spec fn modified_text(modified: Option<(i64, u32)>) -> Option<Seq<char>> {
    match modified {
        Some((s, n)) => utc_timestamp_text(s as int, n as int),
        None => None,
    }
}

/// The text shown for a dump's modification time.
pub fn modified_time_text(modified: Option<(i64, u32)>) -> (r: Option<String>)
    ensures
        opt_view(r) == modified_text(modified),
{
    match modified {
        Some((s, n)) => format_utc_timestamp(s, n),
        None => None,
    }
}

/// Whether a file name is one of the game's crash dumps: lower-cased, it holds
/// `deadlock` and ends with `.mdmp`.
pub open spec fn is_dump_name(name: Seq<char>) -> bool {
    seq_contains(unicode_lowercase(name), "deadlock"@) && seq_ends_with(
        unicode_lowercase(name),
        ".mdmp"@,
    )
}

/// Whether a file name is one of the game's crash dumps.
pub fn is_deadlock_crash_dump(name: &str) -> (r: bool)
    ensures
        r == is_dump_name(name@),
{
    let lower = to_lowercase(name);
    contains(lower.as_str(), "deadlock") && ends_with(lower.as_str(), ".mdmp")
}

/// The dumps among the listed entries, in listing order: files with a dump's name,
/// with size 0 when it could not be read.
pub open spec fn listed_dumps(es: Seq<DirEntryInfo>) -> Seq<DumpView>
    decreases es.len(),
{
    if es.len() == 0 {
        Seq::empty()
    } else if es.last().is_file && is_dump_name(es.last().name@) {
        listed_dumps(es.drop_last()).push(
            (
                es.last().name@,
                es.last().path@,
                match es.last().size {
                    Some(n) => n,
                    None => 0u64,
                },
                modified_text(es.last().modified),
            ),
        )
    } else {
        listed_dumps(es.drop_last())
    }
}

/// Dumps ordered newest first (those without a time last).
pub open spec fn newest_first() -> spec_fn(CrashDumpFile, CrashDumpFile) -> bool {
    |a: CrashDumpFile, b: CrashDumpFile| opt_le(opt_view(b.modified), opt_view(a.modified))
}

/// Views of dumps ordered newest first, as [`newest_first`] orders the dumps.
pub open spec fn newest_first_view() -> spec_fn(DumpView, DumpView) -> bool {
    |a: DumpView, b: DumpView| opt_le(b.3, a.3)
}

proof fn lemma_newest_first_preorder()
    ensures
        total_preorder(newest_first()),
{
    assert forall|a: CrashDumpFile, b: CrashDumpFile|
        #[trigger] newest_first()(a, b) || newest_first()(b, a) by {
        lemma_opt_le_total(opt_view(a.modified), opt_view(b.modified));
    }
    assert forall|a: CrashDumpFile, b: CrashDumpFile, c: CrashDumpFile|
        #[trigger] newest_first()(a, b) && #[trigger] newest_first()(b, c) implies newest_first()(
        a,
        c,
    ) by {
        lemma_opt_le_transitive(opt_view(c.modified), opt_view(b.modified), opt_view(a.modified));
    }
}

/// Inserts `x` after the dumps no older than it.
fn insert_newest_first(files: &mut Vec<CrashDumpFile>, x: CrashDumpFile)
    requires
        sorted_by_le(old(files)@, newest_first()),
    ensures
        sorted_by_le(final(files)@, newest_first()),
        dump_views(final(files)@).to_multiset() == dump_views(old(files)@).to_multiset().insert(
            dump_view(x),
        ),
        dump_views(final(files)@) == dump_views(old(files)@).insert(
            insert_pos(dump_views(old(files)@), dump_view(x), newest_first_view()),
            dump_view(x),
        ),
{
    let mut p: usize = 0;
    while p < files.len() && opt_str_le(&x.modified, &files[p].modified)
        invariant
            p <= files@.len(),
            forall|k: int| 0 <= k < p ==> newest_first()(#[trigger] files@[k], x),
        decreases files@.len() - p,
    {
        p = p + 1;
    }
    proof {
        lemma_newest_first_preorder();
        lemma_insert_sorted(files@, x, p as int, newest_first());
        let vs = dump_views(files@);
        assert forall|k: int| 0 <= k < p implies newest_first_view()(#[trigger] vs[k], dump_view(x)) by {
            assert(newest_first()(files@[k], x));
        }
        if p < files@.len() {
            assert(vs[p as int] == dump_view(files@[p as int]));
        }
        lemma_insert_pos(vs, dump_view(x), p as int, newest_first_view());
        assert(dump_views(files@.insert(p as int, x)) =~= dump_views(files@).insert(
            p as int,
            dump_view(x),
        ));
        vstd::seq_lib::to_multiset_insert(dump_views(files@), p as int, dump_view(x));
    }
    files.insert(p, x);
}

proof fn lemma_listed_step(es: Seq<DirEntryInfo>, i: int)
    requires
        0 <= i < es.len(),
    ensures
        listed_dumps(es.take(i + 1)) == if es[i].is_file && is_dump_name(es[i].name@) {
            listed_dumps(es.take(i)).push(
                (
                    es[i].name@,
                    es[i].path@,
                    match es[i].size {
                        Some(n) => n,
                        None => 0u64,
                    },
                    modified_text(es[i].modified),
                ),
            )
        } else {
            listed_dumps(es.take(i))
        },
{
    let t = es.take(i + 1);
    assert(t.drop_last() =~= es.take(i));
    assert(t.last() == es[i]);
}

/// The game's crash dumps among a directory's entries (see [`listed_dumps`]), newest
/// first; dumps of equal time keep their listing order.
pub fn find_deadlock_crash_dumps(entries: &Vec<DirEntryInfo>) -> (r: Vec<CrashDumpFile>)
    ensures
        dump_views(r@) == stable_sort(listed_dumps(entries@), newest_first_view()),
        dump_views(r@).to_multiset() == listed_dumps(entries@).to_multiset(),
        sorted_by_le(r@, newest_first()),
{
    let mut files: Vec<CrashDumpFile> = Vec::new();
    let mut i: usize = 0;
    assert(entries@.take(0) =~= Seq::<DirEntryInfo>::empty());
    assert(dump_views(files@) =~= Seq::<DumpView>::empty());
    while i < entries.len()
        invariant
            i <= entries@.len(),
            dump_views(files@) == stable_sort(listed_dumps(entries@.take(i as int)), newest_first_view()),
            dump_views(files@).to_multiset() == listed_dumps(entries@.take(i as int)).to_multiset(),
            sorted_by_le(files@, newest_first()),
        decreases entries@.len() - i,
    {
        let e = &entries[i];
        proof {
            lemma_listed_step(entries@, i as int);
        }
        if e.is_file && is_deadlock_crash_dump(e.name.as_str()) {
            let size: u64 = match e.size {
                Some(n) => n,
                None => 0,
            };
            let modified = modified_time_text(e.modified);
            let f = CrashDumpFile { name: e.name.clone(), path: e.path.clone(), size, modified };
            insert_newest_first(&mut files, f);
            proof {
                lemma_stable_sort_push(listed_dumps(entries@.take(i as int)), dump_view(f), newest_first_view());
                vstd::seq_lib::to_multiset_build(listed_dumps(entries@.take(i as int)), dump_view(f));
            }
        }
        i = i + 1;
    }
    assert(entries@.take(entries@.len() as int) =~= entries@);
    files
}

/// The total size of dumps.
pub open spec fn dump_sizes_sum(fs: Seq<DumpView>) -> int
    decreases fs.len(),
{
    if fs.len() == 0 {
        0
    } else {
        dump_sizes_sum(fs.drop_last()) + fs.last().2
    }
}

proof fn lemma_sum_of_insert(s: Seq<DumpView>, p: int, x: DumpView)
    requires
        0 <= p <= s.len(),
    ensures
        dump_sizes_sum(s.insert(p, x)) == dump_sizes_sum(s) + x.2,
    decreases s.len(),
{
    if p == s.len() {
        assert(s.insert(p, x) =~= s.push(x));
        assert(s.push(x).drop_last() =~= s);
    } else {
        lemma_sum_of_insert(s.drop_last(), p, x);
        assert(s.insert(p, x).drop_last() =~= s.drop_last().insert(p, x));
        assert(s.insert(p, x).last() == s.last());
    }
}

/// Equal multisets of dumps have equal total size.
proof fn lemma_sum_of_permutation(a: Seq<DumpView>, b: Seq<DumpView>)
    requires
        a.to_multiset() == b.to_multiset(),
    ensures
        dump_sizes_sum(a) == dump_sizes_sum(b),
    decreases a.len(),
{
    broadcast use vstd::seq_lib::group_seq_properties;
    if a.len() == 0 {
        vstd::seq_lib::to_multiset_len(a);
        vstd::seq_lib::to_multiset_len(b);
        assert(b.len() == 0);
    } else {
        let x = a.last();
        assert(a.to_multiset().contains(x)) by {
            assert(a.contains(x)) by {
                assert(a[a.len() - 1] == x);
            }
        }
        assert(b.contains(x));
        let j = choose|j: int| 0 <= j < b.len() && b[j] == x;
        let b2 = b.remove(j);
        vstd::seq_lib::to_multiset_remove(b, j);
        assert(a.drop_last().to_multiset() =~= a.to_multiset().remove(x)) by {
            assert(a =~= a.drop_last().push(x));
            vstd::seq_lib::to_multiset_build(a.drop_last(), x);
        }
        lemma_sum_of_permutation(a.drop_last(), b2);
        assert(b2.insert(j, x) =~= b);
        lemma_sum_of_insert(b2, j, x);
    }
}

/// The total size of dumps, which fits in a `u64`.
fn total_dump_size(files: &Vec<CrashDumpFile>) -> (r: u64)
    requires
        dump_sizes_sum(dump_views(files@)) <= u64::MAX,
    ensures
        r == dump_sizes_sum(dump_views(files@)),
{
    let mut total: u64 = 0;
    let mut i: usize = 0;
    assert(dump_views(files@).take(0) =~= Seq::<DumpView>::empty());
    while i < files.len()
        invariant
            i <= files@.len(),
            total == dump_sizes_sum(dump_views(files@).take(i as int)),
            dump_sizes_sum(dump_views(files@)) <= u64::MAX,
        decreases files@.len() - i,
    {
        proof {
            let v = dump_views(files@);
            assert(v.take(i + 1).drop_last() =~= v.take(i as int));
            assert(v.take(i + 1).last() == dump_view(files@[i as int]));
            lemma_dump_prefix(v, i + 1);
        }
        total = total + files[i].size;
        i = i + 1;
    }
    assert(dump_views(files@).take(files@.len() as int) =~= dump_views(files@));
    total
}

proof fn lemma_dump_prefix(s: Seq<DumpView>, i: int)
    requires
        0 <= i <= s.len(),
    ensures
        dump_sizes_sum(s.take(i)) <= dump_sizes_sum(s),
    decreases s.len() - i,
{
    if i < s.len() {
        lemma_dump_prefix(s, i + 1);
        assert(s.take(i + 1).drop_last() =~= s.take(i));
    } else {
        assert(s.take(i) =~= s);
    }
}

/// The summary of the crash dumps directory shown as `path`: whether it exists, its
/// dumps newest first (none when it does not exist), how many, and their total size.
pub fn get_crash_dumps_info(
    path: String,
    exists: bool,
    entries: &Vec<DirEntryInfo>,
) -> (r: CrashDumpInfo)
    requires
        exists ==> dump_sizes_sum(listed_dumps(entries@)) <= u64::MAX,
    ensures
        r.path == path,
        r.exists == exists,
        exists ==> dump_views(r.files@) == stable_sort(listed_dumps(entries@), newest_first_view()),
        exists ==> dump_views(r.files@).to_multiset() == listed_dumps(entries@).to_multiset(),
        !exists ==> r.files@.len() == 0,
        sorted_by_le(r.files@, newest_first()),
        r.total_count == r.files@.len(),
        exists ==> r.total_size == dump_sizes_sum(listed_dumps(entries@)),
        !exists ==> r.total_size == 0,
{
    let files: Vec<CrashDumpFile> = if exists {
        find_deadlock_crash_dumps(entries)
    } else {
        Vec::new()
    };
    proof {
        if exists {
            lemma_sum_of_permutation(dump_views(files@), listed_dumps(entries@));
        } else {
            assert(dump_views(files@) =~= Seq::<DumpView>::empty());
        }
    }
    let total_size = total_dump_size(&files);
    let total_count = files.len();
    CrashDumpInfo { path, exists, files, total_count, total_size }
}

/// The newest dump, or an error when there is none.
pub fn latest_crash_dump(files: &Vec<CrashDumpFile>) -> (r: Result<&CrashDumpFile, Error>)
    ensures
        files@.len() == 0 <==> r is Err,
        r matches Ok(f) ==> *f == files@[0],
        r matches Err(e) ==> e matches Error::InvalidInput(m) && m@ == "No Deadlock crash dumps found"@,
{
    if files.len() == 0 {
        Err(Error::InvalidInput("No Deadlock crash dumps found".to_owned()))
    } else {
        Ok(&files[0])
    }
}

/// The failures met while opening or parsing crash dumps.
#[derive(Clone, Copy, Debug, PartialEq, Eq)]
pub enum DumpFailure {
    /// Opening the dumps folder, which does not exist.
    FolderMissing,
    /// Reading the latest dump, whose folder does not exist.
    DirectoryMissing,
    /// The asked-for dump file does not exist; the detail is its path.
    FileNotFound,
    /// A dump could not be parsed.
    ParseFailed,
    /// The folder for parsed dumps could not be created.
    CreateParsedFolder,
    /// A parsed dump could not be written.
    WriteParsed,
}

/// The message of a dump failure, given its detail.
pub open spec fn dump_failure_message(kind: DumpFailure, detail: Seq<char>) -> Seq<char> {
    match kind {
        DumpFailure::FolderMissing => "Crash dumps directory does not exist. Game may not have crashed yet."@,
        DumpFailure::DirectoryMissing => "Crash dumps directory does not exist"@,
        DumpFailure::FileNotFound => "File not found: "@ + detail,
        DumpFailure::ParseFailed => "Failed to parse crash dump: "@ + detail,
        DumpFailure::CreateParsedFolder => "Failed to create parsed folder: "@ + detail,
        DumpFailure::WriteParsed => "Failed to write parsed output: "@ + detail,
    }
}

/// The error of a dump failure.
pub fn dump_error(kind: DumpFailure, detail: &str) -> (r: Error)
    ensures
        r matches Error::InvalidInput(m) && m@ == dump_failure_message(kind, detail@),
{
    let m = match kind {
        DumpFailure::FolderMissing => {
            "Crash dumps directory does not exist. Game may not have crashed yet.".to_owned()
        },
        DumpFailure::DirectoryMissing => "Crash dumps directory does not exist".to_owned(),
        DumpFailure::FileNotFound => concat("File not found: ", detail),
        DumpFailure::ParseFailed => concat("Failed to parse crash dump: ", detail),
        DumpFailure::CreateParsedFolder => concat("Failed to create parsed folder: ", detail),
        DumpFailure::WriteParsed => concat("Failed to write parsed output: ", detail),
    };
    Error::InvalidInput(m)
}

} // verus!
