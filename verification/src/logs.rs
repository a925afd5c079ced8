//! The application's own log files: which files count, their listing, and the excerpt
//! of logs handed to an assistant.
use vstd::prelude::*;

use crate::error::Error;
use crate::order::{
    insert_pos, lemma_insert_pos, lemma_insert_sorted, lemma_seq_le_total, lemma_seq_le_transitive,
    lemma_stable_sort_push, seq_le, sorted_by_le, stable_sort, str_le, total_preorder,
};
use crate::paths::DirEntryInfo;
use crate::text::{
    concat, concat3, ends_with, lemma_utf8_len_concat, lines, lines_of, seq_ends_with,
    seq_starts_with, starts_with, str_eq, take_chars, utf8_len, utf8_len_upto, views,
};

verus! {

broadcast use vstd::seq_lib::group_to_multiset_ensures;

/// The name of the application's main log file.
pub open spec fn main_log_name() -> Seq<char> {
    "deadlock-mod-manager.log"@
}

/// One log file of the application.
#[derive(Clone, Debug)]
pub struct LogFileInfo {
    pub name: String,
    pub path: String,
    pub size: u64,
}

/// The application's log directory and its log files.
#[derive(Clone, Debug)]
pub struct LogInfo {
    pub log_dir: String,
    pub files: Vec<LogFileInfo>,
    pub total_size: u64,
}

/// Whether a file name is one of the application's logs.
pub open spec fn is_app_log_name(n: Seq<char>) -> bool {
    seq_starts_with(n, "deadlock-mod-manager"@) && seq_ends_with(n, ".log"@)
}

/// Whether a listed entry is one of the application's logs: a file with a log's name
/// whose size could be read.
pub open spec fn is_app_log_entry(e: DirEntryInfo) -> bool {
    e.is_file && is_app_log_name(e.name@) && e.size is Some
}

/// The log files among the listed entries, in listing order.
pub open spec fn app_log_files(es: Seq<DirEntryInfo>) -> Seq<LogFileInfo>
    decreases es.len(),
{
    if es.len() == 0 {
        Seq::empty()
    } else if is_app_log_entry(es.last()) {
        app_log_files(es.drop_last()).push(
            LogFileInfo { name: es.last().name, path: es.last().path, size: es.last().size->0 },
        )
    } else {
        app_log_files(es.drop_last())
    }
}

/// The total size of log files.
pub open spec fn log_sizes_sum(fs: Seq<LogFileInfo>) -> int
    decreases fs.len(),
{
    if fs.len() == 0 {
        0
    } else {
        log_sizes_sum(fs.drop_last()) + fs.last().size
    }
}

/// Log files ordered by name.
pub open spec fn by_name() -> spec_fn(LogFileInfo, LogFileInfo) -> bool {
    |a: LogFileInfo, b: LogFileInfo| seq_le(a.name@, b.name@)
}

proof fn lemma_by_name_preorder()
    ensures
        total_preorder(by_name()),
{
    assert forall|a: LogFileInfo, b: LogFileInfo| #[trigger] by_name()(a, b) || by_name()(b, a) by {
        lemma_seq_le_total(a.name@, b.name@);
    }
    assert forall|a: LogFileInfo, b: LogFileInfo, c: LogFileInfo|
        #[trigger] by_name()(a, b) && #[trigger] by_name()(b, c) implies by_name()(a, c) by {
        lemma_seq_le_transitive(a.name@, b.name@, c.name@);
    }
}

proof fn lemma_log_prefix_sum(es: Seq<DirEntryInfo>, i: int)
    requires
        0 <= i <= es.len(),
    ensures
        log_sizes_sum(app_log_files(es.take(i))) <= log_sizes_sum(app_log_files(es)),
    decreases es.len() - i,
{
    if i < es.len() {
        lemma_log_prefix_sum(es, i + 1);
        lemma_app_log_step(es, i);
    } else {
        assert(es.take(i) =~= es);
    }
}

proof fn lemma_app_log_step(es: Seq<DirEntryInfo>, i: int)
    requires
        0 <= i < es.len(),
    ensures
        app_log_files(es.take(i + 1)) == if is_app_log_entry(es[i]) {
            app_log_files(es.take(i)).push(
                LogFileInfo { name: es[i].name, path: es[i].path, size: es[i].size->0 },
            )
        } else {
            app_log_files(es.take(i))
        },
        log_sizes_sum(app_log_files(es.take(i + 1))) == log_sizes_sum(app_log_files(es.take(i)))
            + if is_app_log_entry(es[i]) {
            es[i].size->0 as int
        } else {
            0
        },
{
    let t = es.take(i + 1);
    assert(t.drop_last() =~= es.take(i));
    assert(t.last() == es[i]);
    let f = LogFileInfo { name: es[i].name, path: es[i].path, size: es[i].size->0 };
    assert(app_log_files(es.take(i)).push(f).drop_last() =~= app_log_files(es.take(i)));
}

/// Whether a file name is one of the application's logs.
pub fn is_app_log_file(name: &str) -> (r: bool)
    ensures
        r == is_app_log_name(name@),
{
    starts_with(name, "deadlock-mod-manager") && ends_with(name, ".log")
}

/// Inserts `x` into `files`, sorted by name, after the files of no later name.
fn insert_by_name(files: &mut Vec<LogFileInfo>, x: LogFileInfo)
    requires
        sorted_by_le(old(files)@, by_name()),
    ensures
        sorted_by_le(final(files)@, by_name()),
        final(files)@.to_multiset() == old(files)@.to_multiset().insert(x),
        final(files)@ == old(files)@.insert(insert_pos(old(files)@, x, by_name()), x),
{
    let mut p: usize = 0;
    while p < files.len() && str_le(files[p].name.as_str(), x.name.as_str())
        invariant
            p <= files@.len(),
            forall|k: int| 0 <= k < p ==> by_name()(#[trigger] files@[k], x),
        decreases files@.len() - p,
    {
        p = p + 1;
    }
    proof {
        lemma_by_name_preorder();
        lemma_insert_sorted(files@, x, p as int, by_name());
        lemma_insert_pos(files@, x, p as int, by_name());
        vstd::seq_lib::to_multiset_insert(files@, p as int, x);
    }
    files.insert(p, x);
}

/// The application's log files in `log_dir`, from the directory's listing: the files
/// named `deadlock-mod-manager…` ending in `.log` whose size could be read, ordered by
/// name (files of equal name in listing order), and their total size.
pub fn get_log_info(log_dir: String, entries: Vec<DirEntryInfo>) -> (r: LogInfo)
    requires
        log_sizes_sum(app_log_files(entries@)) <= u64::MAX,
    ensures
        r.log_dir == log_dir,
        r.files@ == stable_sort(app_log_files(entries@), by_name()),
        r.files@.to_multiset() == app_log_files(entries@).to_multiset(),
        sorted_by_le(r.files@, by_name()),
        r.total_size == log_sizes_sum(app_log_files(entries@)),
{
    let mut files: Vec<LogFileInfo> = Vec::new();
    let mut total_size: u64 = 0;
    let mut i: usize = 0;
    assert(entries@.take(0) =~= Seq::<DirEntryInfo>::empty());
    while i < entries.len()
        invariant
            i <= entries@.len(),
            files@ == stable_sort(app_log_files(entries@.take(i as int)), by_name()),
            files@.to_multiset() == app_log_files(entries@.take(i as int)).to_multiset(),
            sorted_by_le(files@, by_name()),
            total_size == log_sizes_sum(app_log_files(entries@.take(i as int))),
            log_sizes_sum(app_log_files(entries@)) <= u64::MAX,
        decreases entries@.len() - i,
    {
        let e = &entries[i];
        proof {
            lemma_app_log_step(entries@, i as int);
            lemma_log_prefix_sum(entries@, i + 1);
        }
        if e.is_file && is_app_log_file(e.name.as_str()) {
            match e.size {
                Some(size) => {
                    let f = LogFileInfo { name: e.name.clone(), path: e.path.clone(), size };
                    total_size = total_size + size;
                    insert_by_name(&mut files, f);
                    proof {
                        lemma_stable_sort_push(app_log_files(entries@.take(i as int)), f, by_name());
                        vstd::seq_lib::to_multiset_build(app_log_files(entries@.take(i as int)), f);
                    }
                },
                None => {},
            }
        }
        i = i + 1;
    }
    assert(entries@.take(entries@.len() as int) =~= entries@);
    LogInfo { log_dir, files, total_size }
}

/// `a` less `b`, or zero (`usize::saturating_sub`).
pub open spec fn sat_sub(a: int, b: int) -> int {
    if a > b {
        a - b
    } else {
        0
    }
}

/// The last lines of a log that fit in `limit` bytes: from the last line backwards,
/// each line with its newline is put in front of `acc` while the whole still fits.
pub open spec fn log_tail(lines: Seq<Seq<char>>, acc: Seq<char>, limit: int) -> Seq<char>
    decreases lines.len(),
{
    if lines.len() == 0 {
        acc
    } else {
        let l = lines.last().push('\n');
        if utf8_len(acc) + utf8_len(l) > limit {
            acc
        } else {
            log_tail(lines.drop_last(), l + acc, limit)
        }
    }
}

/// The heading of the main log's part of an excerpt.
pub open spec fn main_log_header() -> Seq<char> {
    "=== DEADLOCK MOD MANAGER LOG ===\n"@
}

/// The heading of the crash dump's part of an excerpt.
pub open spec fn crash_header(name: Seq<char>) -> Seq<char> {
    "=== CRASH DUMP ("@ + name + ") ===\n"@
}

/// The parts of an excerpt asked for by a log source: `dmm` the main log, `crash` the
/// latest crash dump, `combined` both.
pub open spec fn log_sources_spec(source: Seq<char>) -> (bool, bool) {
    (source == "dmm"@ || source == "combined"@, source == "crash"@ || source == "combined"@)
}

/// The main log's part of an excerpt and the budget left after it.
pub open spec fn main_log_part(
    max_chars: int,
    include_crash: bool,
    content: Seq<char>,
) -> (Seq<char>, int) {
    let remaining = sat_sub(max_chars, utf8_len(main_log_header()));
    let limit = if include_crash {
        remaining / 2
    } else {
        remaining
    };
    let tail = log_tail(lines_of(content), Seq::empty(), limit);
    (main_log_header() + tail + "\n"@, sat_sub(remaining, utf8_len(tail)))
}

/// The crash dump's part of an excerpt, given the budget left.
pub open spec fn crash_part(remaining: int, name: Seq<char>, text: Seq<char>) -> Seq<char> {
    let rem = sat_sub(remaining, utf8_len(crash_header(name)));
    let body = if utf8_len(text) > rem {
        text.take(
            if rem < text.len() {
                rem
            } else {
                text.len() as int
            },
        )
    } else {
        text
    };
    crash_header(name) + body
}

/// The excerpt of logs within a budget of `max_chars` bytes: the main log's last lines
/// (in at most half the budget when a crash dump is asked for too), then the latest
/// crash dump's text cut to what is left of the budget.
pub open spec fn logs_excerpt(
    max_chars: int,
    include_dmm: bool,
    include_crash: bool,
    main_log: Option<Seq<char>>,
    crash: Option<(Seq<char>, Seq<char>)>,
) -> Seq<char> {
    let (first, remaining) = match main_log {
        Some(content) => if include_dmm {
            main_log_part(max_chars, include_crash, content)
        } else {
            (Seq::empty(), max_chars)
        },
        None => (Seq::empty(), max_chars),
    };
    match crash {
        Some((name, text)) => if include_crash {
            first + crash_part(remaining, name, text)
        } else {
            first
        },
        None => first,
    }
}

/// The parts of an excerpt that a log source asks for (see [`log_sources_spec`]).
pub fn log_sources(log_source: &str) -> (r: (bool, bool))
    ensures
        r == log_sources_spec(log_source@),
{
    let dmm = str_eq(log_source, "dmm");
    let crash = str_eq(log_source, "crash");
    let combined = str_eq(log_source, "combined");
    (dmm || combined, crash || combined)
}

/// The last lines of `content` that fit in `limit` bytes (see [`log_tail`]), and their
/// length in bytes.
fn tail_of_log(content: &str, limit: usize) -> (r: (String, usize))
    ensures
        r.0@ == log_tail(lines_of(content@), Seq::empty(), limit as int),
        r.1 == utf8_len(r.0@),
        r.1 <= limit,
{
    let ls = lines(content);
    let mut acc = String::new();
    let mut acc_len: usize = 0;
    let mut i: usize = ls.len();
    assert(views(ls@).take(ls@.len() as int) =~= views(ls@));
    assert(utf8_len(acc@) == 0) by {
        assert(acc@ =~= Seq::<char>::empty());
    }
    while i > 0
        invariant
            i <= ls@.len(),
            log_tail(lines_of(content@), Seq::empty(), limit as int) == log_tail(
                views(ls@).take(i as int),
                acc@,
                limit as int,
            ),
            views(ls@) == lines_of(content@),
            acc_len == utf8_len(acc@),
            acc_len <= limit,
        ensures
            log_tail(lines_of(content@), Seq::empty(), limit as int) == acc@,
            acc_len == utf8_len(acc@),
            acc_len <= limit,
        decreases i,
    {
        let l = concat(ls[i - 1].as_str(), "\n");
        proof {
            let t = views(ls@).take(i as int);
            assert(t.last() == ls@[i - 1]@);
            assert(t.drop_last() =~= views(ls@).take(i - 1));
            reveal_strlit("\n");
            assert(l@ =~= t.last().push('\n'));
        }
        let (l_len, over) = utf8_len_upto(l.as_str(), limit - acc_len);
        if over {
            break;
        }
        proof {
            lemma_utf8_len_concat(l@, acc@);
        }
        acc = concat(l.as_str(), acc.as_str());
        acc_len = acc_len + l_len;
        i = i - 1;
        assert(i == 0 ==> views(ls@).take(i as int) =~= Seq::<Seq<char>>::empty());
    }
    (acc, acc_len)
}

/// `remaining` less the UTF-8 length of `s`, or zero.
fn budget_after(remaining: usize, s: &str) -> (r: usize)
    ensures
        r == sat_sub(remaining as int, utf8_len(s@)),
{
    let (len, over) = utf8_len_upto(s, remaining);
    if over {
        0
    } else {
        remaining - len
    }
}

/// The excerpt of logs handed to an assistant (see [`logs_excerpt`]). `main_log` is the
/// main log's content when it exists and could be read, `latest_crash` the name and
/// parsed text of the latest crash dump when there is one; each is used only when
/// `log_source` asks for it. An error when the excerpt would be empty.
pub fn get_logs_for_ai(
    max_chars: usize,
    log_source: &str,
    main_log: Option<String>,
    latest_crash: Option<(String, String)>,
) -> (r: Result<String, Error>)
    ensures
        ({
            let (dmm, crash) = log_sources_spec(log_source@);
            let text = logs_excerpt(
                max_chars as int,
                dmm,
                crash,
                match main_log {
                    Some(c) => Some(c@),
                    None => None,
                },
                match latest_crash {
                    Some(p) => Some((p.0@, p.1@)),
                    None => None,
                },
            );
            &&& r is Err <==> text.len() == 0
            &&& r matches Ok(s) ==> s@ == text
            &&& r matches Err(e) ==> e matches Error::InvalidInput(m) && m@ == "No log files found"@
        }),
{
    let (include_dmm, include_crash) = log_sources(log_source);
    let ghost main_v = match &main_log {
        Some(c) => Some(c@),
        None => None::<Seq<char>>,
    };
    let mut output = String::new();
    let mut remaining: usize = max_chars;
    if include_dmm {
        match &main_log {
            Some(content) => {
                let header = "=== DEADLOCK MOD MANAGER LOG ===\n";
                output.append(header);
                remaining = budget_after(remaining, header);
                let char_limit: usize = if include_crash {
                    remaining / 2
                } else {
                    remaining
                };
                let (log_content, content_len) = tail_of_log(content.as_str(), char_limit);
                output.append(log_content.as_str());
                remaining = if content_len > remaining {
                    0
                } else {
                    remaining - content_len
                };
                output.append("\n");
            },
            None => {},
        }
    }
    let ghost first = output@;
    let ghost rem1 = remaining as int;
    assert((first, rem1) == match main_v {
        Some(content) => if include_dmm {
            main_log_part(max_chars as int, include_crash, content)
        } else {
            (Seq::<char>::empty(), max_chars as int)
        },
        None => (Seq::<char>::empty(), max_chars as int),
    });
    if include_crash {
        match &latest_crash {
            Some((name, text)) => {
                let header = concat3("=== CRASH DUMP (", name.as_str(), ") ===\n");
                output.append(header.as_str());
                remaining = budget_after(remaining, header.as_str());
                let (_, over) = utf8_len_upto(text.as_str(), remaining);
                if over {
                    let cut = take_chars(text.as_str(), remaining);
                    output.append(cut.as_str());
                } else {
                    output.append(text.as_str());
                }
            },
            None => {},
        }
    }
    if output.as_str().is_empty() {
        return Err(Error::InvalidInput("No log files found".to_owned()));
    }
    Ok(output)
}

/// The failures of locating and opening the log files.
#[derive(Clone, Copy, Debug, PartialEq, Eq)]
pub enum LogFailure {
    /// The log directory could not be determined.
    LogDir,
    /// The log directory could not be created.
    CreateLogDir,
    /// The main log file does not exist.
    NoLogFile,
}

/// The message of a log failure, given its detail.
pub open spec fn log_failure_message(kind: LogFailure, detail: Seq<char>) -> Seq<char> {
    match kind {
        LogFailure::LogDir => "Failed to get log directory: "@ + detail,
        LogFailure::CreateLogDir => "Failed to create log directory: "@ + detail,
        LogFailure::NoLogFile => "No log file found"@,
    }
}

/// The error of a log failure.
pub fn log_error(kind: LogFailure, detail: &str) -> (r: Error)
    ensures
        r matches Error::InvalidInput(m) && m@ == log_failure_message(kind, detail@),
{
    let m = match kind {
        LogFailure::LogDir => concat("Failed to get log directory: ", detail),
        LogFailure::CreateLogDir => concat("Failed to create log directory: ", detail),
        LogFailure::NoLogFile => "No log file found".to_owned(),
    };
    Error::InvalidInput(m)
}

} // verus!
