//! Properties that hold across the library's operations, proved over the same
//! specifications that the operations' contracts use.
use vstd::prelude::*;

use crate::batch::{failed_contains, next_delay, report_of, ModOutcome, ReportView, MAX_RETRY_DELAY_MS};
use crate::crash_dumps::{listed_dumps, newest_first, newest_first_view};
use crate::download_manager::{
    clamp_concurrency, dispatch_count, downloading_status, free_permits, status_of,
    ActiveDownload, MAX_CONCURRENT, MIN_CONCURRENT,
};
use crate::logs::{app_log_files, by_name, log_tail, logs_excerpt, sat_sub};
use crate::text::lines_of;
use crate::mod_download::{archive_plan_spec, ArchivePlan};
use crate::ingest::{running_after_events, WatcherEvent};
use crate::settings::{is_api_url, stored_after_sets, supported_languages};
use crate::order::{
    lemma_opt_le_total, lemma_opt_le_transitive, lemma_seq_le_total, lemma_seq_le_transitive,
    lemma_stable_sort_sorted, opt_le, opt_view, seq_le, sorted_by_le, stable_sort, total_preorder,
};
use crate::paths::{extension_of, last_index_of, lemma_last_index_bounds, stem_of};
use crate::profiles::{
    delete_refusal, folder_char, is_trimmed, profile_prefix, sanitized_name, trim_end, trim_start,
};
use crate::text::{lemma_utf8_len_concat, seq_contains, seq_starts_with, unicode_is_alphanumeric, unicode_lowercase, utf8_len};

verus! {

/// Queued downloads start in the order they were queued, each once: a dispatch starts
/// a front part of the queue and leaves the rest, in order.
pub proof fn law_dispatch_is_fifo<T>(queue: Seq<T>, available: int)
    requires
        available >= 0,
    ensures
        ({
            let k = dispatch_count(available, queue.len() as int);
            &&& 0 <= k <= queue.len()
            &&& queue.take(k) + queue.skip(k) == queue
            &&& forall|i: int| 0 <= i < k ==> #[trigger] queue.take(k)[i] == queue[i]
        }),
{
    let k = dispatch_count(available, queue.len() as int);
    assert(queue.take(k) + queue.skip(k) =~= queue);
}

/// A task queued behind others starts only once all of them have started.
pub proof fn law_later_task_starts_last<T>(queue: Seq<T>, task: T, available: int)
    requires
        available >= 0,
    ensures
        ({
            let q = queue.push(task);
            let started = q.take(dispatch_count(available, q.len() as int));
            started.contains(task) && !queue.contains(task) ==> started == q
        }),
{
    let q = queue.push(task);
    let k = dispatch_count(available, q.len() as int);
    let started = q.take(k);
    if started.contains(task) && !queue.contains(task) {
        let i = choose|i: int| 0 <= i < started.len() && started[i] == task;
        if i < queue.len() {
            assert(queue[i] == q[i]);
        }
        assert(k == q.len());
        assert(started =~= q);
    }
}

/// A dispatch takes no more than the free permits, and stops only when the permits or
/// the queue run out.
pub proof fn law_dispatch_uses_free_permits(available: int, queued: int)
    requires
        available >= 0,
        queued >= 0,
    ensures
        dispatch_count(available, queued) <= available,
        dispatch_count(available, queued) <= queued,
        dispatch_count(available, queued) == available || dispatch_count(available, queued) == queued,
{
}

/// While as many downloads run as the limit allows, or more (after the limit was
/// lowered), no waiting task starts.
pub proof fn law_lowered_limit_blocks_new_downloads(max: int, running: int, queued: int)
    requires
        running >= max,
        queued >= 0,
    ensures
        dispatch_count(free_permits(max, running) as int, queued) == 0,
{
}

/// A dispatch never lifts the running downloads above the limit.
pub proof fn law_dispatch_respects_limit(max: int, running: int, queued: int)
    requires
        0 <= running <= max,
        queued >= 0,
    ensures
        running + dispatch_count(free_permits(max, running) as int, queued) <= max,
{
}

/// A finished download gives a permit back exactly when fewer downloads than the limit
/// still run; the free and the running together never exceed the limit.
pub proof fn law_release_below_limit(max: int, running: int)
    requires
        running > 0,
    ensures
        free_permits(max, running - 1) > free_permits(max, running) <==> running - 1 < max,
        running - 1 < max ==> free_permits(max, running - 1) + (running - 1) == max,
        free_permits(max, running) + running <= max || free_permits(max, running) == 0,
{
}

/// The configured maximum always lies between 1 and 10, and setting it twice to the
/// same value is setting it once.
pub proof fn law_concurrency_is_clamped(n: int)
    ensures
        MIN_CONCURRENT <= clamp_concurrency(n) <= MAX_CONCURRENT,
        clamp_concurrency(clamp_concurrency(n)) == clamp_concurrency(n),
        MIN_CONCURRENT <= n <= MAX_CONCURRENT ==> clamp_concurrency(n) == n,
{
}

/// Raising the limit while no more than the old limit run frees exactly the
/// difference in permits; lowering it frees none.
pub proof fn law_resize_permits(running: int, old_max: int, new_max: int)
    requires
        0 <= running <= old_max,
    ensures
        new_max > old_max ==> free_permits(new_max, running) == free_permits(old_max, running)
            + (new_max - old_max),
        new_max <= old_max ==> free_permits(new_max, running) <= free_permits(old_max, running),
{
}

/// A cancelled or finished download has no status.
pub proof fn law_no_status_after_removal<T, M>(m: Map<Seq<char>, ActiveDownload<T, M>>, id: Seq<char>)
    ensures
        status_of(m.remove(id), id) is None,
{
}

/// A download that was just registered reports the status `downloading`.
pub proof fn law_status_after_register<T, M>(
    m: Map<Seq<char>, ActiveDownload<T, M>>,
    id: Seq<char>,
    v: ActiveDownload<T, M>,
)
    requires
        v.status@ == downloading_status(),
    ensures
        status_of(m.insert(id, v), id) == Some((id, downloading_status(), v.metrics)),
{
}

/// The pause between looks for a mod's installed files grows and never exceeds a second.
pub proof fn law_retry_delay_bounded(delay: int)
    requires
        0 < delay <= MAX_RETRY_DELAY_MS,
    ensures
        delay <= next_delay(delay) <= MAX_RETRY_DELAY_MS,
{
}

/// Every mod of a batch (with distinct ids) ends up reported exactly once: among the
/// succeeded if it was installed, otherwise among the failed.
pub proof fn law_each_mod_reported_once<F>(
    ids: Seq<Seq<char>>,
    outcomes: Seq<ModOutcome<F>>,
    dedupe_missing: bool,
)
    requires
        ids.len() == outcomes.len(),
        forall|i: int, j: int| 0 <= i < ids.len() && 0 <= j < ids.len() && i != j ==> ids[i] != ids[j],
    ensures
        ({
            let r = report_of(ids, outcomes, dedupe_missing);
            &&& r.0.len() + r.1.len() == ids.len()
            &&& r.2.len() == r.0.len()
            &&& forall|i: int|
                0 <= i < ids.len() ==> (r.0.contains(#[trigger] ids[i]) <==> outcomes[i] is Installed)
                    && (failed_contains(r.1, ids[i]) <==> !(outcomes[i] is Installed))
        }),
    decreases ids.len(),
{
    lemma_report_ids(ids, outcomes, dedupe_missing);
}

proof fn lemma_report_ids<F>(ids: Seq<Seq<char>>, outcomes: Seq<ModOutcome<F>>, dedupe_missing: bool)
    requires
        ids.len() == outcomes.len(),
        forall|i: int, j: int| 0 <= i < ids.len() && 0 <= j < ids.len() && i != j ==> ids[i] != ids[j],
    ensures
        ({
            let r = report_of(ids, outcomes, dedupe_missing);
            &&& r.0.len() + r.1.len() == ids.len()
            &&& r.2.len() == r.0.len()
            &&& forall|x: Seq<char>| #[trigger] r.0.contains(x) ==> ids.contains(x)
            &&& forall|k: int| 0 <= k < r.1.len() ==> ids.contains(#[trigger] r.1[k].0)
            &&& forall|i: int|
                0 <= i < ids.len() ==> (r.0.contains(#[trigger] ids[i]) <==> outcomes[i] is Installed)
                    && (failed_contains(r.1, ids[i]) <==> !(outcomes[i] is Installed))
        }),
    decreases ids.len(),
{
    if ids.len() == 0 {
    } else {
        let ids0 = ids.drop_last();
        let os0 = outcomes.drop_last();
        assert forall|i: int, j: int|
            0 <= i < ids0.len() && 0 <= j < ids0.len() && i != j implies ids0[i] != ids0[j] by {
            assert(ids0[i] == ids[i] && ids0[j] == ids[j]);
        }
        lemma_report_ids(ids0, os0, dedupe_missing);
        let r0: ReportView<F> = report_of(ids0, os0, dedupe_missing);
        let id = ids.last();
        let o = outcomes.last();
        assert(!ids0.contains(id)) by {
            if ids0.contains(id) {
                let i = choose|i: int| 0 <= i < ids0.len() && ids0[i] == id;
                assert(ids[i] == ids0[i]);
            }
        }
        assert(!r0.0.contains(id));
        assert(!failed_contains(r0.1, id)) by {
            if failed_contains(r0.1, id) {
                let k = choose|k: int| 0 <= k < r0.1.len() && #[trigger] r0.1[k].0 == id;
                assert(ids0.contains(r0.1[k].0));
            }
        }
        let r = report_of(ids, outcomes, dedupe_missing);
        assert(r == crate::batch::report_after(r0, id, o, dedupe_missing));
        assert forall|x: Seq<char>| #[trigger] r.0.contains(x) implies ids.contains(x) by {
            if r0.0.contains(x) {
                let i = choose|i: int| 0 <= i < ids0.len() && ids0[i] == x;
                assert(ids[i] == x);
            } else {
                assert(x == id);
                assert(ids[ids.len() - 1] == id);
            }
        }
        assert forall|k: int| 0 <= k < r.1.len() implies ids.contains(#[trigger] r.1[k].0) by {
            if k < r0.1.len() {
                assert(r.1[k] == r0.1[k]);
                assert(ids0.contains(r0.1[k].0));
                let i = choose|i: int| 0 <= i < ids0.len() && ids0[i] == r0.1[k].0;
                assert(ids[i] == ids0[i]);
            } else {
                assert(r.1[k].0 == id);
                assert(ids[ids.len() - 1] == id);
            }
        }
        assert forall|i: int|
            0 <= i < ids.len() implies (r.0.contains(#[trigger] ids[i]) <==> outcomes[i] is Installed)
            && (failed_contains(r.1, ids[i]) <==> !(outcomes[i] is Installed)) by {
            if i < ids.len() - 1 {
                assert(ids[i] == ids0[i] && outcomes[i] == os0[i]);
                assert(ids0[i] != id);
                let x = ids[i];
                assert(r.0 == r0.0 || r.0 == r0.0.push(id));
                assert(r.1 == r0.1 || r.1 == r0.1.push((id, r.1.last().1)));
                if r.0.contains(x) {
                    let k = choose|k: int| 0 <= k < r.0.len() && r.0[k] == x;
                    if k < r0.0.len() {
                        assert(r.0[k] == r0.0[k]);
                    }
                    assert(r0.0.contains(x));
                }
                if r0.0.contains(x) {
                    let k = choose|k: int| 0 <= k < r0.0.len() && r0.0[k] == x;
                    assert(r.0[k] == r0.0[k]);
                    assert(r.0.contains(x));
                }
                if failed_contains(r.1, x) {
                    let k = choose|k: int| 0 <= k < r.1.len() && #[trigger] r.1[k].0 == x;
                    if k < r0.1.len() {
                        assert(r.1[k] == r0.1[k]);
                    }
                    assert(failed_contains(r0.1, x));
                }
                if failed_contains(r0.1, x) {
                    let k = choose|k: int| 0 <= k < r0.1.len() && #[trigger] r0.1[k].0 == x;
                    assert(r.1[k] == r0.1[k]);
                    assert(failed_contains(r.1, x));
                }
            } else {
                assert(ids[i] == id && outcomes[i] == o);
                if !(o is Installed) {
                    assert(r.0 == r0.0);
                    assert(r.1[r.1.len() - 1].0 == id);
                } else {
                    assert(r.0[r.0.len() - 1] == id);
                    assert(r.1 == r0.1);
                }
            }
        }
    }
}

proof fn lemma_trim_start_suffix(s: Seq<char>)
    ensures
        trim_start(s) == s.skip(s.len() - trim_start(s).len()),
        trim_start(s).len() <= s.len(),
        trim_start(s).len() > 0 ==> !is_trimmed(trim_start(s)[0]),
    decreases s.len(),
{
    if s.len() > 0 && is_trimmed(s[0]) {
        lemma_trim_start_suffix(s.drop_first());
        let t = trim_start(s.drop_first());
        assert(s.drop_first().skip(s.drop_first().len() - t.len()) =~= s.skip(s.len() - t.len()));
    } else {
        assert(s.skip(0) =~= s);
    }
}

proof fn lemma_trim_end_prefix(s: Seq<char>)
    ensures
        trim_end(s) == s.take(trim_end(s).len() as int),
        trim_end(s).len() <= s.len(),
        trim_end(s).len() > 0 ==> !is_trimmed(trim_end(s).last()),
        s.len() > 0 && !is_trimmed(s[0]) ==> trim_end(s).len() > 0,
    decreases s.len(),
{
    if s.len() > 0 && is_trimmed(s.last()) {
        lemma_trim_end_prefix(s.drop_last());
        let t = trim_end(s.drop_last());
        assert(s.drop_last().take(t.len() as int) =~= s.take(t.len() as int));
        if s.len() > 0 && !is_trimmed(s[0]) {
            assert(s.len() > 1);
            assert(s.drop_last()[0] == s[0]);
        }
    } else {
        assert(s.take(s.len() as int) =~= s);
    }
}

/// A profile's folder name never begins or ends with `-` or `_` after its id, and holds
/// only letters, digits (as Unicode counts them), `-` and `_`.
pub proof fn law_sanitized_name_shape(name: Seq<char>)
    ensures
        ({
            let s = sanitized_name(name);
            &&& s.len() > 0 ==> !is_trimmed(s[0]) && !is_trimmed(s.last())
            &&& forall|k: int|
                0 <= k < s.len() ==> unicode_is_alphanumeric(#[trigger] s[k]) || s[k] == '-'
                    || s[k] == '_'
        }),
{
    let mapped = unicode_lowercase(name).map_values(|c: char| folder_char(c));
    let a = trim_start(mapped);
    let s = trim_end(a);
    lemma_trim_start_suffix(mapped);
    lemma_trim_end_prefix(a);
    assert(s == sanitized_name(name));
    if s.len() > 0 {
        assert(s[0] == a[0]);
    }
    assert forall|k: int| 0 <= k < s.len() implies unicode_is_alphanumeric(#[trigger] s[k])
        || s[k] == '-' || s[k] == '_' by {
        assert(s[k] == a[k]);
        let off = mapped.len() - a.len();
        assert(a[k] == mapped[off + k]);
    }
}

/// A profile folder's name is its id, `_`, then its sanitised name.
pub proof fn law_profile_folder_name_prefix(id: Seq<char>, name: Seq<char>)
    ensures
        seq_starts_with(crate::profiles::profile_folder_name_spec(id, name), id + "_"@),
{
    let full = crate::profiles::profile_folder_name_spec(id, name);
    assert(full.subrange(0, (id + "_"@).len() as int) =~= id + "_"@);
}

/// A folder accepted for deletion is a `profile_` folder whose name cannot reach out of
/// the add-ons directory: no `..`, `/` or `\`.
pub proof fn law_deletable_names_are_contained(name: Seq<char>)
    requires
        delete_refusal(name) is None,
    ensures
        seq_starts_with(name, profile_prefix()),
        !seq_contains(name, ".."@),
        !name.contains('/'),
        !name.contains('\\'),
        name.len() > 0,
{
}

/// The last lines of a log taken for an excerpt fit in the limit.
pub proof fn law_log_tail_fits(lines: Seq<Seq<char>>, acc: Seq<char>, limit: int)
    requires
        utf8_len(acc) <= limit,
    ensures
        utf8_len(log_tail(lines, acc, limit)) <= limit,
    decreases lines.len(),
{
    if lines.len() > 0 {
        let l = lines.last().push('\n');
        if utf8_len(acc) + utf8_len(l) <= limit {
            lemma_utf8_len_concat(l, acc);
            law_log_tail_fits(lines.drop_last(), l + acc, limit);
        }
    }
}

proof fn lemma_seq_le_reflexive(a: Seq<char>)
    ensures
        seq_le(a, a),
    decreases a.len(),
{
    if a.len() > 0 {
        lemma_seq_le_reflexive(a.drop_first());
    }
}

/// In a listing ordered newest first, the first dump is no older than any other.
pub proof fn law_first_dump_is_newest(files: Seq<crate::crash_dumps::CrashDumpFile>)
    requires
        sorted_by_le(files, newest_first()),
        files.len() > 0,
    ensures
        forall|i: int| 0 <= i < files.len() ==> newest_first()(files[0], #[trigger] files[i]),
{
    assert forall|i: int| 0 <= i < files.len() implies newest_first()(files[0], #[trigger] files[i]) by {
        if i == 0 {
            if let Some(x) = opt_view(files[0].modified) {
                lemma_seq_le_reflexive(x);
            }
        }
    }
}

/// A file name with an extension is its stem, a dot and the extension.
pub proof fn law_stem_dot_extension(name: Seq<char>)
    requires
        extension_of(name) is Some,
    ensures
        name == stem_of(name) + "."@ + extension_of(name)->0,
{
    lemma_last_index_bounds(name, '.');
    let i = last_index_of(name, '.');
    reveal_strlit(".");
    assert(name =~= name.subrange(0, i) + "."@ + name.subrange(i + 1, name.len() as int));
}

/// The stored API address is always an `http://` or `https://` address, whatever was
/// attempted since.
pub proof fn law_stored_url_stays_http(stored: Seq<char>, attempts: Seq<Seq<char>>)
    requires
        is_api_url(stored),
    ensures
        is_api_url(stored_after_sets(stored, attempts)),
    decreases attempts.len(),
{
    if attempts.len() > 0 {
        law_stored_url_stays_http(stored, attempts.drop_last());
    }
}

/// Refused attempts leave the stored API address as it was.
pub proof fn law_refused_sets_keep_url(stored: Seq<char>, attempts: Seq<Seq<char>>)
    requires
        forall|i: int| 0 <= i < attempts.len() ==> !is_api_url(#[trigger] attempts[i]),
    ensures
        stored_after_sets(stored, attempts) == stored,
    decreases attempts.len(),
{
    if attempts.len() > 0 {
        let init = attempts.drop_last();
        assert forall|i: int| 0 <= i < init.len() implies !is_api_url(#[trigger] init[i]) by {
            assert(init[i] == attempts[i]);
        }
        law_refused_sets_keep_url(stored, init);
        assert(!is_api_url(attempts[attempts.len() - 1]));
    }
}

/// After an accepted address `u` and only refused attempts since, the stored address
/// is `u`.
pub proof fn law_accepted_url_is_kept(stored: Seq<char>, u: Seq<char>, refused: Seq<Seq<char>>)
    requires
        is_api_url(u),
        forall|i: int| 0 <= i < refused.len() ==> !is_api_url(#[trigger] refused[i]),
    ensures
        stored_after_sets(stored, seq![u] + refused) == u,
    decreases refused.len(),
{
    if refused.len() == 0 {
        let a = seq![u] + refused;
        assert(a.drop_last() =~= Seq::<Seq<char>>::empty());
        assert(a.last() == u);
    } else {
        let init = refused.drop_last();
        assert forall|i: int| 0 <= i < init.len() implies !is_api_url(#[trigger] init[i]) by {
            assert(init[i] == refused[i]);
        }
        law_accepted_url_is_kept(stored, u, init);
        let a = seq![u] + refused;
        assert(a.drop_last() =~= seq![u] + init);
        assert(a.last() == refused[refused.len() - 1]);
    }
}

/// Once a stop was asked for, the watcher reports that it does not run until it is
/// started again: no later stop or watcher exit sets the running flag.
pub proof fn law_stopped_watcher_stays_stopped(running: bool, latest: int, events: Seq<WatcherEvent>)
    ensures
        !running_after_events(running, latest, seq![WatcherEvent::Stop] + events),
    decreases events.len(),
{
    let all = seq![WatcherEvent::Stop] + events;
    if events.len() == 0 {
        assert(all.drop_last() =~= Seq::<WatcherEvent>::empty());
        assert(all.last() == WatcherEvent::Stop);
    } else {
        law_stopped_watcher_stays_stopped(running, latest, events.drop_last());
        assert(all.drop_last() =~= seq![WatcherEvent::Stop] + events.drop_last());
        assert(all.last() == events.last());
    }
}

/// The shape of an excerpt of both logs: the main log's heading, the tail `t` of the
/// main log, a blank line, the crash dump's heading and the part `b` of its text.
/// `t` takes at most half of the budget left after the main log's heading; `b` is the
/// beginning of the dump's text, all of it when everything fits in the budget.
pub open spec fn combined_excerpt_shape(
    excerpt: Seq<char>,
    max_chars: int,
    name: Seq<char>,
    text: Seq<char>,
    t: Seq<char>,
    b: Seq<char>,
) -> bool {
    let h = "=== DEADLOCK MOD MANAGER LOG ===\n"@;
    let ch = "=== CRASH DUMP ("@ + name + ") ===\n"@;
    &&& excerpt == h + t + "\n"@ + ch + b
    &&& 2 * utf8_len(t) <= sat_sub(max_chars, utf8_len(h))
    &&& b.len() <= text.len()
    &&& b == text.take(b.len() as int)
    &&& utf8_len(h) + utf8_len(t) + utf8_len(ch) + utf8_len(text) <= max_chars ==> b == text
}

/// With both logs asked for, the main log's tail takes at most half of the budget left
/// after its heading, so that the other half stays for the crash dump, whose text is
/// cut only when it does not fit.
pub proof fn law_combined_excerpt_halves_budget(
    max_chars: int,
    content: Seq<char>,
    name: Seq<char>,
    text: Seq<char>,
)
    requires
        max_chars >= 0,
    ensures
        exists|t: Seq<char>, b: Seq<char>|
            #[trigger] combined_excerpt_shape(
                logs_excerpt(max_chars, true, true, Some(content), Some((name, text))),
                max_chars,
                name,
                text,
                t,
                b,
            ),
{
    let h = "=== DEADLOCK MOD MANAGER LOG ===\n"@;
    let ch = "=== CRASH DUMP ("@ + name + ") ===\n"@;
    let remaining = sat_sub(max_chars, utf8_len(h));
    let limit = remaining / 2;
    assert(utf8_len(Seq::<char>::empty()) == 0) by {
        assert(vstd::utf8::encode_utf8(Seq::<char>::empty()) =~= Seq::<u8>::empty());
    }
    law_log_tail_fits(lines_of(content), Seq::empty(), limit);
    let t = log_tail(lines_of(content), Seq::empty(), limit);
    let left = sat_sub(remaining, utf8_len(t));
    let rem = sat_sub(left, utf8_len(ch));
    let b = if utf8_len(text) > rem {
        text.take(
            if rem < text.len() {
                rem
            } else {
                text.len() as int
            },
        )
    } else {
        text
    };
    let e = logs_excerpt(max_chars, true, true, Some(content), Some((name, text)));
    assert(e =~= h + t + "\n"@ + ch + b);
    assert(b =~= text.take(b.len() as int));
    assert(combined_excerpt_shape(e, max_chars, name, text, t, b));
}

/// An archive of a download that is not a profile import and whose file tree holds
/// several files is offered to the user to pick from, whether or not a file tree was
/// handed in; in a profile import it is copied by the handed-in selection, or kept
/// for a later selection when there is none; an archive of one file, or whose tree
/// could not be read, is copied whole.
pub proof fn law_archive_plans(is_profile_import: bool, has_file_tree: bool, multiple_files: Option<bool>)
    ensures
        !is_profile_import && multiple_files == Some(true) ==> archive_plan_spec(
            is_profile_import,
            has_file_tree,
            multiple_files,
        ) == ArchivePlan::OfferFileTree,
        is_profile_import && has_file_tree && multiple_files == Some(true) ==> archive_plan_spec(
            is_profile_import,
            has_file_tree,
            multiple_files,
        ) == ArchivePlan::CopySelectedAndFinish,
        is_profile_import && !has_file_tree && multiple_files == Some(true) ==> archive_plan_spec(
            is_profile_import,
            has_file_tree,
            multiple_files,
        ) == ArchivePlan::KeepForLaterSelection,
        multiple_files != Some(true) ==> archive_plan_spec(
            is_profile_import,
            has_file_tree,
            multiple_files,
        ) == ArchivePlan::CopyAllAndContinue,
{
}

/// The interface languages offered are exactly these fifteen: English, German, French,
/// Arabic, Polish, Swiss German, Thai, Turkish, Russian, simplified and traditional
/// Chinese, Spanish, Brazilian Portuguese, Italian and Japanese.
pub proof fn law_offered_languages(l: Seq<char>)
    ensures
        supported_languages().contains(l) <==> (l == "en"@ || l == "de"@ || l == "fr"@ || l == "ar"@
            || l == "pl"@ || l == "gsw"@ || l == "th"@ || l == "tr"@ || l == "ru"@ || l == "zh-CN"@
            || l == "zh-TW"@ || l == "es"@ || l == "pt-BR"@ || l == "it"@ || l == "ja"@),
{
    let s = supported_languages();
    if l == "en"@ || l == "de"@ || l == "fr"@ || l == "ar"@ || l == "pl"@ || l == "gsw"@ || l
        == "th"@ || l == "tr"@ || l == "ru"@ || l == "zh-CN"@ || l == "zh-TW"@ || l == "es"@ || l
        == "pt-BR"@ || l == "it"@ || l == "ja"@ {
        assert(s[0] == "en"@ && s[1] == "de"@ && s[2] == "fr"@ && s[3] == "ar"@ && s[4] == "pl"@);
        assert(s[5] == "gsw"@ && s[6] == "th"@ && s[7] == "tr"@ && s[8] == "ru"@ && s[9]
            == "zh-CN"@);
        assert(s[10] == "zh-TW"@ && s[11] == "es"@ && s[12] == "pt-BR"@ && s[13] == "it"@ && s[14]
            == "ja"@);
    }
    if s.contains(l) {
        let i = choose|i: int| 0 <= i < s.len() && s[i] == l;
        assert(0 <= i < 15);
    }
}

/// The crash dumps are listed newest first by their whole modification text, in the
/// order of strings (those without a time last): a later listed dump is never newer.
pub proof fn law_dumps_listed_newest_first(entries: Seq<crate::paths::DirEntryInfo>)
    ensures
        ({
            let r = stable_sort(listed_dumps(entries), newest_first_view());
            forall|i: int, j: int| 0 <= i < j < r.len() ==> opt_le(#[trigger] r[j].3, #[trigger] r[i].3)
        }),
{
    let le = newest_first_view();
    assert forall|a: crate::crash_dumps::DumpView, b: crate::crash_dumps::DumpView|
        #[trigger] le(a, b) || le(b, a) by {
        lemma_opt_le_total(a.3, b.3);
    }
    assert forall|a: crate::crash_dumps::DumpView, b: crate::crash_dumps::DumpView, c: crate::crash_dumps::DumpView|
        #[trigger] le(a, b) && #[trigger] le(b, c) implies le(a, c) by {
        lemma_opt_le_transitive(c.3, b.3, a.3);
    }
    lemma_stable_sort_sorted(listed_dumps(entries), le);
    let r = stable_sort(listed_dumps(entries), le);
    assert forall|i: int, j: int| 0 <= i < j < r.len() implies opt_le(#[trigger] r[j].3, #[trigger] r[i].3) by {
        assert(le(r[i], r[j]));
    }
}

/// The application's log files are listed in the order of their names as strings:
/// character by character, a name before any longer name it begins.
pub proof fn law_logs_listed_by_name(entries: Seq<crate::paths::DirEntryInfo>)
    ensures
        ({
            let r = stable_sort(app_log_files(entries), by_name());
            forall|i: int, j: int| 0 <= i < j < r.len() ==> seq_le(#[trigger] r[i].name@, #[trigger] r[j].name@)
        }),
{
    let le = by_name();
    assert forall|a: crate::logs::LogFileInfo, b: crate::logs::LogFileInfo|
        #[trigger] le(a, b) || le(b, a) by {
        lemma_seq_le_total(a.name@, b.name@);
    }
    assert forall|a: crate::logs::LogFileInfo, b: crate::logs::LogFileInfo, c: crate::logs::LogFileInfo|
        #[trigger] le(a, b) && #[trigger] le(b, c) implies le(a, c) by {
        lemma_seq_le_transitive(a.name@, b.name@, c.name@);
    }
    lemma_stable_sort_sorted(app_log_files(entries), le);
    let r = stable_sort(app_log_files(entries), le);
    assert forall|i: int, j: int| 0 <= i < j < r.len() implies seq_le(#[trigger] r[i].name@, #[trigger] r[j].name@) by {
        assert(le(r[i], r[j]));
    }
}

} // verus!
