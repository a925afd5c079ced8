//! The download queue: which tasks wait, which run, how many may run at once, and
//! what is known of each running download.
//!
//! The state here is what the application's download manager decides on; the
//! application runs the downloads themselves and reports back. `F` is the type of a
//! mod's file tree, `T` the handle with which a running download is cancelled, and
//! `M` its progress figures, none of which the decisions look into.
use vstd::prelude::*;

use crate::active_map::{
    entries_map, find_key, has_key, keys_distinct, lemma_entry_value, lemma_push, lemma_remove,
    lemma_update,
};
use crate::error::Error;
use crate::text::concat;
use std::collections::VecDeque;

verus! {

/// Downloads that may run at once when nothing else was asked for.
pub const DEFAULT_MAX_CONCURRENT: usize = 3;

/// The fewest and the most downloads that may be allowed to run at once.
pub const MIN_CONCURRENT: usize = 1;

/// See [`MIN_CONCURRENT`].
pub const MAX_CONCURRENT: usize = 10;

/// The status a download has while it runs.
pub open spec fn downloading_status() -> Seq<char> {
    "downloading"@
}

/// One file of a mod to download.
#[derive(Clone, Debug)]
pub struct DownloadFileDto {
    pub url: String,
    pub name: String,
    pub size: u64,
}

/// A mod to download: its files, where they go, and how the result is installed.
#[derive(Clone, Debug)]
pub struct DownloadTask<F> {
    pub mod_id: String,
    pub files: Vec<DownloadFileDto>,
    pub target_dir: String,
    pub profile_folder: Option<String>,
    pub is_profile_import: bool,
    pub file_tree: Option<F>,
}

/// Announces that a mod's download began.
#[derive(Clone, Debug)]
pub struct DownloadStartedEvent {
    pub mod_id: String,
}

/// Announces that a mod was downloaded and processed.
#[derive(Clone, Debug)]
pub struct DownloadCompletedEvent {
    pub mod_id: String,
    pub path: String,
}

/// Hands the front end a mod's file tree so that the user picks its files.
#[derive(Clone, Debug)]
pub struct DownloadFileTreeEvent<F> {
    pub mod_id: String,
    pub file_tree: F,
}

/// Announces that a mod's download or processing failed.
#[derive(Clone, Debug)]
pub struct DownloadErrorEvent {
    pub mod_id: String,
    pub error: String,
}

/// What is known of a running download.
pub struct ActiveDownload<T, M> {
    pub cancel_token: T,
    pub status: String,
    pub metrics: M,
}

/// The reported state of a running download.
#[derive(Clone, Debug)]
pub struct DownloadStatus<M> {
    pub mod_id: String,
    pub status: String,
    pub metrics: M,
}

/// `n` held within the allowed range of concurrent downloads.
pub open spec fn clamp_concurrency(n: int) -> int {
    if n < MIN_CONCURRENT {
        MIN_CONCURRENT as int
    } else if n > MAX_CONCURRENT {
        MAX_CONCURRENT as int
    } else {
        n
    }
}

/// How many queued tasks a dispatch starts: one per free permit, while tasks remain.
pub open spec fn dispatch_count(available: int, queued: int) -> int {
    if available < queued {
        available
    } else {
        queued
    }
}

/// The permits free to start downloads when `running` downloads run under the limit
/// `max`: what the limit leaves, none once it is reached. A finished download thus
/// hands its permit back only while fewer than `max` downloads still run, and a
/// lowered limit holds for every download started after it.
pub open spec fn free_permits(max: int, running: int) -> nat {
    if running < max {
        (max - running) as nat
    } else {
        0
    }
}

/// The status reported for `id` given the running downloads `m`.
pub open spec fn status_of<T, M>(m: Map<Seq<char>, ActiveDownload<T, M>>, id: Seq<char>) -> Option<
    (Seq<char>, Seq<char>, M),
> {
    if m.dom().contains(id) {
        Some((id, m[id].status@, m[id].metrics))
    } else {
        None
    }
}

/// The view of a reported status.
pub open spec fn status_view<M>(s: DownloadStatus<M>) -> (Seq<char>, Seq<char>, M) {
    (s.mod_id@, s.status@, s.metrics)
}

/// The message of a cancel that found no running download.
pub open spec fn no_active_download_message(id: Seq<char>) -> Seq<char> {
    "No active download found for mod: "@ + id
}

/// The download queue and the running downloads.
pub struct DownloadManager<F, T, M> {
    queue: VecDeque<DownloadTask<F>>,
    active_downloads: Vec<(String, ActiveDownload<T, M>)>,
    running: usize,
    max_concurrent: usize,
}

impl<F, T, M> DownloadManager<F, T, M> {
    /// The manager's invariant: one entry per running mod, and a maximum in range.
    #[verifier::type_invariant]
    closed spec fn well_formed(self) -> bool {
        &&& keys_distinct(self.active_downloads@)
        &&& MIN_CONCURRENT <= self.max_concurrent <= MAX_CONCURRENT
    }
}

impl<F, T, M: Copy> DownloadManager<F, T, M> {
    /// The tasks waiting to start, first to start first.
    pub closed spec fn queued(self) -> Seq<DownloadTask<F>> {
        self.queue@
    }

    /// The running downloads by mod id.
    pub closed spec fn active(self) -> Map<Seq<char>, ActiveDownload<T, M>> {
        entries_map(self.active_downloads@)
    }

    /// The downloads started and not yet finished.
    pub closed spec fn running(self) -> nat {
        self.running as nat
    }

    /// The permits free to start downloads.
    pub open spec fn available(self) -> nat {
        free_permits(self.max(), self.running() as int)
    }

    /// The configured most downloads at once.
    pub closed spec fn max(self) -> int {
        self.max_concurrent as int
    }


    /// An idle manager allowing [`DEFAULT_MAX_CONCURRENT`] downloads at once.
    pub fn new() -> (r: Self)
        ensures
            r.queued() == Seq::<DownloadTask<F>>::empty(),
            r.active() == Map::<Seq<char>, ActiveDownload<T, M>>::empty(),
            r.running() == 0,
            r.available() == DEFAULT_MAX_CONCURRENT,
            r.max() == DEFAULT_MAX_CONCURRENT,
    {
        let r = DownloadManager {
            queue: VecDeque::new(),
            active_downloads: Vec::new(),
            running: 0,
            max_concurrent: DEFAULT_MAX_CONCURRENT,
        };
        assert(r.active() =~= Map::<Seq<char>, ActiveDownload<T, M>>::empty());
        r
    }

    /// The permits free to start downloads.
    pub fn available_permits(&self) -> (r: usize)
        ensures
            r == self.available(),
    {
        proof {
            use_type_invariant(&*self);
        }
        if self.running < self.max_concurrent {
            self.max_concurrent - self.running
        } else {
            0
        }
    }

    /// The downloads started and not yet finished.
    pub fn running_downloads(&self) -> (r: usize)
        ensures
            r == self.running(),
    {
        proof {
            use_type_invariant(&*self);
        }
        self.running
    }

    /// The configured most downloads at once.
    pub fn max_concurrent(&self) -> (r: usize)
        ensures
            r == self.max(),
    {
        proof {
            use_type_invariant(&*self);
        }
        self.max_concurrent
    }

    /// Sets the most downloads at once to `new_max` held within 1 to 10. The new limit
    /// holds at once for downloads not yet started: raising it frees the difference in
    /// permits, lowering it takes permits away so that no waiting task starts until
    /// fewer than the new limit run. Running downloads go on. Returns whether the
    /// maximum rose, in which case waiting tasks may now start (see
    /// [`Self::dispatch_from`]).
    pub fn set_max_concurrent(&mut self, new_max: usize) -> (raised: bool)
        ensures
            final(self).max() == clamp_concurrency(new_max as int),
            final(self).running() == old(self).running(),
            raised == (clamp_concurrency(new_max as int) > old(self).max()),
            final(self).queued() == old(self).queued(),
            final(self).active() == old(self).active(),
    {
        proof {
            use_type_invariant(&*self);
        }
        let clamped: usize = if new_max < MIN_CONCURRENT {
            MIN_CONCURRENT
        } else if new_max > MAX_CONCURRENT {
            MAX_CONCURRENT
        } else {
            new_max
        };
        let old_max = self.max_concurrent;
        self.max_concurrent = clamped;
        clamped > old_max
    }

    /// Puts a task at the back of the queue.
    pub fn queue_download(&mut self, task: DownloadTask<F>) -> (r: Result<(), Error>)
        ensures
            r is Ok,
            final(self).queued() == old(self).queued().push(task),
            final(self).active() == old(self).active(),
            final(self).running() == old(self).running(),
            final(self).max() == old(self).max(),
    {
        proof {
            use_type_invariant(&*self);
        }
        let mut queue = VecDeque::new();
        std::mem::swap(&mut queue, &mut self.queue);
        queue.push_back(task);
        self.queue = queue;
        Ok(())
    }

    /// Starts as many waiting tasks as there are free permits, front of the queue
    /// first, each taking one permit; returns the started tasks in order.
    pub fn dispatch_from(&mut self) -> (started: Vec<DownloadTask<F>>)
        ensures
            started@ == old(self).queued().take(
                dispatch_count(old(self).available() as int, old(self).queued().len() as int),
            ),
            final(self).queued() == old(self).queued().skip(
                dispatch_count(old(self).available() as int, old(self).queued().len() as int),
            ),
            final(self).running() == old(self).running() + dispatch_count(
                old(self).available() as int,
                old(self).queued().len() as int,
            ),
            final(self).active() == old(self).active(),
            final(self).max() == old(self).max(),
    {
        proof {
            use_type_invariant(&*self);
        }
        proof {
            use_type_invariant(&*self);
        }
        let mut queue = VecDeque::new();
        std::mem::swap(&mut queue, &mut self.queue);
        let ghost q0 = queue@;
        let ghost r0 = self.running as int;
        let ghost a0 = free_permits(self.max_concurrent as int, r0) as int;
        let mut running = self.running;
        let max = self.max_concurrent;
        let mut started: Vec<DownloadTask<F>> = Vec::new();
        loop
            invariant
                q0 == old(self).queue@,
                r0 == old(self).running,
                max == old(self).max_concurrent,
                a0 == free_permits(max as int, r0),
                started@.len() <= q0.len(),
                started@.len() <= a0,
                started@ == q0.take(started@.len() as int),
                queue@ == q0.skip(started@.len() as int),
                running == r0 + started@.len(),
            ensures
                started@.len() == dispatch_count(a0, q0.len() as int),
                started@ == q0.take(started@.len() as int),
                queue@ == q0.skip(started@.len() as int),
                running == r0 + started@.len(),
            decreases queue@.len(),
        {
            if running >= max {
                break;
            }
            let task = match queue.pop_front() {
                Some(t) => t,
                None => {
                    break;
                },
            };
            proof {
                let n = started@.len() as int;
                assert(q0.skip(n + 1) =~= q0.skip(n).subrange(1, q0.skip(n).len() as int));
                assert(task == q0[n]);
                assert(q0.take(n + 1) =~= q0.take(n).push(q0[n]));
            }
            started.push(task);
            running = running + 1;
        }
        self.queue = queue;
        self.running = running;
        started
    }

    /// Records that the download of `mod_id` began, replacing any earlier record for it.
    pub fn register_active_download(&mut self, mod_id: String, cancel_token: T, metrics: M)
        ensures
            final(self).active().dom() == old(self).active().dom().insert(mod_id@),
            final(self).active() == old(self).active().insert(mod_id@, final(self).active()[mod_id@]),
            final(self).active()[mod_id@].status@ == downloading_status(),
            final(self).active()[mod_id@].cancel_token == cancel_token,
            final(self).active()[mod_id@].metrics == metrics,
            final(self).queued() == old(self).queued(),
            final(self).running() == old(self).running(),
            final(self).max() == old(self).max(),
    {
        proof {
            use_type_invariant(&*self);
        }
        let mut es_v: Vec<(String, ActiveDownload<T, M>)> = Vec::new();
        std::mem::swap(&mut es_v, &mut self.active_downloads);
        let entry = ActiveDownload { cancel_token, status: "downloading".to_owned(), metrics };
        let ghost v = entry;
        let ghost es = es_v@;
        match find_key(&es_v, mod_id.as_str()) {
            Some(i) => {
                let key = mod_id;
                proof {
                    lemma_update(es, i as int, (key, v));
                }
                es_v.set(i, (key, entry));
            },
            None => {
                proof {
                    lemma_push(es, (mod_id, v));
                }
                es_v.push((mod_id, entry));
            },
        }
        self.active_downloads = es_v;
    }

    /// Records new progress figures for `mod_id` if its download is running.
    pub fn update_progress(&mut self, mod_id: &str, metrics: M) -> (found: bool)
        ensures
            found == old(self).active().dom().contains(mod_id@),
            found ==> final(self).active() == old(self).active().insert(
                mod_id@,
                ActiveDownload {
                    cancel_token: old(self).active()[mod_id@].cancel_token,
                    status: old(self).active()[mod_id@].status,
                    metrics,
                },
            ),
            !found ==> final(self).active() == old(self).active(),
            final(self).queued() == old(self).queued(),
            final(self).running() == old(self).running(),
            final(self).max() == old(self).max(),
    {
        proof {
            use_type_invariant(&*self);
        }
        let mut es_v: Vec<(String, ActiveDownload<T, M>)> = Vec::new();
        std::mem::swap(&mut es_v, &mut self.active_downloads);
        let ghost es = es_v@;
        let found = match find_key(&es_v, mod_id) {
            Some(i) => {
                proof {
                    lemma_entry_value(es, i as int);
                }
                let (key, old_entry) = es_v.remove(i);
                let entry = ActiveDownload {
                    cancel_token: old_entry.cancel_token,
                    status: old_entry.status,
                    metrics,
                };
                let ghost v = entry;
                proof {
                    lemma_update(es, i as int, (key, v));
                    assert(es.remove(i as int).insert(i as int, (key, v)) =~= es.update(
                        i as int,
                        (key, v),
                    ));
                }
                es_v.insert(i, (key, entry));
                true
            },
            None => {
                proof {
                    assert(!entries_map(es).dom().contains(mod_id@));
                }
                false
            },
        };
        self.active_downloads = es_v;
        found
    }

    /// Forgets the running download of `mod_id`, if any.
    pub fn finish_download(&mut self, mod_id: &str)
        ensures
            final(self).active() == old(self).active().remove(mod_id@),
            final(self).queued() == old(self).queued(),
            final(self).running() == old(self).running(),
            final(self).max() == old(self).max(),
    {
        proof {
            use_type_invariant(&*self);
        }
        let mut es_v: Vec<(String, ActiveDownload<T, M>)> = Vec::new();
        std::mem::swap(&mut es_v, &mut self.active_downloads);
        let ghost es = es_v@;
        match find_key(&es_v, mod_id) {
            Some(i) => {
                proof {
                    lemma_remove(es, i as int);
                }
                let _ = es_v.remove(i);
            },
            None => {
                assert(entries_map(es) =~= entries_map(es).remove(mod_id@));
            },
        }
        self.active_downloads = es_v;
    }

    /// A started download finished: one fewer runs. Its permit comes back only while
    /// fewer downloads than the configured maximum still run (see [`free_permits`]).
    pub fn release_permit(&mut self)
        requires
            old(self).running() > 0,
        ensures
            final(self).running() == old(self).running() - 1,
            final(self).queued() == old(self).queued(),
            final(self).active() == old(self).active(),
            final(self).max() == old(self).max(),
    {
        proof {
            use_type_invariant(&*self);
        }
        self.running = self.running - 1;
    }

    /// Stops tracking the running download of `mod_id` and hands back its cancel
    /// handle; an error when no download of that mod runs.
    pub fn cancel_download(&mut self, mod_id: &str) -> (r: Result<T, Error>)
        ensures
            final(self).active() == old(self).active().remove(mod_id@),
            old(self).active().dom().contains(mod_id@) <==> r is Ok,
            r matches Ok(t) ==> t == old(self).active()[mod_id@].cancel_token,
            r matches Err(e) ==> e matches Error::InvalidInput(m) && m@
                == no_active_download_message(mod_id@),
            final(self).queued() == old(self).queued(),
            final(self).running() == old(self).running(),
            final(self).max() == old(self).max(),
    {
        proof {
            use_type_invariant(&*self);
        }
        let mut es_v: Vec<(String, ActiveDownload<T, M>)> = Vec::new();
        std::mem::swap(&mut es_v, &mut self.active_downloads);
        let ghost es = es_v@;
        let r = match find_key(&es_v, mod_id) {
            Some(i) => {
                proof {
                    lemma_remove(es, i as int);
                    lemma_entry_value(es, i as int);
                }
                let (_, entry) = es_v.remove(i);
                Ok(entry.cancel_token)
            },
            None => {
                assert(entries_map(es) =~= entries_map(es).remove(mod_id@));
                Err(Error::InvalidInput(concat("No active download found for mod: ", mod_id)))
            },
        };
        self.active_downloads = es_v;
        r
    }

    /// The status of the download of `mod_id`, if it runs.
    pub fn get_download_status(&self, mod_id: &str) -> (r: Result<Option<DownloadStatus<M>>, Error>)
        ensures
            r is Ok,
            r matches Ok(s) ==> match s {
                Some(st) => status_of(self.active(), mod_id@) == Some(status_view(st)),
                None => status_of(self.active(), mod_id@) is None,
            },
    {
        proof {
            use_type_invariant(&*self);
        }
        match find_key(&self.active_downloads, mod_id) {
            Some(i) => {
                proof {
                    lemma_entry_value(self.active_downloads@, i as int);
                }
                let entry = &self.active_downloads[i].1;
                Ok(
                    Some(
                        DownloadStatus {
                            mod_id: mod_id.to_owned(),
                            status: entry.status.clone(),
                            metrics: entry.metrics,
                        },
                    ),
                )
            },
            None => Ok(None),
        }
    }

    /// The statuses of all running downloads, one per mod.
    pub fn get_all_downloads(&self) -> (r: Result<Vec<DownloadStatus<M>>, Error>)
        ensures
            r is Ok,
            r matches Ok(v) ==> {
                &&& v@.len() == self.active().dom().len()
                &&& forall|i: int|
                    0 <= i < v@.len() ==> status_of(self.active(), #[trigger] v@[i].mod_id@)
                        == Some(status_view(v@[i]))
                &&& forall|i: int, j: int|
                    0 <= i < v@.len() && 0 <= j < v@.len() && i != j ==> #[trigger] v@[i].mod_id@
                        != #[trigger] v@[j].mod_id@
            },
    {
        proof {
            use_type_invariant(&*self);
        }
        let mut out: Vec<DownloadStatus<M>> = Vec::new();
        let mut i: usize = 0;
        let ghost es = self.active_downloads@;
        while i < self.active_downloads.len()
            invariant
                es == self.active_downloads@,
                keys_distinct(es),
                i <= es.len(),
                out@.len() == i,
                forall|j: int|
                    0 <= j < i ==> (#[trigger] out@[j]).mod_id@ == es[j].0@ && out@[j].status@
                        == es[j].1.status@ && out@[j].metrics == es[j].1.metrics,
            decreases es.len() - i,
        {
            let (key, entry) = (&self.active_downloads[i].0, &self.active_downloads[i].1);
            out.push(
                DownloadStatus {
                    mod_id: key.clone(),
                    status: entry.status.clone(),
                    metrics: entry.metrics,
                },
            );
            i = i + 1;
        }
        proof {
            assert forall|j: int|
                0 <= j < out@.len() implies status_of(self.active(), #[trigger] out@[j].mod_id@)
                == Some(status_view(out@[j])) by {
                lemma_entry_value(es, j);
            }
            lemma_key_count(es);
        }
        Ok(out)
    }
}

/// With distinct keys, the map has as many keys as there are entries.
proof fn lemma_key_count<V>(es: Seq<(String, V)>)
    requires
        keys_distinct(es),
    ensures
        entries_map(es).dom().len() == es.len(),
        entries_map(es).dom().finite(),
    decreases es.len(),
{
    if es.len() == 0 {
        assert(entries_map(es).dom() =~= Set::<Seq<char>>::empty());
    } else {
        let init = es.drop_last();
        assert forall|i: int, j: int|
            0 <= i < init.len() && 0 <= j < init.len() && i != j implies #[trigger] init[i].0@
            != #[trigger] init[j].0@ by {
            assert(init[i] == es[i] && init[j] == es[j]);
        }
        lemma_key_count(init);
        assert(!has_key(init, es.last().0@)) by {
            if has_key(init, es.last().0@) {
                let i = choose|i: int| 0 <= i < init.len() && #[trigger] init[i].0@ == es.last().0@;
                assert(init[i] == es[i]);
            }
        }
        lemma_push(init, es.last());
        assert(init.push(es.last()) =~= es);
    }
}

} // verus!
