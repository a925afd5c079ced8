//! The watcher of the Steam cache directory: whether it runs, which start is the
//! current one, and when a watcher that ends clears the running flag.
use vstd::prelude::*;

use crate::error::Error;

verus! {

/// The state of the ingest tool.
#[derive(Clone, Debug)]
pub struct IngestStatus {
    pub is_running: bool,
    pub cache_directory: Option<String>,
}

/// A scan or watch of the cache needs the cache directory.
pub fn require_cache_dir(cache_dir_found: bool) -> (r: Result<(), Error>)
    ensures
        cache_dir_found <==> r is Ok,
        r matches Err(e) ==> e matches Error::InvalidInput(m) && m@
            == "Could not find Steam cache directory"@,
{
    if cache_dir_found {
        Ok(())
    } else {
        Err(Error::InvalidInput("Could not find Steam cache directory".to_owned()))
    }
}

/// The running flag and the number of the latest start.
pub struct WatcherControl {
    running: bool,
    generation: usize,
}

/// What a watcher does after its cache watch returned: `Exit` ends it (noting whether
/// it was asked to stop), `Retry` watches again.
#[derive(Clone, Copy, Debug, PartialEq, Eq)]
pub enum WatchNext {
    Exit { requested_stop: bool },
    Retry,
}

/// An event that can change the watcher's running flag other than a start.
#[derive(Clone, Copy, Debug, PartialEq, Eq)]
pub enum WatcherEvent {
    /// A stop was asked for.
    Stop,
    /// The watcher of start `generation` ended, asked to stop or not.
    Exit { generation: usize, requested_stop: bool },
}

/// The running flag after `event`, given the flag and the latest start's number: a
/// stop clears it; an exit clears it only when the watcher was not asked to stop and
/// belongs to the latest start; neither ever sets it.
pub open spec fn running_after_event(running: bool, latest: int, event: WatcherEvent) -> bool {
    match event {
        WatcherEvent::Stop => false,
        WatcherEvent::Exit { generation, requested_stop } => if !requested_stop && generation
            == latest {
            false
        } else {
            running
        },
    }
}

/// The running flag after the events `events`, one after the other.
pub open spec fn running_after_events(running: bool, latest: int, events: Seq<WatcherEvent>) -> bool
    decreases events.len(),
{
    if events.len() == 0 {
        running
    } else {
        running_after_event(running_after_events(running, latest, events.drop_last()), latest, events.last())
    }
}

impl WatcherControl {
    /// Whether a watcher is meant to run.
    pub closed spec fn running_spec(self) -> bool {
        self.running
    }

    /// The number of the latest start.
    pub closed spec fn generation_spec(self) -> int {
        self.generation as int
    }

    /// No watcher, no start yet.
    pub fn new() -> (r: Self)
        ensures
            !r.running_spec(),
            r.generation_spec() == 0,
    {
        WatcherControl { running: false, generation: 0 }
    }

    /// Whether a watcher is meant to run.
    pub fn is_running(&self) -> (r: bool)
        ensures
            r == self.running_spec(),
    {
        self.running
    }

    /// The number of the latest start.
    pub fn generation(&self) -> (r: usize)
        ensures
            r == self.generation_spec(),
    {
        self.generation
    }

    /// Starts a watcher on request. An error when there is no cache directory; no new
    /// start (`None`) when one runs already; otherwise the running flag is set and the
    /// new start's number returned.
    pub fn start_cache_watcher(&mut self, cache_dir_found: bool) -> (r: Result<Option<usize>, Error>)
        requires
            old(self).generation_spec() < usize::MAX,
        ensures
            !cache_dir_found ==> (r matches Err(e) && e matches Error::InvalidInput(m) && m@
                == "Could not find Steam cache directory"@),
            !cache_dir_found || old(self).running_spec() ==> *final(self) == *old(self),
            cache_dir_found && old(self).running_spec() ==> r == Ok::<Option<usize>, Error>(None),
            cache_dir_found && !old(self).running_spec() ==> {
                &&& r == Ok::<Option<usize>, Error>(Some((old(self).generation_spec() + 1) as usize))
                &&& final(self).running_spec()
                &&& final(self).generation_spec() == old(self).generation_spec() + 1
            },
    {
        require_cache_dir(cache_dir_found)?;
        if self.running {
            return Ok(None);
        }
        self.running = true;
        self.generation = self.generation + 1;
        Ok(Some(self.generation))
    }

    /// Whether the start-up initialisation goes ahead: no watcher runs and the cache
    /// directory was found.
    pub fn should_initialize(&self, cache_dir_found: bool) -> (r: bool)
        ensures
            r == (!self.running_spec() && cache_dir_found),
    {
        !self.running && cache_dir_found
    }

    /// The start-up initialisation starts its watcher: a new start, running.
    pub fn begin_initialized_watcher(&mut self) -> (r: usize)
        requires
            old(self).generation_spec() < usize::MAX,
        ensures
            r == old(self).generation_spec() + 1,
            final(self).running_spec(),
            final(self).generation_spec() == old(self).generation_spec() + 1,
    {
        self.generation = self.generation + 1;
        self.running = true;
        self.generation
    }

    /// Asks the watcher to stop.
    pub fn stop_cache_watcher(&mut self)
        ensures
            !final(self).running_spec(),
            final(self).running_spec() == running_after_event(
                old(self).running_spec(),
                old(self).generation_spec(),
                WatcherEvent::Stop,
            ),
            final(self).generation_spec() == old(self).generation_spec(),
    {
        self.running = false;
    }

    /// The watcher of start `generation` ended. It clears the running flag only when it
    /// was not asked to stop and no later start happened.
    pub fn on_watcher_exit(&mut self, generation: usize, requested_stop: bool)
        ensures
            final(self).generation_spec() == old(self).generation_spec(),
            final(self).running_spec() == running_after_event(
                old(self).running_spec(),
                old(self).generation_spec(),
                WatcherEvent::Exit { generation, requested_stop },
            ),
    {
        if !requested_stop && self.generation == generation {
            self.running = false;
        }
    }
}

/// At the head of the watch loop: a watcher whose flag is cleared exits, as asked to.
pub fn at_loop_head(running: bool) -> (r: Option<WatchNext>)
    ensures
        running ==> r is None,
        !running ==> r == Some((WatchNext::Exit { requested_stop: true })),
{
    if running {
        None
    } else {
        Some(WatchNext::Exit { requested_stop: true })
    }
}

/// After a watch returned: it exits when the watch ended normally; after a failed
/// watch and a pause, it exits as asked when its flag was cleared, else watches again.
pub fn after_watch(watch_ok: bool, running_after_pause: bool) -> (r: WatchNext)
    ensures
        watch_ok ==> r == (WatchNext::Exit { requested_stop: false }),
        !watch_ok && !running_after_pause ==> r == (WatchNext::Exit { requested_stop: true }),
        !watch_ok && running_after_pause ==> r == WatchNext::Retry,
{
    if watch_ok {
        WatchNext::Exit { requested_stop: false }
    } else if !running_after_pause {
        WatchNext::Exit { requested_stop: true }
    } else {
        WatchNext::Retry
    }
}

/// The status of the ingest tool.
pub fn get_ingest_status(control: &WatcherControl, cache_directory: Option<String>) -> (r: IngestStatus)
    ensures
        r.is_running == control.running_spec(),
        r.cache_directory == cache_directory,
{
    IngestStatus { is_running: control.is_running(), cache_directory }
}

} // verus!
