//! The synchronization scheduler: who polls the controller, how often, and
//! what a poller does with each answer.
//!
//! Every configuration starts one more poller.  None is ever stopped, so
//! several may run at once; the one that was started last is the one whose
//! output counts.  A poller runs a fixed cycle: sleep for the interval, ask
//! the controller for every locale, merge the answer into the table and
//! publish the table.  The cycle is written here as a function from what just
//! happened to what to do next; sleeping, asking and publishing themselves
//! are left to the thread that runs it.

use crate::commands::{answer_table, get_all, Request};
use crate::error::ProtocolError;
use crate::store::{merged_all, LocaleTable};
use vstd::prelude::*;
use vstd::string::*;

verus! {

/// The settings of one poller.
#[derive(Debug)]
pub struct Worker {
    /// Seconds to sleep before each poll.
    pub interval: u64,
    /// The controller's address, as the user gave it.
    pub destination: String,
}

/// The pollers that have been started, oldest first.
#[derive(Debug)]
pub struct Scheduler {
    pub workers: Vec<Worker>,
}

/// What just happened in a poller's thread.
#[derive(Debug)]
pub enum WorkerEvent {
    /// The poller has just been started.
    Started,
    /// The sleep is over.
    Slept,
    /// The controller answered with this text.
    Answered(String),
    /// The table has been handed to the observer.
    Published,
}

/// What a poller's thread is to do next.
#[derive(Debug)]
pub enum WorkerAction {
    /// Sleep for this many seconds.
    Sleep(u64),
    /// Send this request to this address and wait for the answer.
    Ask(Request, String),
    /// Persist this table and hand it to the observer.
    Publish(LocaleTable),
    /// Give up: the answer could not be read.
    Stop(ProtocolError),
}

impl Scheduler {
    /// A scheduler that has started no poller yet.
    pub fn new() -> (scheduler: Scheduler)
        ensures
            scheduler.workers@.len() == 0,
            !scheduler.is_polling(),
    {
        Scheduler { workers: Vec::new() }
    }

    /// At least one poller has been started.
    pub open spec fn is_polling(&self) -> bool {
        self.workers@.len() > 0
    }

    /// Whether at least one poller has been started.
    pub fn polling(&self) -> (yes: bool)
        ensures
            yes == self.is_polling(),
    {
        self.workers.len() > 0
    }

    /// Records a new configuration and returns the settings of the poller
    /// that the caller is to start for it.  Pollers that were started before
    /// are neither stopped nor changed.
    pub fn configure(&mut self, interval: u64, destination: &str) -> (worker: Worker)
        ensures
            final(self).is_polling(),
            final(self).workers@.len() == old(self).workers@.len() + 1,
            final(self).workers@.subrange(0, old(self).workers@.len() as int) == old(self).workers@,
            final(self).workers@.last().interval == interval,
            final(self).workers@.last().destination@ == destination@,
            worker.interval == interval,
            worker.destination@ == destination@,
    {
        self.workers.push(Worker { interval, destination: String::from_str(destination) });
        assert(self.workers@.subrange(0, old(self).workers@.len() as int) =~= old(self).workers@);
        Worker { interval, destination: String::from_str(destination) }
    }
}

impl Worker {
    /// The next thing for this poller to do, given what just happened.
    ///
    /// A poller that was started, or that has published, sleeps.  One that
    /// has slept asks for every locale.  One that has an answer merges it
    /// into `locales` and publishes a copy of the table; an answer that
    /// cannot be read stops it and leaves the table alone.
    pub fn step(&self, event: WorkerEvent, locales: &mut LocaleTable) -> (action: WorkerAction)
        ensures
            match event {
                WorkerEvent::Started | WorkerEvent::Published => {
                    &&& action matches WorkerAction::Sleep(seconds) && seconds == self.interval
                    &&& final(locales)@ == old(locales)@
                },
                WorkerEvent::Slept => {
                    &&& action matches WorkerAction::Ask(request, destination) && request
                        is GetAll && destination@ == self.destination@
                    &&& final(locales)@ == old(locales)@
                },
                WorkerEvent::Answered(text) => match answer_table(text@) {
                    Ok(reported) => {
                        &&& action matches WorkerAction::Publish(table) && table@ == final(locales)@
                        &&& final(locales)@ == merged_all(old(locales)@, reported)
                    },
                    Err(e) => {
                        &&& action matches WorkerAction::Stop(reason) && reason == e
                        &&& final(locales)@ == old(locales)@
                    },
                },
            },
    {
        match event {
            WorkerEvent::Started | WorkerEvent::Published => WorkerAction::Sleep(self.interval),
            WorkerEvent::Slept => WorkerAction::Ask(Request::get_all(), self.destination.clone()),
            WorkerEvent::Answered(text) => match get_all(locales, text.as_str()) {
                Ok(table) => WorkerAction::Publish(table),
                Err(e) => WorkerAction::Stop(e),
            },
        }
    }
}

} // verus!
