//! What the front end keeps and how it answers to the user: one indicator
//! per locale, the controller's address as typed and as confirmed, and the
//! polling interval.
//!
//! The front end never talks to the network itself.  `update` turns a message
//! into the work that has to be done outside, and `complete` applies the
//! controller's answer once that work is done.

use crate::commands::{answer_locale, answer_table, get, get_all, lowercased, Request};
use crate::error::ProtocolError;
use crate::interval::{parse_seconds, seconds_of};
use crate::scheduler::{Scheduler, Worker};
use crate::store::{
    is_on, lemma_position_from, merge_answer, merged, merged_all, position, reads_on,
    LocaleTable, LocaleView,
};
use vstd::prelude::*;
use vstd::string::*;

verus! {

/// The indicator shown beside a locale.
#[derive(Debug, Clone, Copy, PartialEq, Eq, Structural)]
pub enum Bulb {
    On,
    Off,
}

/// A user action, as the front end reports it.  Addresses travel as the text
/// the user confirmed.
#[derive(Debug, Clone)]
pub enum Message {
    /// Switch the locale shown at an index: index, status, name, address.
    MakeSet(usize, String, String, String),
    /// Refresh the locale shown at an index: index, name, address.
    MakeGet(usize, String, String),
    /// Refresh every locale: address.
    MakeGetAll(String),
    /// The address field was edited.
    MakeServerIp(String),
    /// The address field was confirmed.
    MakeConcreteIp,
    /// The interval field was edited: interval as typed, address.
    MakeNewTimer(String, String),
}

/// What remains to be done with the answer to a request.
#[derive(Debug)]
pub enum Pending {
    /// Merge the echoed locale, then show the requested status at `index`.
    SetOne { index: usize, action: String },
    /// Merge the reported locale, then show its stored status at `index`.
    GetOne { index: usize },
    /// Merge the reported table, then refresh every indicator.
    GetAll,
}

/// The work outside the library that a message asks for.
#[derive(Debug)]
pub enum Effect {
    /// Nothing to do.
    Nothing,
    /// Send `request` to `destination`, wait for the answer and hand it to
    /// `complete` together with `pending`.
    Exchange { request: Request, destination: String, pending: Pending },
    /// Start a poller with these settings.
    StartWorker(Worker),
}

/// The state of the front end.
#[derive(Debug)]
pub struct LocaleList {
    pub locale_list: LocaleTable,
    pub bulbs: Vec<Bulb>,
    pub client_addr: String,
    pub concrete_addr: String,
    pub timer: u64,
    pub scheduler: Scheduler,
}

/// The address that stands for "no controller chosen yet".
pub open spec fn unset_address() -> Seq<char> {
    "0.0.0.0:0"@
}

/// The indicator for a status: lit for `on` in any case, dark otherwise.
pub open spec fn bulb_for(status: Seq<char>) -> Bulb {
    if is_on(status) {
        Bulb::On
    } else {
        Bulb::Off
    }
}

/// The indicators with which the front end starts: lit exactly where the
/// cache says `on`.
pub open spec fn initial_bulbs(rows: Seq<LocaleView>) -> Seq<Bulb> {
    Seq::new(
        rows.len(),
        |i: int|
            if rows[i].status == "on"@ {
                Bulb::On
            } else {
                Bulb::Off
            },
    )
}

/// The indicators after `index` was set to show `status`.  An index past the
/// last indicator changes nothing.
pub open spec fn bulbs_with(bulbs: Seq<Bulb>, index: int, status: Seq<char>) -> Seq<Bulb> {
    if 0 <= index < bulbs.len() {
        bulbs.update(index, bulb_for(status))
    } else {
        bulbs
    }
}

/// The indicators after a refresh of all locales: each one that has a row
/// shows the status of the first row that bears its row's name.
pub open spec fn refreshed_bulbs(bulbs: Seq<Bulb>, rows: Seq<LocaleView>) -> Seq<Bulb> {
    Seq::new(
        bulbs.len(),
        |i: int|
            if i < rows.len() {
                match position(rows, rows[i].locate) {
                    Some(j) => bulb_for(rows[j].status),
                    None => bulbs[i],
                }
            } else {
                bulbs[i]
            },
    )
}

/// The interval that a poller gets for what the user typed: the number
/// typed, or zero where no number was typed.
pub open spec fn worker_interval(typed: Seq<char>) -> u64 {
    match seconds_of(typed) {
        Some(seconds) => seconds,
        None => 0,
    }
}

impl LocaleList {
    /// The front end as it starts: the table as it was loaded, one indicator
    /// per row, no controller chosen, a polling interval of ten seconds and
    /// no poller running.
    pub fn new(loaded: LocaleTable) -> (home: LocaleList)
        ensures
            home.locale_list@ == loaded@,
            home.bulbs@ == initial_bulbs(loaded@),
            home.client_addr@ == unset_address(),
            home.concrete_addr@ == unset_address(),
            home.timer == 10,
            !home.scheduler.is_polling(),
    {
        let on = String::from_str("on");
        let mut bulbs: Vec<Bulb> = Vec::new();
        let mut i: usize = 0;
        while i < loaded.locale_list.len()
            invariant
                i <= loaded.locale_list.len(),
                on@ == "on"@,
                bulbs.len() == i,
                forall|j: int| 0 <= j < i ==> bulbs[j] == initial_bulbs(loaded@)[j],
            decreases loaded.locale_list.len() - i,
        {
            assert(loaded@[i as int].status == loaded.locale_list[i as int].status@);
            if loaded.locale_list[i].status == on {
                bulbs.push(Bulb::On);
            } else {
                bulbs.push(Bulb::Off);
            }
            i += 1;
        }
        assert(loaded@.len() == loaded.locale_list.len());
        assert(bulbs@ =~= initial_bulbs(loaded@));
        LocaleList {
            locale_list: loaded,
            bulbs,
            client_addr: String::from_str("0.0.0.0:0"),
            concrete_addr: String::from_str("0.0.0.0:0"),
            timer: 10,
            scheduler: Scheduler::new(),
        }
    }

    /// Whether the user has typed an address other than the unset one.
    pub fn has_server_address(&self) -> (yes: bool)
        ensures
            yes == (self.client_addr@ != unset_address()),
    {
        !(self.client_addr == String::from_str("0.0.0.0:0"))
    }

    /// Sets the indicator at `index` to show `status`.
    pub fn change_bulb_state(&mut self, status: &str, index: usize)
        ensures
            final(self).bulbs@ == bulbs_with(old(self).bulbs@, index as int, status@),
            final(self).locale_list == old(self).locale_list,
            final(self).client_addr == old(self).client_addr,
            final(self).concrete_addr == old(self).concrete_addr,
            final(self).timer == old(self).timer,
            final(self).scheduler == old(self).scheduler,
    {
        if index < self.bulbs.len() {
            let bulb = if reads_on(status) {
                Bulb::On
            } else {
                Bulb::Off
            };
            self.bulbs.set(index, bulb);
        }
    }

    /// Sets every indicator that has a row to show the status of the first
    /// row that bears its row's name.
    pub fn refresh_bulbs(&mut self)
        ensures
            final(self).bulbs@ == refreshed_bulbs(old(self).bulbs@, old(self).locale_list@),
            final(self).locale_list == old(self).locale_list,
            final(self).client_addr == old(self).client_addr,
            final(self).concrete_addr == old(self).concrete_addr,
            final(self).timer == old(self).timer,
            final(self).scheduler == old(self).scheduler,
    {
        let ghost rows = self.locale_list@;
        let ghost before = self.bulbs@;
        let mut i: usize = 0;
        while i < self.bulbs.len() && i < self.locale_list.locale_list.len()
            invariant
                self.locale_list == old(self).locale_list,
                self.client_addr == old(self).client_addr,
                self.concrete_addr == old(self).concrete_addr,
                self.timer == old(self).timer,
                self.scheduler == old(self).scheduler,
                rows == self.locale_list@,
                rows.len() == self.locale_list.locale_list.len(),
                self.bulbs.len() == before.len(),
                forall|j: int| 0 <= j < i ==> self.bulbs[j] == refreshed_bulbs(before, rows)[j],
                forall|j: int| i <= j < before.len() ==> self.bulbs[j] == before[j],
            decreases self.bulbs.len() - i,
        {
            proof {
                lemma_position_from(rows, rows[i as int].locate, 0);
                assert(rows[i as int].locate == self.locale_list.locale_list[i as int].locate@);
            }
            let found = self.locale_list.find(&self.locale_list.locale_list[i].locate);
            if let Some(j) = found {
                assert(rows[j as int].status == self.locale_list.locale_list[j as int].status@);
                let lit = reads_on(self.locale_list.locale_list[j].status.as_str());
                self.bulbs.set(
                    i,
                    if lit {
                        Bulb::On
                    } else {
                        Bulb::Off
                    },
                );
            }
            i += 1;
        }
        assert(self.bulbs@ =~= refreshed_bulbs(before, rows));
    }
}

impl LocaleList {
    /// Answers to a user action.
    ///
    /// The three commands change nothing yet: they come back as an exchange
    /// for the caller to carry out.  Editing the address keeps what was
    /// typed, confirming it makes it the address in use.  A new interval is
    /// kept if it is a number, and in any case starts one more poller, which
    /// sleeps for that number of seconds, or not at all if none was typed.
    pub fn update(&mut self, message: Message) -> (effect: Effect)
        ensures
            (match message {
                Message::MakeSet(index, action, locate, addr) => {
                    &&& *final(self) == *old(self)
                    &&& effect matches Effect::Exchange { request, destination, pending }
                    &&& request matches Request::SetOne { locate: name, value }
                    &&& name@ == locate@
                    &&& value@ == lowercased(action@)
                    &&& destination@ == addr@
                    &&& pending matches Pending::SetOne { index: at, action: shown }
                    &&& at == index
                    &&& shown@ == action@
                },
                Message::MakeGet(index, locate, addr) => {
                    &&& *final(self) == *old(self)
                    &&& effect matches Effect::Exchange { request, destination, pending }
                    &&& request matches Request::GetOne { locate: name }
                    &&& name@ == locate@
                    &&& destination@ == addr@
                    &&& pending matches Pending::GetOne { index: at }
                    &&& at == index
                },
                Message::MakeGetAll(addr) => {
                    &&& *final(self) == *old(self)
                    &&& effect matches Effect::Exchange { request, destination, pending }
                    &&& request is GetAll
                    &&& destination@ == addr@
                    &&& pending is GetAll
                },
                Message::MakeServerIp(ip) => {
                    &&& effect is Nothing
                    &&& final(self).client_addr@ == ip@
                    &&& final(self).concrete_addr == old(self).concrete_addr
                    &&& final(self).locale_list == old(self).locale_list
                    &&& final(self).bulbs == old(self).bulbs
                    &&& final(self).timer == old(self).timer
                    &&& final(self).scheduler == old(self).scheduler
                },
                Message::MakeConcreteIp => {
                    &&& effect is Nothing
                    &&& final(self).concrete_addr@ == old(self).client_addr@
                    &&& final(self).client_addr == old(self).client_addr
                    &&& final(self).locale_list == old(self).locale_list
                    &&& final(self).bulbs == old(self).bulbs
                    &&& final(self).timer == old(self).timer
                    &&& final(self).scheduler == old(self).scheduler
                },
                Message::MakeNewTimer(typed, addr) => {
                    &&& effect matches Effect::StartWorker(worker)
                    &&& worker.interval == worker_interval(typed@)
                    &&& worker.destination@ == addr@
                    &&& final(self).timer == match seconds_of(typed@) {
                        Some(seconds) => seconds,
                        None => old(self).timer,
                    }
                    &&& final(self).scheduler.workers@.len() == old(self).scheduler.workers@.len()
                        + 1
                    &&& final(self).scheduler.workers@.subrange(
                        0,
                        old(self).scheduler.workers@.len() as int,
                    ) == old(self).scheduler.workers@
                    &&& final(self).scheduler.workers@.last().interval == worker_interval(typed@)
                    &&& final(self).scheduler.workers@.last().destination@ == addr@
                    &&& final(self).client_addr == old(self).client_addr
                    &&& final(self).concrete_addr == old(self).concrete_addr
                    &&& final(self).locale_list == old(self).locale_list
                    &&& final(self).bulbs == old(self).bulbs
                },
            }),
    {
        match message {
            Message::MakeSet(index, action, locate, addr) => Effect::Exchange {
                request: Request::set(action.as_str(), locate.as_str()),
                destination: addr,
                pending: Pending::SetOne { index, action },
            },
            Message::MakeGet(index, locate, addr) => Effect::Exchange {
                request: Request::get(locate.as_str()),
                destination: addr,
                pending: Pending::GetOne { index },
            },
            Message::MakeGetAll(addr) => Effect::Exchange {
                request: Request::get_all(),
                destination: addr,
                pending: Pending::GetAll,
            },
            Message::MakeServerIp(ip) => {
                self.client_addr = ip;
                Effect::Nothing
            },
            Message::MakeConcreteIp => {
                self.concrete_addr = self.client_addr.clone();
                Effect::Nothing
            },
            Message::MakeNewTimer(typed, addr) => {
                let interval = match parse_seconds(typed.as_str()) {
                    Some(seconds) => {
                        self.timer = seconds;
                        seconds
                    },
                    None => 0,
                };
                Effect::StartWorker(self.scheduler.configure(interval, addr.as_str()))
            },
        }
    }

    /// Applies the controller's answer to the exchange that `update` asked
    /// for.
    ///
    /// The answer is merged into the table as the command says, and the
    /// indicators follow: after a set the one at the index shows the status
    /// that was asked for, after a get it shows the status now stored, after
    /// a get of all every indicator is refreshed.  An answer that cannot be
    /// read changes nothing.
    pub fn complete(&mut self, pending: Pending, answer: &str) -> (done: Result<(), ProtocolError>)
        ensures
            final(self).client_addr == old(self).client_addr,
            final(self).concrete_addr == old(self).concrete_addr,
            final(self).timer == old(self).timer,
            final(self).scheduler == old(self).scheduler,
            match pending {
                Pending::SetOne { index, action } => match answer_locale(answer@) {
                    Ok(echoed) => {
                        &&& done is Ok
                        &&& final(self).locale_list@ == merged(old(self).locale_list@, echoed)
                        &&& final(self).bulbs@ == bulbs_with(
                            old(self).bulbs@,
                            index as int,
                            action@,
                        )
                    },
                    Err(e) => done == Err::<(), ProtocolError>(e) && final(self).locale_list@
                        == old(self).locale_list@ && final(self).bulbs@ == old(self).bulbs@,
                },
                Pending::GetOne { index } => match answer_locale(answer@) {
                    Ok(reported) => {
                        &&& done is Ok
                        &&& final(self).locale_list@ == merged(old(self).locale_list@, reported)
                        &&& final(self).bulbs@ == bulbs_with(
                            old(self).bulbs@,
                            index as int,
                            merge_answer(old(self).locale_list@, reported).status,
                        )
                    },
                    Err(e) => done == Err::<(), ProtocolError>(e) && final(self).locale_list@
                        == old(self).locale_list@ && final(self).bulbs@ == old(self).bulbs@,
                },
                Pending::GetAll => match answer_table(answer@) {
                    Ok(reported) => {
                        &&& done is Ok
                        &&& final(self).locale_list@ == merged_all(
                            old(self).locale_list@,
                            reported,
                        )
                        &&& final(self).bulbs@ == refreshed_bulbs(
                            old(self).bulbs@,
                            final(self).locale_list@,
                        )
                    },
                    Err(e) => done == Err::<(), ProtocolError>(e) && final(self).locale_list@
                        == old(self).locale_list@ && final(self).bulbs@ == old(self).bulbs@,
                },
            },
    {
        match pending {
            Pending::SetOne { index, action } => {
                match crate::commands::set(&mut self.locale_list, answer) {
                    Ok(()) => {
                        self.change_bulb_state(action.as_str(), index);
                        Ok(())
                    },
                    Err(e) => Err(e),
                }
            },
            Pending::GetOne { index } => {
                match get(&mut self.locale_list, answer) {
                    Ok(status) => {
                        self.change_bulb_state(status.as_str(), index);
                        Ok(())
                    },
                    Err(e) => Err(e),
                }
            },
            Pending::GetAll => {
                match get_all(&mut self.locale_list, answer) {
                    Ok(_) => {
                        self.refresh_bulbs();
                        Ok(())
                    },
                    Err(e) => Err(e),
                }
            },
        }
    }
}

} // verus!
