//! The engine's picture of the world around it: the clock it reads, and the
//! transfers and audit events it asks for.
//!
//! The engine moves no value and sends no event itself. It reads the ledger
//! clock from an [`Env`] and appends to it, in order, every transfer to carry
//! out and every event to publish; whoever runs the engine performs them.

use vstd::prelude::*;
use crate::events::Event;
use crate::events::EventPayload;
use crate::events::SCHEMA_VERSION;
use crate::types::Address;

verus! {

/// The ledger clock: a sequence number and a timestamp in seconds.
#[derive(Clone, Copy, Debug, PartialEq, Eq, Structural)]
pub struct LedgerInfo {
    pub sequence: u32,
    pub timestamp: u64,
}

/// One end of a transfer: the escrow that the engine keeps, or a party.
#[derive(Clone, Copy, Debug, PartialEq, Eq)]
pub enum Account {
    /// The escrow that holds deposits between creation and settlement.
    Escrow,
    /// A party outside the engine.
    Party(Address),
}

/// A request to move `amount` from one account to another.
#[derive(Clone, Copy, Debug, PartialEq, Eq)]
pub struct Transfer {
    pub from: Account,
    pub to: Account,
    pub amount: i128,
}

/// The clock, and the transfers and events asked for so far.
#[derive(Debug)]
pub struct Env {
    ledger: LedgerInfo,
    events: Vec<Event>,
    transfers: Vec<Transfer>,
}

impl Env {
    /// The ledger clock.
    pub closed spec fn ledger(&self) -> LedgerInfo {
        self.ledger
    }

    /// The events published so far, oldest first.
    pub closed spec fn events(&self) -> Seq<Event> {
        self.events@
    }

    /// The transfers requested so far, oldest first.
    pub closed spec fn transfers(&self) -> Seq<Transfer> {
        self.transfers@
    }

    /// The event that a publication of `payload` adds at clock `ledger`.
    pub open spec fn event_at(ledger: LedgerInfo, payload: EventPayload) -> Event {
        Event {
            schema_version: SCHEMA_VERSION,
            sequence: ledger.sequence,
            timestamp: ledger.timestamp,
            payload,
        }
    }

    /// Makes an environment at clock `ledger` with nothing asked for yet.
    pub fn new(ledger: LedgerInfo) -> (env: Env)
        ensures
            env.ledger() == ledger,
            env.events() == Seq::<Event>::empty(),
            env.transfers() == Seq::<Transfer>::empty(),
    {
        Env { ledger, events: Vec::new(), transfers: Vec::new() }
    }

    /// Moves the clock to `ledger`. What was asked for stays.
    pub fn set_ledger(&mut self, ledger: LedgerInfo)
        ensures
            final(self).ledger() == ledger,
            final(self).events() == old(self).events(),
            final(self).transfers() == old(self).transfers(),
    {
        self.ledger = ledger;
    }

    /// Returns the ledger clock.
    pub fn ledger_info(&self) -> (l: LedgerInfo)
        ensures
            l == self.ledger(),
    {
        self.ledger
    }

    /// Returns the current ledger time.
    pub fn timestamp(&self) -> (t: u64)
        ensures
            t == self.ledger().timestamp,
    {
        self.ledger.timestamp
    }

    /// Returns the current ledger sequence number.
    pub fn sequence(&self) -> (s: u32)
        ensures
            s == self.ledger().sequence,
    {
        self.ledger.sequence
    }

    /// Returns the events published so far, oldest first.
    pub fn event_log(&self) -> (log: &Vec<Event>)
        ensures
            log@ == self.events(),
    {
        &self.events
    }

    /// Returns the transfers requested so far, oldest first.
    pub fn transfer_log(&self) -> (log: &Vec<Transfer>)
        ensures
            log@ == self.transfers(),
    {
        &self.transfers
    }

    /// Appends one event with the given payload, stamped with the schema
    /// version and the current clock. Clock and transfers stay as they are.
    pub fn publish(&mut self, payload: EventPayload)
        ensures
            final(self).events() == old(self).events().push(
                Env::event_at(old(self).ledger(), payload),
            ),
            final(self).ledger() == old(self).ledger(),
            final(self).transfers() == old(self).transfers(),
    {
        let event = Event {
            schema_version: SCHEMA_VERSION,
            sequence: self.ledger.sequence,
            timestamp: self.ledger.timestamp,
            payload,
        };
        self.events.push(event);
    }

    /// Appends one request to move `amount` from `from` to `to`. Clock and
    /// events stay as they are.
    pub fn request_transfer(&mut self, from: Account, to: Account, amount: i128)
        ensures
            final(self).transfers() == old(self).transfers().push(
                (Transfer { from, to, amount }),
            ),
            final(self).ledger() == old(self).ledger(),
            final(self).events() == old(self).events(),
    {
        self.transfers.push(Transfer { from, to, amount });
    }
}

} // verus!
