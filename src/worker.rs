//! The dispatch worker: consumes queued messages one at a time and decides, for
//! each, whether a command line runs, nothing happens, or the worker stops.
use vstd::prelude::*;
use crate::codec::{Message, SHUTDOWN};
use crate::table::CommandTable;

verus! {

/// What the worker does with one message.
#[derive(Debug)]
pub enum Action {
    /// Nothing to run: a no-op, an unknown code or an absent entry.
    Idle,
    /// Run this shell command line to completion before taking the next message.
    Run(String),
    /// Stop consuming the queue.
    Stop,
}

/// The worker's state. It owns the command table for the rest of the process
/// and is `running` until it has seen the shutdown code.
pub struct Dispatcher {
    pub table: CommandTable,
    pub running: bool,
}

impl Dispatcher {
    pub fn new(table: CommandTable) -> (d: Dispatcher)
        ensures
            d.table == table,
            d.running,
    {
        Dispatcher { table, running: true }
    }

    pub fn is_running(&self) -> (r: bool)
        ensures
            r == self.running,
    {
        self.running
    }

    /// Reacts to the next message of the queue. Once stopped, the worker stays
    /// stopped and answers every message with `Stop`.
    pub fn handle(&mut self, m: Message) -> (a: Action)
        ensures
            final(self).table == old(self).table,
            final(self).running == (old(self).running && m.command != SHUTDOWN),
            (a is Stop) == !final(self).running,
            old(self).running && m.command != SHUTDOWN ==> match a {
                Action::Run(s) => old(self).table.entry(m.command, m.value) == Some(s@),
                Action::Idle => old(self).table.entry(m.command, m.value) is None,
                Action::Stop => false,
            },
    {
        if !self.running || m.command == SHUTDOWN {
            self.running = false;
            return Action::Stop;
        }
        match self.table.select(m.command, m.value) {
            Some(s) => Action::Run(s),
            None => Action::Idle,
        }
    }
}

} // verus!
