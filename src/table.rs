//! The four lists of shell command lines, and the configuration they come in.
use vstd::prelude::*;

verus! {

/// Four ordered lists of shell command lines, selected by command codes 1 to 4.
pub struct CommandTable {
    pub commands_1: Vec<String>,
    pub commands_2: Vec<String>,
    pub commands_3: Vec<String>,
    pub commands_4: Vec<String>,
}

/// What the service is started with. It is read once and never changed.
pub struct Config {
    pub debug: bool,
    /// `host:port` to listen on.
    pub bind_address: String,
    pub table: CommandTable,
}

/// The text of each command line of a list.
pub open spec fn lines(list: Seq<String>) -> Seq<Seq<char>> {
    list.map_values(|s: String| s@)
}

/// The text of an optional command line.
pub open spec fn line_of(o: Option<String>) -> Option<Seq<char>> {
    match o {
        Some(s) => Some(s@),
        None => None,
    }
}

impl CommandTable {
    /// The list that a command code selects; codes other than 1 to 4 select
    /// none.
    pub open spec fn list(&self, command: u8) -> Option<Seq<Seq<char>>> {
        if command == 1 {
            Some(lines(self.commands_1@))
        } else if command == 2 {
            Some(lines(self.commands_2@))
        } else if command == 3 {
            Some(lines(self.commands_3@))
        } else if command == 4 {
            Some(lines(self.commands_4@))
        } else {
            None
        }
    }

    /// The command line at index `value` of the list selected by `command`,
    /// absent when there is no such list or the index is out of range.
    pub open spec fn entry(&self, command: u8, value: u8) -> Option<Seq<char>> {
        match self.list(command) {
            Some(l) => if value < l.len() {
                Some(l[value as int])
            } else {
                None
            },
            None => None,
        }
    }

    /// Looks up the command line that `(command, value)` selects.
    pub fn select(&self, command: u8, value: u8) -> (r: Option<String>)
        ensures
            line_of(r) == self.entry(command, value),
    {
        if command == 1 {
            entry_at(&self.commands_1, value as usize)
        } else if command == 2 {
            entry_at(&self.commands_2, value as usize)
        } else if command == 3 {
            entry_at(&self.commands_3, value as usize)
        } else if command == 4 {
            entry_at(&self.commands_4, value as usize)
        } else {
            None
        }
    }
}

/// The command line at `index` of `commands`, if the index is in range.
pub fn entry_at(commands: &Vec<String>, index: usize) -> (r: Option<String>)
    ensures
        line_of(r) == (if index < commands@.len() {
            Some(commands@[index as int]@)
        } else {
            None
        }),
{
    if index < commands.len() {
        Some(commands[index].clone())
    } else {
        None
    }
}

} // verus!
