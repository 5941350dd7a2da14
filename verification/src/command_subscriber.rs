//! Inbound command dispatch: a fixed registry from topic string to command,
//! and the pure demultiplexing decision. Subscribing and executing happen at
//! the runtime's edge.

use vstd::prelude::*;
use crate::commands::Commands;

verus! {

/// Which command a topic names.
#[derive(Clone, Copy, Debug, PartialEq, Eq, Structural)]
pub enum CommandKind {
    Reboot,
    Suspend,
}

/// The immutable topic-to-command registry, built once at startup.
pub struct CommandSubscriber {
    pub entries: Vec<(String, CommandKind)>,
}

/// The first registry entry from `i` on whose topic is `t`.
pub open spec fn lookup_from(
    e: Seq<(String, CommandKind)>,
    t: Seq<char>,
    i: int,
) -> Option<CommandKind>
    decreases e.len() - i,
{
    if i < 0 || i >= e.len() {
        None
    } else if e[i].0@ == t {
        Some(e[i].1)
    } else {
        lookup_from(e, t, i + 1)
    }
}

impl CommandSubscriber {
    /// Builds the registry over the fixed command set.
    pub fn new(commands: &Commands) -> (r: Self)
        ensures
            r.entries@.len() == 2,
            r.entries@[0].0@ == commands.reboot_command.topic@,
            r.entries@[0].1 == CommandKind::Reboot,
            r.entries@[1].0@ == commands.suspend_command.topic@,
            r.entries@[1].1 == CommandKind::Suspend,
    {
        let mut entries: Vec<(String, CommandKind)> = Vec::new();
        entries.push((commands.reboot_command.topic.clone(), CommandKind::Reboot));
        entries.push((commands.suspend_command.topic.clone(), CommandKind::Suspend));
        CommandSubscriber { entries }
    }

    /// The topics to subscribe to, in registry order.
    pub fn topics(&self) -> (r: Vec<String>)
        ensures
            r@.len() == self.entries@.len(),
            forall|i: int| 0 <= i < r@.len() ==> r@[i]@ == #[trigger] self.entries@[i].0@,
    {
        let n = self.entries.len();
        let mut out: Vec<String> = Vec::new();
        let mut i: usize = 0;
        while i < n
            invariant
                n == self.entries@.len(),
                0 <= i <= n,
                out@.len() == i,
                forall|j: int| 0 <= j < i ==> out@[j]@ == #[trigger] self.entries@[j].0@,
            decreases n - i,
        {
            out.push(self.entries[i].0.clone());
            i = i + 1;
        }
        out
    }

    /// Demultiplexes an inbound topic: the first matching registry entry, or
    /// nothing for an unknown topic, which the caller drops.
    pub fn find_command(&self, topic: &str) -> (r: Option<CommandKind>)
        ensures
            r == lookup_from(self.entries@, topic@, 0),
    {
        let n = self.entries.len();
        let mut i: usize = 0;
        while i < n
            invariant
                n == self.entries@.len(),
                0 <= i <= n,
                lookup_from(self.entries@, topic@, 0) == lookup_from(
                    self.entries@,
                    topic@,
                    i as int,
                ),
            decreases n - i,
        {
            if crate::strutil::str_eq(self.entries[i].0.as_str(), topic) {
                return Some(self.entries[i].1);
            }
            i = i + 1;
        }
        None
    }
}

} // verus!
