//! The fixed set of commands the agent accepts, built once at startup.

use vstd::prelude::*;
use crate::topics::topic_of;

pub mod reboot;
pub mod suspend;

use reboot::RebootCommand;
use suspend::SuspendCommand;

verus! {

/// Every command unit of the agent.
pub struct Commands {
    pub reboot_command: RebootCommand,
    pub suspend_command: SuspendCommand,
}

/// Builds the command set: each command listens under
/// `{topic_base}/command/{name}`.
pub fn create_commands(topic_base: &str) -> (r: Commands)
    ensures
        r.reboot_command.topic@ == topic_of(topic_of(topic_base@, "command"@), "reboot"@),
        r.suspend_command.topic@ == topic_of(topic_of(topic_base@, "command"@), "suspend"@),
{
    let command_base = crate::topics::make_topic(topic_base, "command");
    let reboot_command = RebootCommand::new(command_base.as_str());
    let suspend_command = SuspendCommand::new(command_base.as_str());
    Commands { reboot_command, suspend_command }
}

} // verus!
