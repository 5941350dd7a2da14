//! The reboot command: its topic and descriptor. The actual restart is
//! issued by the runtime around the library.

use vstd::prelude::*;
use crate::command::{Command, CommandDiscovery, CommandDiscoveryInit};
use crate::topics::topic_of;

verus! {

/// The command that restarts the host.
pub struct RebootCommand {
    pub topic: String,
}

impl RebootCommand {
    /// A reboot command listening under `{topic_base}/reboot`.
    pub fn new(topic_base: &str) -> (r: Self)
        ensures
            r.topic@ == topic_of(topic_base@, "reboot"@),
    {
        RebootCommand { topic: crate::topics::make_topic(topic_base, "reboot") }
    }
}

impl Command for RebootCommand {
    open spec fn spec_topic(&self) -> Seq<char> {
        self.topic@
    }

    open spec fn discovery_ok(&self, r: Seq<CommandDiscovery>) -> bool {
        &&& r.len() == 1
        &&& r[0].id@ == "reboot"@
        &&& r[0].name@ == "Reboot System"@
        &&& match r[0].icon {
            Some(ic) => ic@ == "mdi:restart"@,
            None => false,
        }
        &&& r[0].entity_category is None
        &&& match r[0].device_class {
            Some(c) => c@ == "restart"@,
            None => false,
        }
    }

    fn topic(&self) -> (r: &str) {
        self.topic.as_str()
    }

    fn discovery_data(&self) -> (r: Vec<CommandDiscovery>) {
        let mut out: Vec<CommandDiscovery> = Vec::new();
        let d = CommandDiscovery::new(
            CommandDiscoveryInit {
                id: String::from_str("reboot"),
                name: String::from_str("Reboot System"),
                icon: String::from_str("mdi:restart"),
            },
        ).with_device_class(String::from_str("restart"));
        out.push(d);
        out
    }
}

} // verus!
