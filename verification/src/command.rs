//! The static face of a command unit: a stable topic and discovery
//! descriptors. Executing a command reaches the operating system and lives
//! with the runtime around the library.

use vstd::prelude::*;
use crate::ha::values::EntityCategory;

verus! {

/// The static capabilities every command unit exposes. Executing a command
/// is the runtime's business; what the library sees of a command is its
/// topic and its descriptors.
pub trait Command {
    /// The topic this command listens on.
    spec fn spec_topic(&self) -> Seq<char>;

    /// What this command's descriptors look like.
    spec fn discovery_ok(&self, r: Seq<CommandDiscovery>) -> bool;

    /// The topic this command listens on.
    fn topic(&self) -> (r: &str)
        ensures
            r@ == self.spec_topic(),
    ;

    /// The discovery descriptors this command registers.
    fn discovery_data(&self) -> (r: Vec<CommandDiscovery>)
        ensures
            self.discovery_ok(r@),
    ;
}

/// One discovery descriptor of a command.
pub struct CommandDiscovery {
    pub id: String,
    pub name: String,
    pub icon: Option<String>,
    pub entity_category: Option<EntityCategory>,
    pub device_class: Option<String>,
}

/// The always-present parts of a command descriptor under construction.
pub struct CommandDiscoveryInit {
    pub id: String,
    pub name: String,
    pub icon: String,
}

impl CommandDiscovery {
    /// A descriptor with the given identity and icon, and every optional
    /// field unset.
    pub fn new(init: CommandDiscoveryInit) -> (r: Self)
        ensures
            r.id == init.id,
            r.name == init.name,
            r.icon == Some(init.icon),
            r.entity_category is None,
            r.device_class is None,
    {
        Self {
            id: init.id,
            name: init.name,
            icon: Some(init.icon),
            entity_category: None,
            device_class: None,
        }
    }

    /// The same descriptor with the entity category set.
    pub fn with_entity_category(self, entity_category: EntityCategory) -> (r: Self)
        ensures
            r == (Self { entity_category: Some(entity_category), ..self }),
    {
        Self { entity_category: Some(entity_category), ..self }
    }

    /// The same descriptor with the device class set.
    pub fn with_device_class(self, device_class: String) -> (r: Self)
        ensures
            r == (Self { device_class: Some(device_class), ..self }),
    {
        Self { device_class: Some(device_class), ..self }
    }
}

} // verus!
