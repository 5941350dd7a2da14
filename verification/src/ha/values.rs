//! Fixed vocabularies of the discovery protocol, with their wire names.

use vstd::prelude::*;

verus! {

/// Measurement categorisation of a sensor.
#[derive(Clone, Copy, Debug, PartialEq, Eq, Structural)]
pub enum DeviceClass {
    DataRate,
    DataSize,
    Timestamp,
}

impl DeviceClass {
    /// The wire name of this class.
    pub open spec fn spec_name(self) -> Seq<char> {
        match self {
            DeviceClass::DataRate => "data_rate"@,
            DeviceClass::DataSize => "data_size"@,
            DeviceClass::Timestamp => "timestamp"@,
        }
    }

    /// The wire name of this class.
    pub fn as_str(&self) -> (r: &'static str)
        ensures
            r@ == self.spec_name(),
    {
        match self {
            DeviceClass::DataRate => "data_rate",
            DeviceClass::DataSize => "data_size",
            DeviceClass::Timestamp => "timestamp",
        }
    }
}

/// How a sensor's numeric state is to be read over time.
#[derive(Clone, Copy, Debug, PartialEq, Eq, Structural)]
pub enum StateClass {
    Measurement,
}

impl StateClass {
    /// The wire name of this class.
    pub open spec fn spec_name(self) -> Seq<char> {
        match self {
            StateClass::Measurement => "measurement"@,
        }
    }

    /// The wire name of this class.
    pub fn as_str(&self) -> (r: &'static str)
        ensures
            r@ == self.spec_name(),
    {
        match self {
            StateClass::Measurement => "measurement",
        }
    }
}

/// Which part of a device's interface an entity belongs to.
#[derive(Clone, Copy, Debug, PartialEq, Eq, Structural)]
pub enum EntityCategory {
    Config,
    Diagnostic,
}

impl EntityCategory {
    /// The wire name of this category.
    pub open spec fn spec_name(self) -> Seq<char> {
        match self {
            EntityCategory::Config => "config"@,
            EntityCategory::Diagnostic => "diagnostic"@,
        }
    }

    /// The wire name of this category.
    pub fn as_str(&self) -> (r: &'static str)
        ensures
            r@ == self.spec_name(),
    {
        match self {
            EntityCategory::Config => "config",
            EntityCategory::Diagnostic => "diagnostic",
        }
    }
}

} // verus!
