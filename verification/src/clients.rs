//! The device registry: this account's devices and the commands addressed to them.

use vstd::prelude::*;

pub mod record;

verus! {

/// How this device presents itself in the registry during a pass.
#[derive(Clone, Debug, PartialEq, Eq, Hash)]
pub struct Settings {
    /// The account's device id, also used as this device's record id.
    pub fxa_device_id: String,
    /// The display name of this device.
    pub name: String,
    /// The class of this device.
    pub client_type: Type,
}

#[derive(Clone, Copy, Debug, PartialEq, Eq, Hash, Structural)]
pub enum Type {
    Desktop,
    Mobile,
    Tablet,
}

impl Type {
    /// The wire name of a device class.
    pub open spec fn name(self) -> Seq<char> {
        match self {
            Type::Desktop => "desktop"@,
            Type::Mobile => "mobile"@,
            Type::Tablet => "tablet"@,
        }
    }

    pub fn as_str(self) -> (r: &'static str)
        ensures
            r@ == self.name(),
    {
        match self {
            Type::Desktop => "desktop",
            Type::Mobile => "mobile",
            Type::Tablet => "tablet",
        }
    }
}

impl Settings {
    /// The settings of a device whose identity is not configured: empty id,
    /// empty name, desktop class.
    pub open spec fn is_unconfigured(self) -> bool {
        &&& self.fxa_device_id@ == Seq::<char>::empty()
        &&& self.name@ == Seq::<char>::empty()
        &&& self.client_type == Type::Desktop
    }

    pub fn unconfigured() -> (r: Settings)
        ensures
            r.is_unconfigured(),
    {
        Settings { fxa_device_id: String::new(), name: String::new(), client_type: Type::Desktop }
    }
}

} // verus!
