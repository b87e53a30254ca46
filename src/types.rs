use vstd::prelude::*;

verus! {

/// Delivery priority of a notification, sent as the `apns-priority` header.
#[derive(Clone, Copy, Debug, PartialEq, Eq, Structural)]
pub enum Priority {
    /// Deliver immediately (code 10).
    High,
    /// Deliver at a time that conserves the device's power (code 5).
    Low,
}

impl Priority {
    /// The integer code of this priority.
    pub open spec fn code(self) -> u32 {
        match self {
            Priority::High => 10,
            Priority::Low => 5,
        }
    }

    /// The integer code of this priority, as sent on the wire.
    pub fn to_int(&self) -> (r: u32)
        ensures
            r == self.code(),
    {
        match self {
            Priority::High => 10,
            Priority::Low => 5,
        }
    }
}

/// A notification, ready to be sent.
///
/// `payload` is the JSON text of the `aps` envelope and `data`, when present,
/// the JSON text of the custom data sent beside it.
#[derive(Clone, Debug)]
pub struct Notification {
    pub device_token: String,
    pub id: Option<u128>,
    pub topic: String,
    pub expiration: Option<u64>,
    pub priority: Option<Priority>,
    pub collapse_id: Option<String>,
    pub payload: String,
    pub data: Option<String>,
}

} // verus!
