use vstd::prelude::*;

verus! {

/// A serialized KERI event message, carried by the bus to observers.
#[derive(Debug, Clone, PartialEq, Eq)]
pub struct SerderKERI {
    /// The raw serialization of the event.
    pub raw: Vec<u8>,
}

/// The accepted key state of an identifier prefix.
#[derive(Debug, Clone, PartialEq, Eq)]
pub struct KeyStateRecord {
    /// The identifier prefix.
    pub i: String,
    /// The sequence number of the latest event, in hex.
    pub s: String,
    /// The digest of the latest event.
    pub d: String,
}

} // verus!
