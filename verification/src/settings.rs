use vstd::prelude::*;

verus! {

/// Per-client session preference carried on the control channel: whether this
/// client asks the server to relay the session's datagrams.
#[derive(Clone, Copy, Debug, PartialEq, Eq, Structural)]
pub struct CallSettings {
    pub relay: bool,
}

impl CallSettings {
    /// Combines the two peers' preferences into the session-wide relay flag:
    /// the session relays if either peer asked for it.
    pub fn merge(self, other: CallSettings) -> (merged: Self)
        ensures
            merged.relay == (self.relay || other.relay),
    {
        Self { relay: self.relay || other.relay }
    }
}

/// Decodes the optional settings byte a client sends after its room token:
/// `1` requests relay; any other byte, or a channel from which no byte could
/// be read, means no relay preference.
pub fn preferred_settings_from_byte(read: Option<u8>) -> (settings: CallSettings)
    ensures
        settings.relay <==> read == Some(1u8),
{
    match read {
        Some(b) => CallSettings { relay: b == 1 },
        None => CallSettings { relay: false },
    }
}

/// The settings byte a client puts on the wire for its relay preference.
/// Decoding it with `preferred_settings_from_byte` gives the preference back.
pub fn settings_wire_byte(relay: bool) -> (b: u8)
    ensures
        b == (if relay { 1u8 } else { 0u8 }),
{
    if relay { 1 } else { 0 }
}

} // verus!
