//! What passes between the player and the Bluetooth controller, as plain values.

use vstd::prelude::*;

verus! {

/// The address of a device, as the number that orders addresses.
#[derive(Clone, Copy, Debug, PartialEq, Eq, Structural)]
pub struct RemoteAddr {
    pub value: u64,
}

/// The key that two paired devices share; all zeros stands for no key.
#[derive(Clone, Copy, Debug, PartialEq, Eq, Structural)]
pub struct LinkKey {
    pub value: u128,
}

impl Default for LinkKey {
    fn default() -> (key: Self)
        ensures
            key == (LinkKey { value: 0 }),
    {
        LinkKey { value: 0 }
    }
}

/// The outcome that the controller reports.
#[derive(Clone, Copy, Debug, PartialEq, Eq, Structural)]
pub enum Status {
    Success,
    ConnectionRejectedDueToLimitedResources,
    Other(u8),
}

/// The kind of link that a device asks for.
#[derive(Clone, Copy, Debug, PartialEq, Eq, Structural)]
pub enum LinkType {
    Acl,
    Other(u8),
}

/// The part that a device takes in a link.
#[derive(Clone, Copy, Debug, PartialEq, Eq, Structural)]
pub enum Role {
    Master,
    Slave,
}

/// What the device at hand offers a person who pairs with it.
#[derive(Clone, Copy, Debug, PartialEq, Eq, Structural)]
pub enum IoCapability {
    NoInputNoOutput,
}

/// Whether pairing data came by another way.
#[derive(Clone, Copy, Debug, PartialEq, Eq, Structural)]
pub enum OobDataPresence {
    NotPresent,
}

/// How a pairing is to be protected.
#[derive(Clone, Copy, Debug, PartialEq, Eq, Structural)]
pub enum AuthenticationRequirements {
    DedicatedBondingProtected,
}

/// How often the other device listens for a page.
#[derive(Clone, Copy, Debug, PartialEq, Eq, Structural)]
pub enum PageScanRepetitionMode {
    R1,
}

/// What the controller reports of links and pairings.
#[derive(Debug, PartialEq, Eq)]
pub enum ConnectionEvent {
    ConnectionComplete { status: Status, addr: RemoteAddr, handle: u16 },
    DisconnectionComplete,
    ConnectionRequest { addr: RemoteAddr, link_type: LinkType },
    RemoteNameRequestComplete { addr: RemoteAddr, name: String, status: Status },
    PinCodeRequest { addr: RemoteAddr },
    LinkKeyRequest { addr: RemoteAddr },
    LinkKeyNotification { addr: RemoteAddr, key: LinkKey },
    IoCapabilityRequest { addr: RemoteAddr },
    UserConfirmationRequest { addr: RemoteAddr },
    IoCapabilityResponse,
    SimplePairingComplete,
    LinkSuperVisionTimeoutChanged,
    EncryptionChanged,
    Other,
}

/// What the player asks of the controller.
#[derive(Debug, PartialEq, Eq)]
pub enum HciCommand {
    CreateConnection { addr: RemoteAddr, allow_role_switch: bool },
    AcceptConnectionRequest { addr: RemoteAddr, role: Role },
    RejectConnectionRequest { addr: RemoteAddr, reason: Status },
    RequestRemoteName { addr: RemoteAddr, mode: PageScanRepetitionMode },
    PinCodeRequestReply { addr: RemoteAddr, pin: &'static str },
    LinkKeyPresent { addr: RemoteAddr, key: LinkKey },
    LinkKeyNotPresent { addr: RemoteAddr },
    IoCapabilityReply {
        addr: RemoteAddr,
        capability: IoCapability,
        oob: OobDataPresence,
        requirements: AuthenticationRequirements,
    },
    UserConfirmationRequestAccept { addr: RemoteAddr },
}

}
