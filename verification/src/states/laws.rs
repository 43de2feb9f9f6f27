//! What holds of the player over any number of messages.

use crate::hci::{ConnectionEvent, HciCommand, LinkKey, LinkType, RemoteAddr, Status};
use crate::states::devices;
use crate::states::devices::PairedDevice;
use crate::states::running::{ButtonEvent, ConnectionState, Effect, Message, RunningModel};
use vstd::prelude::*;

verus! {

/// The player after a number of messages, each with the time it came.
pub open spec fn run(start: RunningModel, script: Seq<(Message, u64)>) -> RunningModel
    decreases script.len(),
{
    if script.len() == 0 {
        start
    } else {
        run(start, script.drop_last()).after(script.last().0, script.last().1)
    }
}

/// No message breaks the filing of the devices, or leaves the media keys without a channel.
pub proof fn message_keeps_the_player_well_formed(m: RunningModel, message: Message, now: u64)
    requires
        m.well_formed(),
        m.can_take(message),
    ensures
        m.after(message, now).well_formed(),
{
    if let Message::PairedDevicesLoaded(list) = message {
        devices::merging_keeps_devices_filed(m.devices, list@);
    }
}

/// There is one link at a time: a device that asks for one while there is another, or is being
/// made, is turned away, and nothing changes.
pub proof fn one_link_at_a_time(m: RunningModel, addr: RemoteAddr, link_type: LinkType, now: u64)
    requires
        !(m.connection is Disconnected),
    ensures
        ({
            let event = ConnectionEvent::ConnectionRequest { addr, link_type };
            &&& m.after(Message::ConnectionEvent(event), now) == m
            &&& m.event_effects(event) == seq![
                Effect::Hci(
                    HciCommand::RejectConnectionRequest {
                        addr,
                        reason: Status::ConnectionRejectedDueToLimitedResources,
                    },
                ),
            ]
        }),
{
}

/// Whether a command answers an event that asks for an answer.
pub open spec fn answers(effect: Effect, event: ConnectionEvent) -> bool {
    match (effect, event) {
        (
            Effect::Hci(HciCommand::AcceptConnectionRequest { addr, .. }),
            ConnectionEvent::ConnectionRequest { addr: asker, .. },
        ) => addr == asker,
        (
            Effect::Hci(HciCommand::RejectConnectionRequest { addr, .. }),
            ConnectionEvent::ConnectionRequest { addr: asker, .. },
        ) => addr == asker,
        (
            Effect::Hci(HciCommand::PinCodeRequestReply { addr, .. }),
            ConnectionEvent::PinCodeRequest { addr: asker },
        ) => addr == asker,
        (
            Effect::Hci(HciCommand::LinkKeyPresent { addr, .. }),
            ConnectionEvent::LinkKeyRequest { addr: asker },
        ) => addr == asker,
        (
            Effect::Hci(HciCommand::LinkKeyNotPresent { addr }),
            ConnectionEvent::LinkKeyRequest { addr: asker },
        ) => addr == asker,
        (
            Effect::Hci(HciCommand::IoCapabilityReply { addr, .. }),
            ConnectionEvent::IoCapabilityRequest { addr: asker },
        ) => addr == asker,
        (
            Effect::Hci(HciCommand::UserConfirmationRequestAccept { addr }),
            ConnectionEvent::UserConfirmationRequest { addr: asker },
        ) => addr == asker,
        _ => false,
    }
}

/// Whether an event asks for an answer.
pub open spec fn is_request(event: ConnectionEvent) -> bool {
    event is ConnectionRequest || event is PinCodeRequest || event is LinkKeyRequest
        || event is IoCapabilityRequest || event is UserConfirmationRequest
}

/// Every request is answered, first thing and once.
pub proof fn every_request_is_answered_once(m: RunningModel, event: ConnectionEvent)
    requires
        is_request(event),
    ensures
        m.event_effects(event).len() > 0,
        answers(m.event_effects(event)[0], event),
        forall|i: int|
            0 < i < m.event_effects(event).len() ==> !answers(
                #[trigger] m.event_effects(event)[i],
                event,
            ),
{
}

/// A link is set up from here only where a button asked for it: only then is the player
/// reconnecting, and only when reconnecting does it set up a link.
pub proof fn links_are_set_up_on_request_only(m: RunningModel, message: Message, now: u64)
    ensures
        m.after(message, now).connection.reconnecting() ==> m.connection.reconnecting() || (
        message matches Message::Button(ButtonEvent::ReconnectTo(_))),
        forall|i: int|
            0 <= i < m.effects(message).len() && (#[trigger] m.effects(message)[i]) is SetUpLink
                ==> m.connection.reconnecting() && m.servers_started,
{
}

/// A known device stays known, and keeps its name once it has one.
pub proof fn devices_are_never_forgotten(m: RunningModel, script: Seq<(Message, u64)>, k: u64)
    requires
        m.devices.contains_key(k),
    ensures
        run(m, script).devices.contains_key(k),
        m.devices[k].name is Some ==> run(m, script).devices[k].name is Some,
    decreases script.len(),
{
    if script.len() > 0 {
        let before = run(m, script.drop_last());
        devices_are_never_forgotten(m, script.drop_last(), k);
        if let Message::PairedDevicesLoaded(list) = script.last().0 {
            devices::merging_keeps_the_known(before.devices, list@, k);
        }
    }
}

/// Whether a script gives the device at an address no new key.
pub open spec fn leaves_key_alone(script: Seq<(Message, u64)>, addr: RemoteAddr) -> bool {
    forall|i: int|
        0 <= i < script.len() ==> !((#[trigger] script[i]).0 matches Message::ConnectionEvent(
            ConnectionEvent::LinkKeyNotification { addr: a, .. },
        ) && a == addr)
}

pub(crate) proof fn key_stays(m: RunningModel, script: Seq<(Message, u64)>, addr: RemoteAddr)
    requires
        m.devices.contains_key(addr.value),
        leaves_key_alone(script, addr),
    ensures
        run(m, script).devices.contains_key(addr.value),
        run(m, script).devices[addr.value].link_key == m.devices[addr.value].link_key,
    decreases script.len(),
{
    if script.len() > 0 {
        let rest = script.drop_last();
        assert forall|i: int| 0 <= i < rest.len() implies !((
        #[trigger] rest[i]).0 matches Message::ConnectionEvent(
            ConnectionEvent::LinkKeyNotification { addr: a, .. },
        ) && a == addr) by {
            assert(rest[i] == script[i]);
        }
        key_stays(m, rest, addr);
        let last = script[script.len() - 1];
        match last.0 {
            Message::PairedDevicesLoaded(list) => {
                devices::merging_keeps_the_known(run(m, rest).devices, list@, addr.value);
            },
            Message::ConnectionEvent(ConnectionEvent::LinkKeyNotification { addr: a, .. }) => {
                assert(a.value != addr.value);
            },
            _ => {},
        }
    }
}

/// A key is given back as it was left: after a device left a key, and whatever else came but
/// another key of that device, a request for its key is answered with it.
pub proof fn link_key_is_given_back(
    m: RunningModel,
    addr: RemoteAddr,
    key: LinkKey,
    now: u64,
    script: Seq<(Message, u64)>,
)
    requires
        leaves_key_alone(script, addr),
    ensures
        ({
            let left = m.after(
                Message::ConnectionEvent(ConnectionEvent::LinkKeyNotification { addr, key }),
                now,
            );
            run(left, script).event_effects(ConnectionEvent::LinkKeyRequest { addr }) == seq![
                Effect::Hci(HciCommand::LinkKeyPresent { addr, key }),
            ]
        }),
{
    let left = m.after(
        Message::ConnectionEvent(ConnectionEvent::LinkKeyNotification { addr, key }),
        now,
    );
    key_stays(left, script, addr);
}

/// A pairing outlives the program: a player that loads what another saved answers a request for
/// a key as the other did, for every device that had left a key, and knows no other.
pub proof fn pairing_survives_a_restart(
    m: RunningModel,
    saved: Vec<PairedDevice>,
    now: u64,
    addr: RemoteAddr,
)
    requires
        m.well_formed(),
        devices::is_valid_list(m.devices, saved@),
    ensures
        ({
            let next = RunningModel::fresh().after(Message::PairedDevicesLoaded(saved), now);
            let request = ConnectionEvent::LinkKeyRequest { addr };
            if m.devices.contains_key(addr.value) && m.devices[addr.value].has_key() {
                next.event_effects(request) == m.event_effects(request)
            } else {
                next.event_effects(request) == seq![
                    Effect::Hci(HciCommand::LinkKeyNotPresent { addr }),
                ]
            }
        }),
{
    devices::saved_devices_come_back(m.devices, saved@);
}

/// The device that is offered to link with again is settled by what is known.
pub proof fn offered_device_is_unique(
    known: Map<u64, PairedDevice>,
    a: PairedDevice,
    b: PairedDevice,
)
    requires
        devices::is_longest_unlinked(known, a),
        devices::is_longest_unlinked(known, b),
    ensures
        a == b,
{
}

/// A press that asks to link again ends, on success, in a link with that device, which is then
/// set up where there are servers.
pub proof fn reconnecting_ends_in_a_link(
    m: RunningModel,
    addr: RemoteAddr,
    handle: u16,
    pressed: u64,
    now: u64,
)
    ensures
        ({
            let asked = m.after(Message::Button(ButtonEvent::ReconnectTo(addr)), pressed);
            let event = ConnectionEvent::ConnectionComplete { status: Status::Success, addr, handle };
            let linked = asked.after(Message::ConnectionEvent(event), now);
            &&& m.effects(Message::Button(ButtonEvent::ReconnectTo(addr))) == seq![
                Effect::Hci(HciCommand::CreateConnection { addr, allow_role_switch: true }),
            ]
            &&& linked.connection == ConnectionState::Connected(addr)
            &&& linked.devices[addr.value].last_connected == now
            &&& m.servers_started ==> asked.event_effects(event) == seq![
                Effect::SetUpLink { addr, handle },
            ]
        }),
{
}

}
