//! The known devices, call by call.

use crate::hci::{LinkKey, RemoteAddr};
use crate::states::devices;
use crate::states::devices::{PairedDevice, PairedDevices};
use vstd::prelude::*;

verus! {

/// Of a device that was never met only the address is known, and it has left no key.
pub proof fn new_devices_are_blank(addr: RemoteAddr, d: PairedDevice, valid: bool)
    requires
        call_ensures(PairedDevice::new, (addr,), d),
        call_ensures(PairedDevice::valid, (&d,), valid),
    ensures
        d.addr == addr,
        d.name is None,
        d.link_key.value == 0,
        d.last_connected == 0,
        !valid,
{
}

/// A device has left a key unless the key is all zeros.
pub proof fn every_key_but_zero_counts(d: PairedDevice, valid: bool, none: LinkKey)
    requires
        call_ensures(PairedDevice::valid, (&d,), valid),
        call_ensures(<LinkKey as Default>::default, (), none),
    ensures
        valid <==> d.link_key.value != 0,
        none.value == 0,
{
}

/// A device is called by its name, and by the text of its address only while it has none.
pub proof fn devices_are_called_by_name(d: PairedDevice, addr_text: String, s: String)
    requires
        call_ensures(PairedDevice::name_or_addr, (&d, addr_text), s),
    ensures
        s == (match d.name {
            Some(name) => name,
            None => addr_text,
        }),
{
}

/// A copy of a device is the same in everything.
pub proof fn copies_of_devices_are_alike(d: PairedDevice, copy: PairedDevice)
    requires
        call_ensures(<PairedDevice as Clone>::clone, (&d,), copy),
    ensures
        copy.addr == d.addr,
        copy.name == d.name,
        copy.link_key == d.link_key,
        copy.last_connected == d.last_connected,
{
}

/// Nothing is known at first.
pub proof fn nothing_is_known_at_first(
    s: PairedDevices,
    addr: RemoteAddr,
    found: Option<&PairedDevice>,
)
    requires
        call_ensures(PairedDevices::new, (), s),
        call_ensures(PairedDevices::get, (&s, addr), found),
    ensures
        found is None,
        s@.dom() == Set::<u64>::empty(),
{
}

/// Setting a name sets that name, of that device, and nothing else; a device that was not known is
/// from then on.
pub proof fn names_are_set(
    s: &mut PairedDevices,
    addr: RemoteAddr,
    name: String,
    asked: RemoteAddr,
    before: Option<&PairedDevice>,
    after: Option<&PairedDevice>,
)
    requires
        call_ensures(PairedDevices::set_name, (s, addr, name), ()),
        call_ensures(PairedDevices::get, (&*old(s), asked), before),
        call_ensures(PairedDevices::get, (&*final(s), asked), after),
    ensures
        asked != addr ==> after == before,
        asked == addr ==> match before {
            Some(b) => after == Some(
                &PairedDevice {
                    addr: b.addr,
                    name: Some(name),
                    link_key: b.link_key,
                    last_connected: b.last_connected,
                },
            ),
            None => after == Some(
                &PairedDevice {
                    addr,
                    name: Some(name),
                    link_key: LinkKey { value: 0 },
                    last_connected: 0,
                },
            ),
        },
{
}

/// Setting a key sets that key, of that device, and nothing else; a device that was not known is
/// from then on.
pub proof fn keys_are_set(
    s: &mut PairedDevices,
    addr: RemoteAddr,
    key: LinkKey,
    asked: RemoteAddr,
    before: Option<&PairedDevice>,
    after: Option<&PairedDevice>,
)
    requires
        call_ensures(PairedDevices::set_link_key, (s, addr, key), ()),
        call_ensures(PairedDevices::get, (&*old(s), asked), before),
        call_ensures(PairedDevices::get, (&*final(s), asked), after),
    ensures
        asked != addr ==> after == before,
        asked == addr ==> match before {
            Some(b) => after == Some(
                &PairedDevice {
                    addr: b.addr,
                    name: b.name,
                    link_key: key,
                    last_connected: b.last_connected,
                },
            ),
            None => after == Some(
                &PairedDevice { addr, name: None, link_key: key, last_connected: 0 },
            ),
        },
{
}

/// Setting the time of the last link sets that time, of that device, and nothing else; a device
/// that was not known is from then on.
pub proof fn times_are_set(
    s: &mut PairedDevices,
    addr: RemoteAddr,
    time: u64,
    asked: RemoteAddr,
    before: Option<&PairedDevice>,
    after: Option<&PairedDevice>,
)
    requires
        call_ensures(PairedDevices::set_last_connected, (s, addr, time), ()),
        call_ensures(PairedDevices::get, (&*old(s), asked), before),
        call_ensures(PairedDevices::get, (&*final(s), asked), after),
    ensures
        asked != addr ==> after == before,
        asked == addr ==> match before {
            Some(b) => after == Some(
                &PairedDevice {
                    addr: b.addr,
                    name: b.name,
                    link_key: b.link_key,
                    last_connected: time,
                },
            ),
            None => after == Some(
                &PairedDevice {
                    addr,
                    name: None,
                    link_key: LinkKey { value: 0 },
                    last_connected: time,
                },
            ),
        },
{
}

/// A device is filed only where its address is free.
pub proof fn new_devices_find_their_place(
    s: &mut PairedDevices,
    device: PairedDevice,
    asked: RemoteAddr,
    before: Option<&PairedDevice>,
    after: Option<&PairedDevice>,
)
    requires
        call_ensures(PairedDevices::add_new, (s, device), ()),
        call_ensures(PairedDevices::get, (&*old(s), asked), before),
        call_ensures(PairedDevices::get, (&*final(s), asked), after),
    ensures
        after == (if before is None && asked == device.addr {
            Some(&device)
        } else {
            before
        }),
{
}

/// What is loaded never changes what is known, and of what is loaded the first of an address
/// counts.
pub proof fn loading_adds_what_is_new(
    s: &mut PairedDevices,
    list: Vec<PairedDevice>,
    asked: RemoteAddr,
    before: Option<&PairedDevice>,
    after: Option<&PairedDevice>,
)
    requires
        call_ensures(PairedDevices::merge, (s, list), ()),
        call_ensures(PairedDevices::get, (&*old(s), asked), before),
        call_ensures(PairedDevices::get, (&*final(s), asked), after),
    ensures
        before is Some ==> after == before,
        before is None && (forall|i: int|
            0 <= i < list@.len() ==> (#[trigger] list@[i]).addr != asked) ==> after is None,
        forall|i: int|
            before is None && 0 <= i < list@.len() && (#[trigger] list@[i]).addr == asked && (forall|
                j: int,
            |
                0 <= j < i ==> (#[trigger] list@[j]).addr != asked) ==> after == Some(&list@[i]),
{
    devices::merging_keeps_the_known(old(s)@, list@, asked.value);
    first_of_an_address(list@, asked);
}

pub(crate) proof fn first_of_an_address(list: Seq<PairedDevice>, addr: RemoteAddr)
    ensures
        (forall|i: int| 0 <= i < list.len() ==> (#[trigger] list[i]).addr != addr)
            ==> devices::first_with(list, addr.value) is None,
        forall|i: int|
            0 <= i < list.len() && (#[trigger] list[i]).addr == addr && (forall|j: int|
                0 <= j < i ==> (#[trigger] list[j]).addr != addr) ==> devices::first_with(
                list,
                addr.value,
            ) == Some(list[i]),
    decreases list.len(),
{
    if list.len() > 0 {
        let rest = list.drop_last();
        first_of_an_address(rest, addr);
        assert(forall|i: int| 0 <= i < rest.len() ==> rest[i] == list[i]);
        assert forall|i: int|
            0 <= i < list.len() && (#[trigger] list[i]).addr == addr && (forall|j: int|
                0 <= j < i ==> (#[trigger] list[j]).addr != addr) implies devices::first_with(
            list,
            addr.value,
        ) == Some(list[i]) by {
            if i < rest.len() {
                assert(rest[i].addr == addr);
            } else {
                assert(forall|j: int| 0 <= j < rest.len() ==> (#[trigger] rest[j]).addr != addr);
            }
        }
        if forall|i: int| 0 <= i < list.len() ==> (#[trigger] list[i]).addr != addr {
            assert(forall|i: int| 0 <= i < rest.len() ==> (#[trigger] rest[i]).addr != addr);
            assert(list.last() == list[list.len() - 1]);
        }
    }
}

/// What is saved is every device with a key, as it is known, once, by rising address, and nothing
/// else.
pub proof fn devices_with_a_key_are_saved(
    s: PairedDevices,
    list: Vec<PairedDevice>,
    asked: RemoteAddr,
    found: Option<&PairedDevice>,
)
    requires
        forall|k: u64| #[trigger] s@.contains_key(k) ==> s@[k].addr.value == k,
        call_ensures(PairedDevices::valid_devices, (&s,), list),
        call_ensures(PairedDevices::get, (&s, asked), found),
    ensures
        found matches Some(d) ==> d.link_key.value != 0 ==> list@.contains(*d),
        forall|i: int|
            0 <= i < list@.len() && (#[trigger] list@[i]).addr == asked ==> found == Some(&list@[i])
                && list@[i].link_key.value != 0,
        forall|i: int, j: int|
            0 <= i < j < list@.len() ==> (#[trigger] list@[i]).addr.value < (
            #[trigger] list@[j]).addr.value,
{
    assert(forall|i: int| 0 <= i < list@.len() ==> list@.contains(#[trigger] list@[i]));
}

/// The device that is offered to link with again is a known one, none was without a link for
/// longer, of those that tie it has the lowest address, and there is one whenever any is known.
pub proof fn longest_unlinked_device_is_offered(
    s: PairedDevices,
    offered: Option<&PairedDevice>,
    other: RemoteAddr,
    found: Option<&PairedDevice>,
)
    requires
        forall|k: u64| #[trigger] s@.contains_key(k) ==> s@[k].addr.value == k,
        call_ensures(PairedDevices::longest_unlinked, (&s,), offered),
        call_ensures(PairedDevices::get, (&s, other), found),
    ensures
        found is Some ==> offered is Some,
        offered matches Some(d) ==> {
            &&& d.addr == other ==> found == Some(d)
            &&& s@.contains_key(d.addr.value) && s@[d.addr.value] == *d
            &&& found matches Some(f) ==> d.last_connected <= f.last_connected
            &&& found matches Some(f) ==> d.last_connected == f.last_connected ==> d.addr.value
                <= f.addr.value
        },
{
}

/// Filing under one's own address is all that the filing asks.
pub proof fn filed_means_under_the_own_address(known: Map<u64, PairedDevice>)
    ensures
        devices::filed(known) <==> forall|k: u64| #[trigger]
            known.contains_key(k) ==> known[k].addr.value == k,
{
}

}
