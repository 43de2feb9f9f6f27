//! The devices that the player knows, by address.

use crate::hci::{LinkKey, RemoteAddr};
use std::collections::BTreeMap;
use vstd::prelude::*;

verus! {

broadcast use vstd::std_specs::btree::group_btree_axioms;

/// A device that the player has met.
#[derive(Debug, PartialEq, Eq)]
pub struct PairedDevice {
    pub addr: RemoteAddr,
    pub name: Option<String>,
    pub link_key: LinkKey,
    pub last_connected: u64,
}

impl Clone for PairedDevice {
    fn clone(&self) -> (d: Self)
        ensures
            d == *self,
    {
        PairedDevice {
            addr: self.addr,
            name: match &self.name {
                Some(name) => Some(name.clone()),
                None => None,
            },
            link_key: self.link_key,
            last_connected: self.last_connected,
        }
    }
}

impl PairedDevice {
    /// A device of which only the address is known.
    pub open spec fn fresh(addr: RemoteAddr) -> Self {
        PairedDevice { addr, name: None, link_key: LinkKey { value: 0 }, last_connected: 0 }
    }

    /// Whether the device has left a key to link with.
    pub open spec fn has_key(self) -> bool {
        self.link_key != (LinkKey { value: 0 })
    }

    pub fn new(addr: RemoteAddr) -> (d: Self)
        ensures
            d == PairedDevice::fresh(addr),
    {
        PairedDevice { addr, name: None, link_key: LinkKey::default(), last_connected: 0 }
    }

    /// The name of the device, or, while it has told none, the text of its address.
    pub fn name_or_addr(&self, addr_text: String) -> (s: String)
        ensures
            s == self.label(addr_text),
    {
        match &self.name {
            Some(name) => name.clone(),
            None => addr_text,
        }
    }

    /// What the device is shown as, given the text of its address.
    pub open spec fn label(self, addr_text: String) -> String {
        match self.name {
            Some(name) => name,
            None => addr_text,
        }
    }

    pub fn valid(&self) -> (b: bool)
        ensures
            b == self.has_key(),
    {
        self.link_key != LinkKey::default()
    }
}

/// The known devices, each filed under its address.
pub struct PairedDevices {
    map: BTreeMap<u64, PairedDevice>,
}

impl View for PairedDevices {
    type V = Map<u64, PairedDevice>;

    closed spec fn view(&self) -> Map<u64, PairedDevice> {
        self.map@
    }
}

/// Whether every device is filed under its own address.
pub open spec fn filed(devices: Map<u64, PairedDevice>) -> bool {
    forall|k: u64| #[trigger] devices.contains_key(k) ==> devices[k].addr.value == k
}

/// What is known of a device: nothing but its address, if it was never met.
pub open spec fn known(devices: Map<u64, PairedDevice>, addr: RemoteAddr) -> PairedDevice {
    if devices.contains_key(addr.value) {
        devices[addr.value]
    } else {
        PairedDevice::fresh(addr)
    }
}

/// The devices with one more filed, unless its address is taken.
pub open spec fn with_new(devices: Map<u64, PairedDevice>, device: PairedDevice) -> Map<
    u64,
    PairedDevice,
> {
    if devices.contains_key(device.addr.value) {
        devices
    } else {
        devices.insert(device.addr.value, device)
    }
}

/// The devices with those of a list filed in turn, each unless its address is taken.
pub open spec fn merged(devices: Map<u64, PairedDevice>, list: Seq<PairedDevice>) -> Map<
    u64,
    PairedDevice,
>
    decreases list.len(),
{
    if list.len() == 0 {
        devices
    } else {
        with_new(merged(devices, list.drop_last()), list.last())
    }
}

/// Whether `list` is the devices that have a key, by rising address.
pub open spec fn is_valid_list(devices: Map<u64, PairedDevice>, list: Seq<PairedDevice>) -> bool {
    &&& forall|i: int, j: int|
        0 <= i < j < list.len() ==> (#[trigger] list[i]).addr.value < (
        #[trigger] list[j]).addr.value
    &&& forall|d: PairedDevice| #[trigger]
        list.contains(d) <==> d.has_key() && devices.contains_key(d.addr.value)
            && devices[d.addr.value] == d
}

/// Whether `d` is the device that went longest without a link; of those that tie, the one with
/// the lowest address.
pub open spec fn is_longest_unlinked(devices: Map<u64, PairedDevice>, d: PairedDevice) -> bool {
    &&& devices.contains_key(d.addr.value)
    &&& devices[d.addr.value] == d
    &&& forall|k: u64| #[trigger]
        devices.contains_key(k) ==> if k < d.addr.value {
            d.last_connected < devices[k].last_connected
        } else {
            d.last_connected <= devices[k].last_connected
        }
}

impl PairedDevices {
    pub open spec fn well_formed(self) -> bool {
        filed(self@)
    }

    pub fn new() -> (s: Self)
        ensures
            s@ == Map::<u64, PairedDevice>::empty(),
            s.well_formed(),
    {
        PairedDevices { map: BTreeMap::new() }
    }

    pub fn get(&self, addr: RemoteAddr) -> (d: Option<&PairedDevice>)
        ensures
            d is Some <==> self@.contains_key(addr.value),
            d matches Some(d) ==> *d == self@[addr.value],
    {
        self.map.get(&addr.value)
    }

    /// Takes out what is known of a device.
    fn take_known(&mut self, addr: RemoteAddr) -> (d: PairedDevice)
        ensures
            d == known(old(self)@, addr),
            final(self)@ == old(self)@.remove(addr.value),
    {
        match self.map.remove(&addr.value) {
            Some(device) => device,
            None => PairedDevice::new(addr),
        }
    }

    /// Files a device, unless its address is taken.
    pub fn add_new(&mut self, device: PairedDevice)
        ensures
            final(self)@ == with_new(old(self)@, device),
            old(self).well_formed() ==> final(self).well_formed(),
    {
        if !self.map.contains_key(&device.addr.value) {
            self.map.insert(device.addr.value, device);
        }
    }

    /// Files the devices of a list in turn, each unless its address is taken.
    pub fn merge(&mut self, list: Vec<PairedDevice>)
        ensures
            final(self)@ == merged(old(self)@, list@),
            old(self).well_formed() ==> final(self).well_formed(),
    {
        let mut i: usize = 0;
        while i < list.len()
            invariant
                i <= list.len(),
                self@ == merged(old(self)@, list@.take(i as int)),
                old(self).well_formed() ==> self.well_formed(),
            decreases list.len() - i,
        {
            self.add_new(list[i].clone());
            proof {
                assert(list@.take(i + 1).drop_last() =~= list@.take(i as int));
            }
            i = i + 1;
        }
        assert(list@.take(i as int) =~= list@);
    }

    /// Sets the name of a device, which is filed if it was not.
    pub fn set_name(&mut self, addr: RemoteAddr, name: String)
        ensures
            final(self)@ == old(self)@.insert(
                addr.value,
                PairedDevice { name: Some(name), ..known(old(self)@, addr) },
            ),
            old(self).well_formed() ==> final(self).well_formed(),
    {
        let mut device = self.take_known(addr);
        device.name = Some(name);
        self.map.insert(addr.value, device);
        assert(self@ =~= old(self)@.insert(addr.value, device));
    }

    /// Sets the key of a device, which is filed if it was not.
    pub fn set_link_key(&mut self, addr: RemoteAddr, key: LinkKey)
        ensures
            final(self)@ == old(self)@.insert(
                addr.value,
                PairedDevice { link_key: key, ..known(old(self)@, addr) },
            ),
            old(self).well_formed() ==> final(self).well_formed(),
    {
        let mut device = self.take_known(addr);
        device.link_key = key;
        self.map.insert(addr.value, device);
        assert(self@ =~= old(self)@.insert(addr.value, device));
    }

    /// Sets the time of the last link with a device, which is filed if it was not.
    pub fn set_last_connected(&mut self, addr: RemoteAddr, time: u64)
        ensures
            final(self)@ == old(self)@.insert(
                addr.value,
                PairedDevice { last_connected: time, ..known(old(self)@, addr) },
            ),
            old(self).well_formed() ==> final(self).well_formed(),
    {
        let mut device = self.take_known(addr);
        device.last_connected = time;
        self.map.insert(addr.value, device);
        assert(self@ =~= old(self)@.insert(addr.value, device));
    }

    /// The devices, with their addresses, by rising address.
    fn in_order(&self) -> (list: Vec<(u64, &PairedDevice)>)
        ensures
            lists(self@, list@),
    {
        let mut list: Vec<(u64, &PairedDevice)> = Vec::new();
        let iter = self.map.iter();
        let ghost items = vstd::std_specs::iter::IteratorSpec::remaining(&iter);
        let ghost keys = items.map_values(|kv: (&u64, &PairedDevice)| *kv.0);
        proof {
            increasing_keys(keys);
        }
        for (k, d) in it: iter
            invariant
                it.seq() == items,
                list.len() == it.index(),
                forall|i: int|
                    0 <= i < list.len() ==> (#[trigger] list@[i]).0 == *items[i].0 && *list@[i].1
                        == *items[i].1,
        {
            list.push((*k, d));
        }
        proof {
            assert forall|i: int, j: int| 0 <= i < j < list.len() implies (
            #[trigger] list@[i]).0 < (#[trigger] list@[j]).0 by {
                assert(keys[i] < keys[j]);
            }
            assert forall|k: u64| #[trigger] self@.contains_key(k) implies exists|i: int|
                0 <= i < list.len() && (#[trigger] list@[i]).0 == k by {
                assert(items.contains((&k, &self.map@[k])));
                let i = items.index_of((&k, &self.map@[k]));
                assert(list@[i].0 == k);
            }
        }
        list
    }

    /// The devices that have a key, by rising address.
    pub fn valid_devices(&self) -> (list: Vec<PairedDevice>)
        requires
            self.well_formed(),
        ensures
            is_valid_list(self@, list@),
    {
        let all = self.in_order();
        let mut list: Vec<PairedDevice> = Vec::new();
        let mut n: usize = 0;
        while n < all.len()
            invariant
                n <= all.len(),
                lists(self@, all@),
                self.well_formed(),
                forall|i: int, j: int|
                    0 <= i < j < list.len() ==> (#[trigger] list@[i]).addr.value < (
                    #[trigger] list@[j]).addr.value,
                forall|i: int|
                    0 <= i < list.len() ==> {
                        let d = #[trigger] list@[i];
                        d.has_key() && self@.contains_key(d.addr.value) && self@[d.addr.value] == d
                            && (n < all.len() ==> d.addr.value < all@[n as int].0)
                    },
                forall|i: int|
                    0 <= i < n && (#[trigger] all@[i]).1.has_key() ==> list@.contains(*all@[i].1),
            decreases all.len() - n,
        {
            let ghost before = list@;
            if all[n].1.valid() {
                list.push(all[n].1.clone());
                assert(list@.last() == *all@[n as int].1);
            }
            proof {
                assert forall|i: int| 0 <= i < n + 1 && (
                #[trigger] all@[i]).1.has_key() implies list@.contains(*all@[i].1) by {
                    if i < n {
                        let j = before.index_of(*all@[i].1);
                        assert(list@[j] == *all@[i].1);
                    }
                }
            }
            n = n + 1;
        }
        proof {
            assert forall|d: PairedDevice| #[trigger] list@.contains(d) <==> d.has_key()
                && self@.contains_key(d.addr.value) && self@[d.addr.value] == d by {
                if d.has_key() && self@.contains_key(d.addr.value) && self@[d.addr.value] == d {
                    let i = choose|i: int|
                        0 <= i < all.len() && (#[trigger] all@[i]).0 == d.addr.value;
                    assert(*all@[i].1 == d);
                }
            }
        }
        list
    }

    /// The device that went longest without a link, if any device is known.
    pub fn longest_unlinked(&self) -> (d: Option<&PairedDevice>)
        requires
            self.well_formed(),
        ensures
            d is None <==> self@ == Map::<u64, PairedDevice>::empty(),
            d matches Some(d) ==> is_longest_unlinked(self@, *d),
    {
        let all = self.in_order();
        if all.len() == 0 {
            assert(self@ =~= Map::<u64, PairedDevice>::empty());
            return None;
        }
        let mut best: usize = 0;
        let mut n: usize = 1;
        while n < all.len()
            invariant
                best < n <= all.len(),
                forall|i: int|
                    0 <= i < n ==> if i < best {
                        all@[best as int].1.last_connected < (#[trigger] all@[i]).1.last_connected
                    } else {
                        all@[best as int].1.last_connected <= all@[i].1.last_connected
                    },
            decreases all.len() - n,
        {
            if all[n].1.last_connected < all[best].1.last_connected {
                best = n;
            }
            n = n + 1;
        }
        let found = all[best].1;
        proof {
            let d = *found;
            assert(all@[best as int].0 == d.addr.value);
            assert forall|k: u64| #[trigger] self@.contains_key(k) implies if k < d.addr.value {
                d.last_connected < self@[k].last_connected
            } else {
                d.last_connected <= self@[k].last_connected
            } by {
                let i = choose|i: int| 0 <= i < all.len() && (#[trigger] all@[i]).0 == k;
                assert(*all@[i].1 == self@[k]);
                if best < i {
                    assert(all@[best as int].0 < all@[i].0);
                }
            }
        }
        Some(found)
    }
}

proof fn increasing_keys(keys: Seq<u64>)
    requires
        vstd::std_specs::btree::increasing_seq(keys),
    ensures
        forall|i: int, j: int| 0 <= i < j < keys.len() ==> keys[i] < keys[j],
{
    assert(vstd::laws_cmp::obeys_cmp::<u64>());
    assert forall|i: int, j: int| 0 <= i < j < keys.len() implies keys[i] < keys[j] by {
        assert(vstd::std_specs::cmp::OrdSpec::cmp_spec(&keys[i], &keys[j]) is Less);
    }
}

/// Whether `list` is the whole of the devices with their addresses, by rising address.
spec fn lists(devices: Map<u64, PairedDevice>, list: Seq<(u64, &PairedDevice)>) -> bool {
    &&& forall|i: int, j: int|
        0 <= i < j < list.len() ==> (#[trigger] list[i]).0 < (#[trigger] list[j]).0
    &&& forall|i: int|
        0 <= i < list.len() ==> devices.contains_key((#[trigger] list[i]).0) && devices[list[i].0]
            == *list[i].1
    &&& forall|k: u64| #[trigger]
        devices.contains_key(k) ==> exists|i: int| 0 <= i < list.len() && (#[trigger] list[i]).0 == k
}

/// The first device of a list with a given address.
pub open spec fn first_with(list: Seq<PairedDevice>, k: u64) -> Option<PairedDevice>
    decreases list.len(),
{
    if list.len() == 0 {
        None
    } else if first_with(list.drop_last(), k) is Some {
        first_with(list.drop_last(), k)
    } else if list.last().addr.value == k {
        Some(list.last())
    } else {
        None
    }
}

/// Filing a list never changes what is known of a device, and files the first of those in the
/// list that share an address.
pub proof fn merging_keeps_the_known(
    devices: Map<u64, PairedDevice>,
    list: Seq<PairedDevice>,
    k: u64,
)
    ensures
        merged(devices, list).contains_key(k) <==> devices.contains_key(k) || first_with(
            list,
            k,
        ) is Some,
        devices.contains_key(k) ==> merged(devices, list)[k] == devices[k],
        !devices.contains_key(k) && first_with(list, k) is Some ==> merged(devices, list)[k]
            == first_with(list, k)->0,
    decreases list.len(),
{
    if list.len() > 0 {
        merging_keeps_the_known(devices, list.drop_last(), k);
    }
}

/// In a list without two devices of one address, the device found at an address is any that has
/// it.
proof fn only_with(list: Seq<PairedDevice>, k: u64)
    requires
        forall|i: int, j: int|
            0 <= i < j < list.len() ==> (#[trigger] list[i]).addr.value < (
            #[trigger] list[j]).addr.value,
    ensures
        first_with(list, k) matches Some(d) ==> d.addr.value == k && list.contains(d),
        forall|d: PairedDevice| #[trigger]
            list.contains(d) && d.addr.value == k ==> first_with(list, k) == Some(d),
    decreases list.len(),
{
    if list.len() > 0 {
        let rest = list.drop_last();
        only_with(rest, k);
        if let Some(d) = first_with(rest, k) {
            let i = rest.index_of(d);
            assert(list[i] == d);
        } else if list.last().addr.value == k {
            assert(list.contains(list.last()));
        }
        assert forall|d: PairedDevice| #[trigger]
            list.contains(d) && d.addr.value == k implies first_with(list, k) == Some(d) by {
            let i = list.index_of(d);
            if i < rest.len() {
                assert(rest[i] == d);
                assert(rest.contains(d));
            } else if let Some(e) = first_with(rest, k) {
                let j = rest.index_of(e);
                assert(list[j] == e);
            }
        }
    }
}

/// Filing a list keeps every device under its own address.
pub proof fn merging_keeps_devices_filed(devices: Map<u64, PairedDevice>, list: Seq<PairedDevice>)
    requires
        filed(devices),
    ensures
        filed(merged(devices, list)),
    decreases list.len(),
{
    if list.len() > 0 {
        merging_keeps_devices_filed(devices, list.drop_last());
    }
}

/// What is saved is settled by the devices: there is one list of those that have a key.
pub proof fn valid_list_is_unique(
    devices: Map<u64, PairedDevice>,
    a: Seq<PairedDevice>,
    b: Seq<PairedDevice>,
)
    requires
        is_valid_list(devices, a),
        is_valid_list(devices, b),
    ensures
        a == b,
{
    same_sorted(a, b);
}

proof fn same_sorted(a: Seq<PairedDevice>, b: Seq<PairedDevice>)
    requires
        forall|i: int, j: int|
            0 <= i < j < a.len() ==> (#[trigger] a[i]).addr.value < (#[trigger] a[j]).addr.value,
        forall|i: int, j: int|
            0 <= i < j < b.len() ==> (#[trigger] b[i]).addr.value < (#[trigger] b[j]).addr.value,
        forall|d: PairedDevice| #[trigger] a.contains(d) <==> b.contains(d),
    ensures
        a == b,
    decreases a.len(),
{
    if a.len() == 0 {
        if b.len() > 0 {
            assert(b.contains(b[0]));
            assert(a.contains(b[0]));
        }
    } else {
        assert(a.contains(a.last()));
        let i = b.index_of(a.last());
        assert(b.contains(b.last()));
        assert(a.contains(b.last()));
        let j = a.index_of(b.last());
        assert(b[i] == a.last() && a[j] == b.last());
        assert(i == b.len() - 1) by {
            if i < b.len() - 1 {
                assert(b[i].addr.value < b[b.len() - 1].addr.value);
                if j < a.len() - 1 {
                    assert(a[j].addr.value < a[a.len() - 1].addr.value);
                }
            }
        }
        let x = a.drop_last();
        let y = b.drop_last();
        assert forall|d: PairedDevice| #[trigger] x.contains(d) <==> y.contains(d) by {
            if x.contains(d) {
                let n = x.index_of(d);
                assert(a[n] == d);
                assert(a.contains(d));
                let m = b.index_of(d);
                assert(b[m] == d);
                assert(a[n].addr.value < a[a.len() - 1].addr.value);
                assert(y[m] == d);
            }
            if y.contains(d) {
                let n = y.index_of(d);
                assert(b[n] == d);
                assert(b.contains(d));
                assert(a.contains(d));
                let m = a.index_of(d);
                assert(a[m] == d);
                assert(b[n].addr.value < b[b.len() - 1].addr.value);
                assert(x[m] == d);
            }
        }
        same_sorted(x, y);
        assert(a =~= x.push(a.last()));
        assert(b =~= y.push(b.last()));
    }
}

/// Pairings outlive the program: filing what was saved, where nothing is known yet, brings back
/// exactly the devices that had a key.
pub proof fn saved_devices_come_back(devices: Map<u64, PairedDevice>, saved: Seq<PairedDevice>)
    requires
        filed(devices),
        is_valid_list(devices, saved),
    ensures
        ({
            let back = merged(Map::<u64, PairedDevice>::empty(), saved);
            &&& forall|k: u64| #[trigger]
                back.contains_key(k) <==> devices.contains_key(k) && devices[k].has_key()
            &&& forall|k: u64| #[trigger] back.contains_key(k) ==> back[k] == devices[k]
        }),
{
    let none = Map::<u64, PairedDevice>::empty();
    let back = merged(none, saved);
    assert forall|k: u64|
        (#[trigger] back.contains_key(k) <==> devices.contains_key(k) && devices[k].has_key()) && (
        back.contains_key(k) ==> back[k] == devices[k]) by {
        merging_keeps_the_known(none, saved, k);
        only_with(saved, k);
        if devices.contains_key(k) && devices[k].has_key() {
            assert(saved.contains(devices[k]));
        }
    }
}

}
