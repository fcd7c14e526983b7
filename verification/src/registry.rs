//! The registry of logical devices.
//!
//! Devices are kept in the order in which they were created, which is the
//! order of their ids. The registry is modelled by the sequence of its
//! devices' contents.

use vstd::prelude::*;
use crate::device::{Device, DeviceView, SdlDeviceInfo, ViiperDevice, remote_view};
use crate::seqs::{first_index, lemma_first_index, lemma_remove_insert};
use crate::vid_pid::{same_ids, spec_same_ids};

verus! {

/// The contents of each device, in order.
pub open spec fn views(s: Seq<Device>) -> Seq<DeviceView> {
    s.map_values(|d: Device| d@)
}

/// The ids of the devices, in order.
pub open spec fn ids(devices: Seq<DeviceView>) -> Seq<u64> {
    devices.map_values(|d: DeviceView| d.id)
}

/// Where the device `id` stands; the length of the sequence if it is not there.
pub open spec fn device_pos(devices: Seq<DeviceView>, id: u64) -> int {
    first_index(ids(devices), id)
}

/// Whether the device `id` is there.
pub open spec fn has_device(devices: Seq<DeviceView>, id: u64) -> bool {
    0 <= device_pos(devices, id) < devices.len()
}

/// Through which API each opening went (whether through the gamepad API), in order.
pub open spec fn info_kinds(infos: Seq<SdlDeviceInfo>) -> Seq<bool> {
    infos.map_values(|i: SdlDeviceInfo| i.is_gamepad)
}

/// Where the first opening through the given API stands; the length if there is none.
pub open spec fn info_pos(infos: Seq<SdlDeviceInfo>, is_gamepad: bool) -> int {
    first_index(info_kinds(infos), is_gamepad)
}

/// Whether some device is bound to the platform and streaming.
pub open spec fn any_steam_bound(devices: Seq<DeviceView>) -> bool {
    exists|i: int| 0 <= i < devices.len() && (#[trigger] devices[i]).steam_bound()
}

/// Whether the device carries the pair of ids in its virtual device.
pub open spec fn carries_ids(d: DeviceView, pair: (Seq<char>, Seq<char>)) -> bool {
    match d.viiper_device {
        Some(r) => spec_same_ids(r.vid, r.pid, pair),
        None => false,
    }
}

/// Whether some device carries the pair of ids in its virtual device: a
/// gamepad that reports this pair is a copy of that virtual device.
pub open spec fn is_clone(devices: Seq<DeviceView>, pair: (Seq<char>, Seq<char>)) -> bool {
    exists|i: int| 0 <= i < devices.len() && carries_ids(#[trigger] devices[i], pair)
}

/// Whether the ids rise strictly along the sequence.
pub open spec fn ordered(devices: Seq<DeviceView>) -> bool {
    forall|i: int, j: int| 0 <= i < j < devices.len() ==> devices[i].id < devices[j].id
}

/// In an ordered sequence a device stands where `device_pos` says.
pub proof fn lemma_ordered_pos(devices: Seq<DeviceView>, i: int)
    requires
        ordered(devices),
        0 <= i < devices.len(),
    ensures
        device_pos(devices, devices[i].id) == i,
{
    let keys = ids(devices);
    assert forall|k: int| 0 <= k < i implies keys[k] != devices[i].id by {
        assert(devices[k].id < devices[i].id);
    }
    lemma_first_index(keys, devices[i].id, i);
}

/// The registry of logical devices.
pub struct Registry {
    devices: Vec<Device>,
}

impl View for Registry {
    type V = Seq<DeviceView>;

    closed spec fn view(&self) -> Seq<DeviceView> {
        views(self.devices@)
    }
}

impl Registry {
    /// An empty registry.
    pub fn new() -> (r: Self)
        ensures
            r@ == Seq::<DeviceView>::empty(),
    {
        let r = Registry { devices: Vec::new() };
        assert(r@ =~= Seq::<DeviceView>::empty());
        r
    }

    /// The number of devices.
    pub fn len(&self) -> (r: usize)
        ensures
            r == self@.len(),
    {
        self.devices.len()
    }

    /// The device at position `i`.
    pub fn get(&self, i: usize) -> (r: &Device)
        requires
            i < self@.len(),
        ensures
            r@ == self@[i as int],
    {
        &self.devices[i]
    }

    /// Where the device `id` stands.
    pub fn find(&self, id: u64) -> (r: Option<usize>)
        ensures
            match r {
                Some(i) => i == device_pos(self@, id) && has_device(self@, id) && self@[i as int].id
                    == id,
                None => !has_device(self@, id),
            },
    {
        let mut i: usize = 0;
        while i < self.devices.len()
            invariant
                i <= self.devices@.len(),
                forall|k: int| 0 <= k < i ==> ids(self@)[k] != id,
            decreases self.devices@.len() - i,
        {
            if self.devices[i].id == id {
                proof {
                    assert(ids(self@)[i as int] == id);
                    lemma_first_index(ids(self@), id, i as int);
                }
                return Some(i);
            }
            assert(ids(self@)[i as int] != id);
            i = i + 1;
        }
        proof {
            lemma_first_index(ids(self@), id, i as int);
        }
        None
    }

    /// The device `id`, if it is there.
    pub fn device(&self, id: u64) -> (r: Option<&Device>)
        ensures
            match r {
                Some(d) => has_device(self@, id) && d@ == self@[device_pos(self@, id)],
                None => !has_device(self@, id),
            },
    {
        match self.find(id) {
            Some(i) => Some(&self.devices[i]),
            None => None,
        }
    }

    /// Puts a device at the end.
    pub fn push(&mut self, d: Device)
        ensures
            final(self)@ == old(self)@.push(d@),
    {
        self.devices.push(d);
        assert(final(self)@ =~= old(self)@.push(d@));
    }

    /// Takes the device at position `i` out.
    pub fn remove(&mut self, i: usize) -> (r: Device)
        requires
            i < old(self)@.len(),
        ensures
            final(self)@ == old(self)@.remove(i as int),
            r@ == old(self)@[i as int],
    {
        let d: Device = self.devices.remove(i);
        assert(final(self)@ =~= old(self)@.remove(i as int));
        d
    }

    /// Puts `d` in the place of the device at position `i`.
    fn put_back(&mut self, i: usize, d: Device)
        requires
            i <= old(self)@.len(),
        ensures
            final(self)@ == old(self)@.insert(i as int, d@),
    {
        self.devices.insert(i, d);
        assert(final(self)@ =~= old(self)@.insert(i as int, d@));
    }

    /// Sets the platform handle of the device at position `i`.
    pub fn set_steam_handle(&mut self, i: usize, steam_handle: u64)
        requires
            i < old(self)@.len(),
        ensures
            final(self)@ == old(self)@.update(
                i as int,
                DeviceView { steam_handle, ..old(self)@[i as int] },
            ),
    {
        let mut d: Device = self.remove(i);
        d.steam_handle = steam_handle;
        proof {
            lemma_remove_insert(old(self)@, i as int, d@);
        }
        self.put_back(i, d);
    }

    /// Sets or clears the virtual device of the device at position `i`.
    pub fn set_viiper_device(&mut self, i: usize, viiper_device: Option<ViiperDevice>)
        requires
            i < old(self)@.len(),
        ensures
            final(self)@ == old(self)@.update(
                i as int,
                DeviceView { viiper_device: remote_view(viiper_device), ..old(self)@[i as int] },
            ),
    {
        let mut d: Device = self.remove(i);
        d.viiper_device = viiper_device;
        proof {
            lemma_remove_insert(old(self)@, i as int, d@);
        }
        self.put_back(i, d);
    }

    /// Sets whether the stream of the device at position `i` stands.
    pub fn set_viiper_connected(&mut self, i: usize, viiper_connected: bool)
        requires
            i < old(self)@.len(),
        ensures
            final(self)@ == old(self)@.update(
                i as int,
                DeviceView { viiper_connected, ..old(self)@[i as int] },
            ),
    {
        let mut d: Device = self.remove(i);
        d.viiper_connected = viiper_connected;
        proof {
            lemma_remove_insert(old(self)@, i as int, d@);
        }
        self.put_back(i, d);
    }

    /// Records one more opening of the device at position `i`.
    pub fn push_info(&mut self, i: usize, info: SdlDeviceInfo)
        requires
            i < old(self)@.len(),
        ensures
            final(self)@ == old(self)@.update(
                i as int,
                DeviceView {
                    sdl_device_infos: old(self)@[i as int].sdl_device_infos.push(info),
                    ..old(self)@[i as int]
                },
            ),
    {
        let mut d: Device = self.remove(i);
        d.sdl_device_infos.push(info);
        proof {
            lemma_remove_insert(old(self)@, i as int, d@);
        }
        self.put_back(i, d);
    }

    /// Where the first opening through the given API stands at the device at
    /// position `i`.
    pub fn find_info(&self, i: usize, is_gamepad: bool) -> (r: Option<usize>)
        requires
            i < self@.len(),
        ensures
            match r {
                Some(k) => k == info_pos(self@[i as int].sdl_device_infos, is_gamepad) && k
                    < self@[i as int].sdl_device_infos.len(),
                None => info_pos(self@[i as int].sdl_device_infos, is_gamepad)
                    == self@[i as int].sdl_device_infos.len(),
            },
    {
        let d: &Device = &self.devices[i];
        let ghost kinds = info_kinds(self@[i as int].sdl_device_infos);
        assert(d@ == self@[i as int]);
        let mut k: usize = 0;
        while k < d.sdl_device_infos.len()
            invariant
                i < self@.len(),
                d@ == self@[i as int],
                k <= d.sdl_device_infos@.len(),
                kinds == info_kinds(d.sdl_device_infos@),
                forall|j: int| 0 <= j < k ==> kinds[j] != is_gamepad,
            decreases d.sdl_device_infos@.len() - k,
        {
            if d.sdl_device_infos[k].is_gamepad == is_gamepad {
                proof {
                    assert(kinds[k as int] == is_gamepad);
                    lemma_first_index(kinds, is_gamepad, k as int);
                }
                return Some(k);
            }
            assert(kinds[k as int] != is_gamepad);
            k = k + 1;
        }
        proof {
            lemma_first_index(kinds, is_gamepad, k as int);
        }
        None
    }

    /// Forgets the opening at position `k` of the device at position `i`.
    pub fn remove_info(&mut self, i: usize, k: usize)
        requires
            i < old(self)@.len(),
            k < old(self)@[i as int].sdl_device_infos.len(),
        ensures
            final(self)@ == old(self)@.update(
                i as int,
                DeviceView {
                    sdl_device_infos: old(self)@[i as int].sdl_device_infos.remove(k as int),
                    ..old(self)@[i as int]
                },
            ),
    {
        let mut d: Device = self.remove(i);
        d.sdl_device_infos.remove(k);
        proof {
            lemma_remove_insert(old(self)@, i as int, d@);
        }
        self.put_back(i, d);
    }

    /// Takes the source `which` from the device at position `i`, if it has it.
    pub fn remove_source(&mut self, i: usize, which: u32)
        requires
            i < old(self)@.len(),
        ensures
            final(self)@ == old(self)@.update(
                i as int,
                DeviceView {
                    sdl_ids: old(self)@[i as int].sdl_ids.remove_value(which),
                    ..old(self)@[i as int]
                },
            ),
    {
        let mut d: Device = self.remove(i);
        let ghost before = d.sdl_ids@;
        let mut k: usize = 0;
        let mut found: bool = false;
        while k < d.sdl_ids.len()
            invariant_except_break
                !found,
            invariant
                k <= d.sdl_ids@.len(),
                d.sdl_ids@ == before,
                forall|j: int| 0 <= j < k ==> before[j] != which,
            ensures
                k <= d.sdl_ids@.len(),
                d.sdl_ids@ == before,
                forall|j: int| 0 <= j < k ==> before[j] != which,
                found ==> k < before.len() && before[k as int] == which,
                !found ==> k == before.len(),
            decreases d.sdl_ids@.len() - k,
        {
            if d.sdl_ids[k] == which {
                found = true;
                break;
            }
            k = k + 1;
        }
        proof {
            if found {
                assert(before.index_of_first(which) == Some(k as int)) by {
                    before.index_of_first_ensures(which);
                }
            } else {
                before.index_of_first_ensures(which);
                assert(!before.contains(which));
            }
        }
        if found {
            d.sdl_ids.remove(k);
        }
        proof {
            assert(d.sdl_ids@ =~= before.remove_value(which));
            lemma_remove_insert(old(self)@, i as int, d@);
        }
        self.put_back(i, d);
    }

    /// Whether some device is bound to the platform and streaming.
    pub fn any_steam_bound(&self) -> (r: bool)
        ensures
            r == any_steam_bound(self@),
    {
        let mut i: usize = 0;
        while i < self.devices.len()
            invariant
                i <= self.devices@.len(),
                forall|k: int| 0 <= k < i ==> !(#[trigger] self@[k]).steam_bound(),
            decreases self.devices@.len() - i,
        {
            if self.devices[i].steam_bound() {
                assert(self@[i as int].steam_bound());
                return true;
            }
            assert(!self@[i as int].steam_bound());
            i = i + 1;
        }
        false
    }

    /// Whether some device carries the pair of ids in its virtual device.
    pub fn is_clone(&self, real_vid: &str, real_pid: &str) -> (r: bool)
        ensures
            r == is_clone(self@, (real_vid@, real_pid@)),
    {
        let mut i: usize = 0;
        while i < self.devices.len()
            invariant
                i <= self.devices@.len(),
                forall|k: int|
                    0 <= k < i ==> !carries_ids(#[trigger] self@[k], (real_vid@, real_pid@)),
            decreases self.devices@.len() - i,
        {
            let hit: bool = match &self.devices[i].viiper_device {
                Some(remote) => same_ids(
                    remote.vid.as_str(),
                    remote.pid.as_str(),
                    real_vid,
                    real_pid,
                ),
                None => false,
            };
            assert(hit == carries_ids(self@[i as int], (real_vid@, real_pid@)));
            if hit {
                return true;
            }
            i = i + 1;
        }
        false
    }
}

} // verus!
