//! What holds of every run of the event handler.
//!
//! The statements are about the state machine of [`crate::model`], which the
//! executable handler is proved to follow.

use vstd::prelude::*;
use crate::device::{
    DeviceView, SdlDeviceInfo, kind_controller, kind_keyboard, kind_mouse, lemma_kinds_differ,
};
use crate::bridge::ViiperEventView;
use crate::model::{
    HandleReading, HandlerEventView, HandlerView, InputEventView, ProbeView, Surroundings,
    device_ok, lemma_added_wf, lemma_ignored_wf, lemma_kbm_switched_wf, lemma_refreshed_all_wf,
    lemma_remote_event_wf, lemma_remove_device, lemma_remove_other_device, lemma_removed_wf,
    lemma_same_tables_wf, lemma_update_completed_wf, lemma_update_keeps_ids, source_ids,
};
use crate::registry::{
    carries_ids, device_pos, has_device, ids, info_pos, is_clone, lemma_ordered_pos,
};
use crate::seqs::{
    lemma_first_index, lemma_first_index_bounds, lemma_first_index_contains,
    lemma_first_index_push, lemma_remove_unique,
};

verus! {

/// Whether the device at position `i` has source `which`.
pub open spec fn owns(devices: Seq<DeviceView>, i: int, which: u32) -> bool {
    0 <= i < devices.len() && devices[i].sdl_ids.contains(which)
}

/// Whether exactly one device of the registry has source `which`.
pub open spec fn sole_owner(devices: Seq<DeviceView>, which: u32) -> bool {
    exists|i: int|
        #![trigger owns(devices, i, which)]
        owns(devices, i, which) && forall|j: int| #[trigger]
            owns(devices, j, which) ==> j == i
}

/// Whether some device of the registry has source `which`.
pub open spec fn has_owner(devices: Seq<DeviceView>, which: u32) -> bool {
    exists|i: int| #[trigger] owns(devices, i, which)
}

/// Whether source `which` is indexed to a device that is in the registry.
pub open spec fn indexed_to_present(h: HandlerView, which: u32) -> bool {
    h.has_source(which) && has_device(h.devices, h.index[h.source_pos(which)].device_id)
}

/// A source stands for at most one device: no two entries of the index
/// have the same source.
pub proof fn lemma_source_has_one_device(h: HandlerView, p: int, q: int)
    requires
        h.wf(),
        0 <= p < h.index.len(),
        0 <= q < h.index.len(),
        h.index[p].source_id == h.index[q].source_id,
    ensures
        p == q,
{
    assert(source_ids(h.index)[p] == source_ids(h.index)[q]);
}

/// The stream of a device stands only while the device has a virtual device.
pub proof fn lemma_streaming_device_has_remote(h: HandlerView, i: int)
    requires
        h.wf(),
        0 <= i < h.devices.len(),
        h.devices[i].viiper_connected,
    ensures
        h.devices[i].viiper_device.is_some(),
{
    assert(device_ok(h.devices[i]));
}

/// Every device of the registry that is not emulated has a source; a
/// controller in particular has one.
pub proof fn lemma_registered_devices_have_sources(h: HandlerView, i: int)
    requires
        h.wf(),
        0 <= i < h.devices.len(),
    ensures
        h.devices[i].sdl_ids.len() > 0 || h.devices[i].emulated(),
        h.devices[i].viiper_type == kind_controller() ==> h.devices[i].sdl_ids.len() > 0,
{
    assert(device_ok(h.devices[i]));
    lemma_kinds_differ();
}

/// A source that is indexed to a device of the registry belongs to that
/// device and to no other.
pub proof fn lemma_indexed_source_has_sole_owner(h: HandlerView, which: u32)
    requires
        h.wf(),
        indexed_to_present(h, which),
    ensures
        sole_owner(h.devices, which),
        owns(h.devices, device_pos(h.devices, h.index[h.source_pos(which)].device_id), which),
{
    let p = h.source_pos(which);
    lemma_first_index_bounds(source_ids(h.index), which);
    assert(source_ids(h.index)[p] == which);
    let e = h.index[p];
    let dp = device_pos(h.devices, e.device_id);
    lemma_first_index_bounds(ids(h.devices), e.device_id);
    assert(ids(h.devices)[dp] == e.device_id);
    assert(h.entry_owned(e));
    assert(h.devices[dp].sdl_ids[0] == which);
    assert(owns(h.devices, dp, which));
    assert forall|j: int| #[trigger] owns(h.devices, j, which) implies j == dp by {
        let x = h.devices[j];
        assert(device_ok(x));
        assert(h.source_indexed(x));
        let k = choose|k: int| 0 <= k < x.sdl_ids.len() && x.sdl_ids[k] == which;
        assert(x.sdl_ids[0] == which);
        assert(x.id == e.device_id);
        lemma_ordered_pos(h.devices, j);
    }
}

/// A device of the registry has a source only if the source is indexed to it.
pub proof fn lemma_owned_source_is_indexed(h: HandlerView, which: u32)
    requires
        h.wf(),
        has_owner(h.devices, which),
    ensures
        indexed_to_present(h, which),
{
    let i = choose|i: int| #[trigger] owns(h.devices, i, which);
    let x = h.devices[i];
    assert(device_ok(x));
    assert(h.source_indexed(x));
    let k = choose|k: int| 0 <= k < x.sdl_ids.len() && x.sdl_ids[k] == which;
    assert(x.sdl_ids[0] == which);
    lemma_ordered_pos(h.devices, i);
}

/// In every reachable state a device with source `which` is in the registry
/// exactly when the source is indexed to a device of the registry, and then
/// it is the only one.
pub proof fn lemma_present_iff_sourced(h: HandlerView, which: u32)
    requires
        h.wf(),
    ensures
        has_owner(h.devices, which) <==> indexed_to_present(h, which),
        has_owner(h.devices, which) ==> sole_owner(h.devices, which),
{
    if has_owner(h.devices, which) {
        lemma_owned_source_is_indexed(h, which);
    }
    if indexed_to_present(h, which) {
        lemma_indexed_source_has_sole_owner(h, which);
    }
}

/// The openings that are left to a device when one through the given API is removed.
pub open spec fn infos_after_removal(infos: Seq<SdlDeviceInfo>, is_joystick: bool) -> Seq<
    SdlDeviceInfo,
> {
    let k = info_pos(infos, !is_joystick);
    if 0 <= k < infos.len() {
        infos.remove(k)
    } else {
        infos
    }
}

/// A removal erases the device of the source from the registry and the
/// source from the index exactly when no opening is left to the device;
/// while an opening is left, the device stays with its source.
pub proof fn lemma_device_leaves_with_last_source(h: HandlerView, which: u32, is_joystick: bool)
    requires
        h.wf(),
        indexed_to_present(h, which),
    ensures
        ({
            let id = h.index[h.source_pos(which)].device_id;
            let d = h.devices[device_pos(h.devices, id)];
            let g = h.removed(which, is_joystick).state;
            if infos_after_removal(d.sdl_device_infos, is_joystick).len() == 0 {
                !has_device(g.devices, id) && !g.has_source(which) && !has_owner(g.devices, which)
            } else {
                has_device(g.devices, id) && g.has_source(which) && sole_owner(g.devices, which)
            }
        }),
{
    let p = h.source_pos(which);
    lemma_first_index_bounds(source_ids(h.index), which);
    assert(source_ids(h.index)[p] == which);
    let e = h.index[p];
    let id = e.device_id;
    let dp = device_pos(h.devices, id);
    lemma_first_index_bounds(ids(h.devices), id);
    assert(ids(h.devices)[dp] == id);
    let d = h.devices[dp];
    assert(h.entry_owned(e));
    assert(device_ok(d));
    let g = h.removed(which, is_joystick).state;
    lemma_removed_wf(h, which, is_joystick);
    let infos = infos_after_removal(d.sdl_device_infos, is_joystick);
    if infos.len() == 0 {
        assert(d.sdl_ids.remove_value(which) =~= Seq::<u32>::empty()) by {
            d.sdl_ids.index_of_first_ensures(which);
            assert(d.sdl_ids[0] == which);
        }
        lemma_remove_device(h.devices, dp);
        assert(source_ids(g.index) =~= source_ids(h.index).remove(p));
        lemma_remove_unique(source_ids(h.index), p);
        if has_owner(g.devices, which) {
            lemma_owned_source_is_indexed(g, which);
        }
    } else {
        lemma_update_keeps_ids(h.devices, dp, DeviceView { sdl_device_infos: infos, ..d });
        lemma_indexed_source_has_sole_owner(g, which);
    }
}

/// The state after source `which` was added once for each probe, in order.
pub open spec fn after_adds(h: HandlerView, which: u32, probes: Seq<ProbeView>) -> HandlerView
    decreases probes.len(),
{
    if probes.len() == 0 {
        h
    } else {
        after_adds(h, which, probes.drop_last()).added(which, probes.last()).state
    }
}

/// An addition that is not the copy of a bridged device leaves every
/// virtual device as it is and adds none, so that the same sources are
/// copies afterwards as before.
pub proof fn lemma_add_keeps_copies(
    h: HandlerView,
    which: u32,
    probe: ProbeView,
    pair: (Seq<char>, Seq<char>),
)
    requires
        h.wf(),
        !h.is_copy(probe),
    ensures
        is_clone(h.added(which, probe).state.devices, pair) == is_clone(h.devices, pair),
{
    let g = h.added(which, probe).state;
    let p = h.source_pos(which);
    let n = h.devices.len() as int;
    if h.has_source(which) {
        if has_device(h.devices, h.index[p].device_id) {
            let dp = device_pos(h.devices, h.index[p].device_id);
            lemma_first_index_bounds(ids(h.devices), h.index[p].device_id);
            assert(g.devices.len() == n);
            assert forall|i: int| 0 <= i < n implies carries_ids(g.devices[i], pair)
                == carries_ids(h.devices[i], pair) by {
                if i != dp {
                    assert(g.devices[i] == h.devices[i]);
                }
            }
            if is_clone(h.devices, pair) {
                let i = choose|i: int| 0 <= i < n && carries_ids(#[trigger] h.devices[i], pair);
                assert(carries_ids(g.devices[i], pair));
            }
            if is_clone(g.devices, pair) {
                let i = choose|i: int| 0 <= i < n && carries_ids(#[trigger] g.devices[i], pair);
                assert(carries_ids(h.devices[i], pair));
            }
        }
    } else if h.next_device_id != u64::MAX {
        assert(g.devices.len() == n + 1);
        assert(!carries_ids(g.devices[n], pair));
        if is_clone(h.devices, pair) {
            let i = choose|i: int| 0 <= i < n && carries_ids(#[trigger] h.devices[i], pair);
            assert(g.devices[i] == h.devices[i]);
            assert(carries_ids(g.devices[i], pair));
        }
        if is_clone(g.devices, pair) {
            let i = choose|i: int|
                0 <= i < g.devices.len() && carries_ids(#[trigger] g.devices[i], pair);
            assert(g.devices[i] == h.devices[i]);
            assert(carries_ids(h.devices[i], pair));
        }
    }
}

/// An addition that is not the copy of a bridged device, for a source that
/// is new or stands for a device of the registry, leaves the source indexed
/// to a device of the registry, as long as an id is left to give.
pub proof fn lemma_add_indexes_source(h: HandlerView, which: u32, probe: ProbeView)
    requires
        h.wf(),
        !h.is_copy(probe),
        h.has_source(which) ==> indexed_to_present(h, which),
        h.has_source(which) || h.next_device_id < u64::MAX,
    ensures
        indexed_to_present(h.added(which, probe).state, which),
{
    let g = h.added(which, probe).state;
    let p = h.source_pos(which);
    if h.has_source(which) {
        let id = h.index[p].device_id;
        let dp = device_pos(h.devices, id);
        lemma_first_index_bounds(ids(h.devices), id);
        assert(ids(h.devices)[dp] == id);
        let x = g.devices[dp];
        assert(g.devices =~= h.devices.update(dp, x));
        assert(x.id == h.devices[dp].id);
        lemma_update_keeps_ids(h.devices, dp, x);
        assert(g.index == h.index);
        assert(has_device(h.devices.update(dp, x), id) == has_device(h.devices, id));
    } else {
        let d = h.new_device(which, probe);
        lemma_first_index_push(source_ids(h.index), which, which);
        assert(source_ids(g.index) =~= source_ids(h.index).push(which));
        assert(ids(g.devices) =~= ids(h.devices).push(d.id));
        assert forall|k: int| 0 <= k < h.devices.len() implies ids(h.devices)[k] != d.id by {
            assert(h.devices[k].id < h.next_device_id);
        }
        lemma_first_index(ids(h.devices), d.id, h.devices.len() as int);
        lemma_first_index_push(ids(h.devices), d.id, d.id);
        lemma_first_index_bounds(source_ids(h.index), which);
        assert(g.source_pos(which) == h.index.len());
        assert(g.index[g.source_pos(which)].device_id == d.id);
    }
}

/// However often a source is added, through whichever of the two input
/// APIs, exactly one logical device stands for it afterwards.
///
/// This holds of additions that are not taken for copies of a bridged
/// device, of a source that is new or stands for a device of the registry
/// (not for one that the user had ignored), while an id is left to give.
pub proof fn lemma_adds_give_one_device(h: HandlerView, which: u32, probes: Seq<ProbeView>)
    requires
        h.wf(),
        probes.len() > 0,
        forall|k: int| 0 <= k < probes.len() ==> !h.is_copy(#[trigger] probes[k]),
        h.has_source(which) ==> indexed_to_present(h, which),
        h.has_source(which) || h.next_device_id < u64::MAX,
    ensures
        after_adds(h, which, probes).wf(),
        indexed_to_present(after_adds(h, which, probes), which),
        sole_owner(after_adds(h, which, probes).devices, which),
    decreases probes.len(),
{
    let shorter = probes.drop_last();
    let last = probes.last();
    let mid = after_adds(h, which, shorter);
    lemma_adds_keep_copies(h, which, shorter, last.pair());
    if shorter.len() > 0 {
        assert forall|k: int| 0 <= k < shorter.len() implies !h.is_copy(#[trigger] shorter[k]) by {
            assert(shorter[k] == probes[k]);
        }
        lemma_adds_give_one_device(h, which, shorter);
    } else {
        assert(mid == h);
    }
    assert(!mid.is_copy(last));
    lemma_added_wf(mid, which, last);
    lemma_add_indexes_source(mid, which, last);
    lemma_indexed_source_has_sole_owner(after_adds(h, which, probes), which);
}

/// Additions that are not copies of bridged devices do not change which
/// sources are copies.
pub proof fn lemma_adds_keep_copies(
    h: HandlerView,
    which: u32,
    probes: Seq<ProbeView>,
    pair: (Seq<char>, Seq<char>),
)
    requires
        h.wf(),
        forall|k: int| 0 <= k < probes.len() ==> !h.is_copy(#[trigger] probes[k]),
    ensures
        after_adds(h, which, probes).wf(),
        is_clone(after_adds(h, which, probes).devices, pair) == is_clone(h.devices, pair),
    decreases probes.len(),
{
    if probes.len() > 0 {
        let shorter = probes.drop_last();
        let last = probes.last();
        assert forall|k: int| 0 <= k < shorter.len() implies !h.is_copy(#[trigger] shorter[k]) by {
            assert(shorter[k] == probes[k]);
        }
        lemma_adds_keep_copies(h, which, shorter, pair);
        lemma_adds_keep_copies(h, which, shorter, last.pair());
        let mid = after_adds(h, which, shorter);
        assert(!mid.is_copy(last));
        lemma_added_wf(mid, which, last);
        lemma_add_keeps_copies(mid, which, last, pair);
    }
}

/// The addition of a gamepad whose ids are those of a virtual device of the
/// registry creates no device: no id is given out, no device joins the
/// registry, and no handle is kept. A device that stood for the same source
/// through the joystick API loses that opening as by a removal, and is
/// erased with its index entry if that was its only opening.
pub proof fn lemma_copy_creates_no_device(h: HandlerView, which: u32, probe: ProbeView)
    requires
        h.wf(),
        h.is_copy(probe),
    ensures
        ({
            let o = h.added(which, probe);
            &&& o.state.next_device_id == h.next_device_id
            &&& o.state.devices.len() <= h.devices.len()
            &&& forall|id: u64| has_device(o.state.devices, id) ==> has_device(h.devices, id)
            &&& h.tracked_as_joystick(which) ==> o == h.removed(which, true)
            &&& !h.tracked_as_joystick(which) ==> o.state == h && o.actions.len() == 0
            &&& (h.tracked_as_joystick(which) && h.devices[device_pos(
                h.devices,
                h.index[h.source_pos(which)].device_id,
            )].sdl_device_infos.len() == 1) ==> (!has_device(
                o.state.devices,
                h.index[h.source_pos(which)].device_id,
            ) && !o.state.has_source(which) && !has_owner(o.state.devices, which))
        }),
{
    let o = h.added(which, probe);
    if h.tracked_as_joystick(which) {
        let p = h.source_pos(which);
        let id = h.index[p].device_id;
        let dp = device_pos(h.devices, id);
        lemma_first_index_bounds(ids(h.devices), id);
        let d = h.devices[dp];
        lemma_device_leaves_with_last_source(h, which, true);
        assert forall|x: u64| has_device(o.state.devices, x) implies has_device(h.devices, x) by {
            let infos = infos_after_removal(d.sdl_device_infos, true);
            if infos.len() > 0 {
                lemma_update_keeps_ids(h.devices, dp, o.state.devices[dp]);
                assert(o.state.devices =~= h.devices.update(dp, o.state.devices[dp]));
            } else {
                let sources = d.sdl_ids.remove_value(which);
                if sources.len() > 0 {
                    lemma_update_keeps_ids(h.devices, dp, o.state.devices[dp]);
                    assert(o.state.devices =~= h.devices.update(dp, o.state.devices[dp]));
                } else {
                    if x != d.id {
                        lemma_remove_other_device(h.devices, dp, x);
                    } else {
                        lemma_remove_device(h.devices, dp);
                    }
                }
            }
        }
        if d.sdl_device_infos.len() == 1 {
            let i = choose|i: int|
                0 <= i < d.sdl_device_infos.len() && !(#[trigger] d.sdl_device_infos[i]).is_gamepad;
            assert(i == 0);
            let kinds = d.sdl_device_infos.map_values(|x: SdlDeviceInfo| x.is_gamepad);
            assert(kinds[0] == false);
            lemma_first_index(kinds, false, 0);
            assert(infos_after_removal(d.sdl_device_infos, true).len() == 0);
        }
    }
}

/// Whether the registry `after` holds, besides devices of the registry
/// `before`, only devices whose ids were not given out when the next id was
/// `next`.
pub open spec fn only_fresh_ids(before: Seq<DeviceView>, next: u64, after: Seq<DeviceView>) -> bool {
    forall|id: u64| #[trigger] has_device(after, id) ==> has_device(before, id) || id >= next
}

/// Whether the step from `h` to `g` gives out ids in rising order and uses
/// none twice: the next id does not fall, and a device that joined the
/// registry has an id that was not given out before.
pub open spec fn ids_advance(h: HandlerView, g: HandlerView) -> bool {
    g.next_device_id >= h.next_device_id && only_fresh_ids(
        h.devices,
        h.next_device_id,
        g.devices,
    )
}

/// Two steps that each give out ids in rising order do so together.
pub proof fn lemma_ids_advance_twice(a: HandlerView, b: HandlerView, c: HandlerView)
    requires
        ids_advance(a, b),
        ids_advance(b, c),
    ensures
        ids_advance(a, c),
{
    assert forall|id: u64| #[trigger] has_device(c.devices, id) implies has_device(a.devices, id)
        || id >= a.next_device_id by {
        if has_device(b.devices, id) {
        }
    }
}

/// Replacing a device by one with the same id brings no device in.
pub proof fn lemma_replace_brings_none(devices: Seq<DeviceView>, next: u64, i: int, d: DeviceView)
    requires
        0 <= i < devices.len(),
        d.id == devices[i].id,
    ensures
        only_fresh_ids(devices, next, devices.update(i, d)),
{
    lemma_update_keeps_ids(devices, i, d);
}

/// Taking a device out brings no device in.
pub proof fn lemma_removal_brings_none(devices: Seq<DeviceView>, next: u64, i: int)
    requires
        0 <= i < devices.len(),
    ensures
        only_fresh_ids(devices, next, devices.remove(i)),
{
    let r = devices.remove(i);
    assert forall|id: u64| #[trigger] has_device(r, id) implies has_device(devices, id) by {
        if id != devices[i].id {
            lemma_remove_other_device(devices, i, id);
        } else {
            lemma_first_index_bounds(ids(devices), id);
            assert(ids(devices)[i] == id);
            let q = device_pos(devices, id);
            assert(ids(devices).contains(id));
            lemma_first_index_contains(ids(devices), id);
        }
    }
}

/// Appending a device brings in that device only.
pub proof fn lemma_push_brings_one(devices: Seq<DeviceView>, d: DeviceView)
    ensures
        only_fresh_ids(devices, d.id, devices.push(d)),
{
    let g = devices.push(d);
    assert(ids(g) =~= ids(devices).push(d.id));
    assert forall|id: u64| #[trigger] has_device(g, id) implies has_device(devices, id) || id
        >= d.id by {
        lemma_first_index_push(ids(devices), d.id, id);
        lemma_first_index_bounds(ids(devices), id);
    }
}

/// A removal gives out no id.
pub proof fn lemma_removed_ids(h: HandlerView, which: u32, is_joystick: bool)
    requires
        h.wf(),
    ensures
        ids_advance(h, h.removed(which, is_joystick).state),
{
    let g = h.removed(which, is_joystick).state;
    let p = h.source_pos(which);
    if h.has_source(which) && has_device(h.devices, h.index[p].device_id) {
        let id = h.index[p].device_id;
        let dp = device_pos(h.devices, id);
        lemma_first_index_bounds(ids(h.devices), id);
        let d = h.devices[dp];
        let infos = infos_after_removal(d.sdl_device_infos, is_joystick);
        if infos.len() > 0 {
            lemma_replace_brings_none(h.devices, h.next_device_id, dp, g.devices[dp]);
            assert(g.devices =~= h.devices.update(dp, g.devices[dp]));
        } else if d.sdl_ids.remove_value(which).len() > 0 {
            lemma_replace_brings_none(h.devices, h.next_device_id, dp, g.devices[dp]);
            assert(g.devices =~= h.devices.update(dp, g.devices[dp]));
        } else {
            lemma_removal_brings_none(h.devices, h.next_device_id, dp);
        }
    }
}

/// An addition gives out at most the next id.
pub proof fn lemma_added_ids(h: HandlerView, which: u32, probe: ProbeView)
    requires
        h.wf(),
    ensures
        ids_advance(h, h.added(which, probe).state),
{
    let g = h.added(which, probe).state;
    let p = h.source_pos(which);
    if h.is_copy(probe) {
        if h.tracked_as_joystick(which) {
            lemma_removed_ids(h, which, true);
        }
    } else if h.has_source(which) {
        if has_device(h.devices, h.index[p].device_id) {
            let dp = device_pos(h.devices, h.index[p].device_id);
            lemma_first_index_bounds(ids(h.devices), h.index[p].device_id);
            lemma_replace_brings_none(h.devices, h.next_device_id, dp, g.devices[dp]);
            assert(g.devices =~= h.devices.update(dp, g.devices[dp]));
        }
    } else if h.next_device_id != u64::MAX {
        lemma_push_brings_one(h.devices, h.new_device(which, probe));
    }
}

/// Creating an emulated device gives out at most the next id.
pub proof fn lemma_with_emulated_ids(h: HandlerView, kind: Seq<char>)
    ensures
        ids_advance(h, h.with_emulated(kind).state),
{
    if h.next_device_id != u64::MAX {
        lemma_push_brings_one(h.devices, DeviceView::blank(h.next_device_id, kind));
    }
}

/// A refresh of the platform handles gives out no id.
pub proof fn lemma_refreshed_ids(h: HandlerView, readings: Seq<HandleReading>)
    requires
        h.wf(),
    ensures
        ids_advance(h, h.refreshed_all(readings).state),
    decreases readings.len(),
{
    if readings.len() > 0 {
        let mid = h.refreshed_all(readings.drop_last()).state;
        lemma_refreshed_ids(h, readings.drop_last());
        lemma_refreshed_all_wf(h, readings.drop_last());
        let g = mid.refreshed_one(readings.last()).state;
        match readings.last().instance_id {
            None => {},
            Some(which) => {
                let p = mid.source_pos(which);
                if mid.has_source(which) && has_device(mid.devices, mid.index[p].device_id) {
                    let dp = device_pos(mid.devices, mid.index[p].device_id);
                    lemma_first_index_bounds(ids(mid.devices), mid.index[p].device_id);
                    lemma_replace_brings_none(mid.devices, mid.next_device_id, dp, g.devices[dp]);
                    assert(g.devices =~= mid.devices.update(dp, g.devices[dp]));
                }
            },
        }
        lemma_ids_advance_twice(h, mid, g);
    }
}

/// An event from the bridge gives out no id.
pub proof fn lemma_remote_event_ids(h: HandlerView, event: ViiperEventView)
    requires
        h.wf(),
    ensures
        ids_advance(h, h.remote_event(event).state),
{
    let g = h.remote_event(event).state;
    let id = match event {
        ViiperEventView::ServerDisconnected { device_id } => device_id,
        ViiperEventView::DeviceCreated { device_id, .. } => device_id,
        ViiperEventView::DeviceConnected { device_id } => device_id,
        ViiperEventView::DeviceRumble { device_id, .. } => device_id,
        ViiperEventView::ErrorCreateDevice { device_id } => device_id,
        ViiperEventView::ErrorConnectDevice { device_id } => device_id,
    };
    if has_device(h.devices, id) {
        let dp = device_pos(h.devices, id);
        lemma_first_index_bounds(ids(h.devices), id);
        assert(ids(h.devices)[dp] == id);
        if g.devices != h.devices {
            lemma_replace_brings_none(h.devices, h.next_device_id, dp, g.devices[dp]);
            assert(g.devices =~= h.devices.update(dp, g.devices[dp]));
        }
    }
}

/// Removing the emulated devices gives out no id.
pub proof fn lemma_purged_ids(h: HandlerView, n: nat)
    ensures
        ids_advance(h, h.purged(n)),
    decreases n,
{
    if n == 0 || n > h.devices.len() {
    } else {
        let d = h.devices[n - 1];
        if d.emulated() {
            let next = HandlerView {
                devices: h.devices.remove(n - 1),
                bridge: h.bridge.without(d.id),
                ..h
            };
            lemma_removal_brings_none(h.devices, h.next_device_id, n - 1);
            lemma_purged_ids(next, (n - 1) as nat);
            lemma_ids_advance_twice(h, next, h.purged(n));
        } else {
            lemma_purged_ids(h, (n - 1) as nat);
        }
    }
}

/// Switching keyboard and mouse emulation gives out ids in rising order.
pub proof fn lemma_kbm_switched_ids(h: HandlerView, enabled: bool)
    ensures
        ids_advance(h, h.kbm_switched(enabled).state),
{
    if h.kbm_emulation_enabled != enabled {
        let base = HandlerView { kbm_emulation_enabled: enabled, ..h };
        assert(ids_advance(h, base));
        if enabled {
            let mid = base.ensured_emulated(kind_keyboard()).state;
            lemma_with_emulated_ids(base, kind_keyboard());
            lemma_with_emulated_ids(mid, kind_mouse());
            let g = mid.ensured_emulated(kind_mouse()).state;
            assert(ids_advance(base, mid));
            assert(ids_advance(mid, g));
            lemma_ids_advance_twice(base, mid, g);
            lemma_ids_advance_twice(h, base, g);
        } else {
            lemma_purged_ids(base, base.devices.len());
            lemma_ids_advance_twice(h, base, base.purged(base.devices.len()));
        }
    }
}

/// Every event of the input loop leads from a reachable state to a
/// reachable state.
pub proof fn lemma_processed_wf(h: HandlerView, event: InputEventView, around: Surroundings)
    requires
        h.wf(),
    ensures
        h.processed(event, around).0.wf(),
{
    let g = h.processed(event, around).0;
    match event {
        InputEventView::Quit => {},
        InputEventView::PadAdded { which, probe } => {
            lemma_added_wf(h, which, probe);
        },
        InputEventView::PadRemoved { which, is_joystick } => {
            lemma_removed_wf(h, which, is_joystick);
        },
        InputEventView::SteamHandleUpdated { readings } => {
            match readings {
                Some(rs) => {
                    lemma_refreshed_all_wf(h, rs);
                },
                None => {},
            }
        },
        InputEventView::UpdateComplete { which, snapshot } => {
            lemma_update_completed_wf(h, which, snapshot);
        },
        InputEventView::Handler(e) => {
            match e {
                HandlerEventView::ViiperEvent(v) => {
                    lemma_remote_event_wf(h, v);
                },
                HandlerEventView::IgnoreDevice { device_id } => {
                    lemma_ignored_wf(h, device_id);
                },
                HandlerEventView::SetKbmEmulationEnabled { enabled } => {
                    lemma_kbm_switched_wf(h, enabled);
                },
                _ => {
                    lemma_same_tables_wf(h, g);
                },
            }
        },
        InputEventView::Other => {},
    }
}

/// Ids are given out in rising order and never used twice: whatever the
/// event, the next id does not fall, and a device that the event brought
/// into the registry has an id that no device had before.
pub proof fn lemma_ids_are_never_reused(h: HandlerView, event: InputEventView, around: Surroundings)
    requires
        h.wf(),
    ensures
        ids_advance(h, h.processed(event, around).0),
        forall|id: u64|
            has_device(h.processed(event, around).0.devices, id) && !has_device(h.devices, id)
                ==> id >= h.next_device_id && id < h.processed(event, around).0.next_device_id,
{
    let g = h.processed(event, around).0;
    lemma_processed_wf(h, event, around);
    match event {
        InputEventView::PadAdded { which, probe } => {
            lemma_added_ids(h, which, probe);
        },
        InputEventView::PadRemoved { which, is_joystick } => {
            lemma_removed_ids(h, which, is_joystick);
        },
        InputEventView::SteamHandleUpdated { readings } => {
            match readings {
                Some(rs) => {
                    lemma_refreshed_ids(h, rs);
                },
                None => {},
            }
        },
        InputEventView::Handler(e) => {
            match e {
                HandlerEventView::ViiperEvent(v) => {
                    lemma_remote_event_ids(h, v);
                },
                HandlerEventView::IgnoreDevice { device_id } => {
                    if has_device(h.devices, device_id) {
                        lemma_first_index_bounds(ids(h.devices), device_id);
                        lemma_removal_brings_none(
                            h.devices,
                            h.next_device_id,
                            device_pos(h.devices, device_id),
                        );
                    }
                },
                HandlerEventView::SetKbmEmulationEnabled { enabled } => {
                    lemma_kbm_switched_ids(h, enabled);
                },
                _ => {},
            }
        },
        _ => {},
    }
    assert forall|id: u64| has_device(g.devices, id) && !has_device(h.devices, id) implies id
        >= h.next_device_id && id < g.next_device_id by {
        lemma_first_index_bounds(ids(g.devices), id);
        let i = device_pos(g.devices, id);
        assert(ids(g.devices)[i] == id);
        assert(g.devices[i].id < g.next_device_id);
    }
}

/// A refresh of the platform handles leaves the server's readiness as it is.
pub proof fn lemma_refreshed_keeps_readiness(h: HandlerView, readings: Seq<HandleReading>)
    ensures
        h.refreshed_all(readings).state.viiper_ready == h.viiper_ready,
    decreases readings.len(),
{
    if readings.len() > 0 {
        lemma_refreshed_keeps_readiness(h, readings.drop_last());
    }
}

/// Removing the emulated devices leaves the server's readiness as it is.
pub proof fn lemma_purged_keeps_readiness(h: HandlerView, n: nat)
    ensures
        h.purged(n).viiper_ready == h.viiper_ready,
    decreases n,
{
    if n == 0 || n > h.devices.len() {
    } else {
        let d = h.devices[n - 1];
        if d.emulated() {
            let next = HandlerView {
                devices: h.devices.remove(n - 1),
                bridge: h.bridge.without(d.id),
                ..h
            };
            lemma_purged_keeps_readiness(next, (n - 1) as nat);
        } else {
            lemma_purged_keeps_readiness(h, (n - 1) as nat);
        }
    }
}

/// Once the server was reported ready it stays so, whatever the event.
pub proof fn lemma_server_stays_ready(h: HandlerView, event: InputEventView, around: Surroundings)
    requires
        h.viiper_ready,
    ensures
        h.processed(event, around).0.viiper_ready,
{
    match event {
        InputEventView::SteamHandleUpdated { readings } => {
            match readings {
                Some(rs) => {
                    lemma_refreshed_keeps_readiness(h, rs);
                },
                None => {},
            }
        },
        InputEventView::Handler(e) => {
            match e {
                HandlerEventView::SetKbmEmulationEnabled { enabled } => {
                    let base = HandlerView { kbm_emulation_enabled: enabled, ..h };
                    lemma_purged_keeps_readiness(base, base.devices.len());
                },
                _ => {},
            }
        },
        _ => {},
    }
}

} // verus!
