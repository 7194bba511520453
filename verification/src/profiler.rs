//! The tree of buses and devices, assembled from a flat list of devices.
use crate::error::Error;
use crate::order::{
    items_of, keyed_by, lemma_sort_same_items, lemma_sorted_alike, sort_keyed, sorted_by,
    stable_sort_of, with_key,
};
use crate::profiler::types::{
    bus_views, device_views, held_among, lemma_attach_all_where_parents, lemma_held_among,
    parents_before, Bus, BusView, Device, SystemProfile,
};
use itertools::Itertools;
use std::collections::HashMap;
use vstd::prelude::*;

pub mod filter;
pub mod mask;
pub mod operations;
pub mod platform;
pub mod sort;
pub mod types;

verus! {

broadcast use vstd::std_specs::hash::group_hash_axioms;

/// The key by which devices are sorted into buses: the number of the bus.
pub open spec fn bus_key() -> spec_fn(Device) -> int {
    |device: Device| device.location_id.bus as int
}

/// The key by which the devices of a bus are put in the order in which they
/// are plugged in: the depth of the address of the parent.
pub open spec fn parent_depth_key() -> spec_fn(Device) -> int {
    |device: Device| device@.parent_path().depth() as int
}

/// The key by which buses are sorted: buses without number first, then by number.
pub open spec fn bus_number_key() -> spec_fn(Bus) -> int {
    |bus: Bus|
        match bus.usb_bus_number {
            Some(n) => n + 1,
            None => 0,
        }
}

/// The devices of the first `n` groups, one group after the other.
pub open spec fn members(groups: Seq<(u8, Vec<Device>)>, n: nat) -> Seq<Device>
    decreases n,
{
    if n == 0 || n > groups.len() {
        Seq::empty()
    } else {
        members(groups, (n - 1) as nat) + groups[n - 1].1@
    }
}

/// `groups` cuts `devices` into runs of devices of one bus: no group is
/// empty, each holds devices of the bus that it names, and no two groups in
/// a row name the same bus.
pub open spec fn runs_by_bus(groups: Seq<(u8, Vec<Device>)>, devices: Seq<Device>) -> bool {
    &&& members(groups, groups.len()) == devices
    &&& forall|i: int|
        0 <= i < groups.len() ==> (#[trigger] groups[i]).1@.len() > 0 && forall|j: int|
            0 <= j < groups[i].1@.len() ==> (#[trigger] groups[i].1@[j]).location_id.bus
                == groups[i].0
    &&& forall|i: int| 0 < i < groups.len() ==> groups[i - 1].0 != (#[trigger] groups[i]).0
}

/// Sorts the devices by the number of their bus; devices of one bus keep their order.
pub fn sort_by_bus(devices: Vec<Device>) -> (sorted: Vec<Device>)
    ensures
        stable_sort_of(sorted@, devices@, bus_key()),
{
    let mut pairs: Vec<(u16, Device)> = Vec::new();
    for device in it: devices
        invariant
            it.seq() == devices@,
            pairs@.len() == it.index(),
            keyed_by(pairs@, bus_key()),
            items_of(pairs@) == devices@.take(it.index() as int),
    {
        pairs.push((device.location_id.bus as u16, device));
        assert(items_of(pairs@) =~= devices@.take(it.index() + 1));
    }
    assert(items_of(pairs@) =~= devices@);
    sort_keyed(pairs, Ghost(bus_key()))
}

/// Cuts the devices into runs of devices of one bus.
///
/// Trusted: `Itertools::group_by` of itertools puts consecutive items of one
/// key into one group, names the group by the key, and starts a new group
/// where the key changes.
#[verifier::external_body]
fn group_by_bus(devices: Vec<Device>) -> (groups: Vec<(u8, Vec<Device>)>)
    ensures
        runs_by_bus(groups@, devices@),
{
    let grouped = devices.into_iter().group_by(|device| device.location_id.bus);
    let mut groups = Vec::new();
    for (bus, group) in &grouped {
        groups.push((bus, group.collect()));
    }
    groups
}

/// Sorts the devices by the depth of the address of their parent; devices of
/// one depth keep their order.
///
/// Trusted: `Itertools::sorted_by_key` of itertools collects the items and
/// sorts them with `slice::sort_by_key` of std, which is stable.
#[verifier::external_body]
fn sort_by_parent_depth(devices: Vec<Device>) -> (sorted: Vec<Device>)
    ensures
        stable_sort_of(sorted@, devices@, parent_depth_key()),
{
    devices.into_iter().sorted_by_key(|device| device.parent_depth()).collect()
}

/// Sorts the buses by their number, buses without number first; buses of one
/// number keep their order.
pub fn sort_by_bus_number(buses: Vec<Bus>) -> (sorted: Vec<Bus>)
    ensures
        stable_sort_of(sorted@, buses@, bus_number_key()),
{
    let mut pairs: Vec<(u16, Bus)> = Vec::new();
    for bus in it: buses
        invariant
            it.seq() == buses@,
            pairs@.len() == it.index(),
            keyed_by(pairs@, bus_number_key()),
            items_of(pairs@) == buses@.take(it.index() as int),
    {
        let rank: u16 = match bus.usb_bus_number {
            Some(n) => n as u16 + 1,
            None => 0,
        };
        pairs.push((rank, bus));
        assert(items_of(pairs@) =~= buses@.take(it.index() + 1));
    }
    assert(items_of(pairs@) =~= buses@);
    sort_keyed(pairs, Ghost(bus_number_key()))
}

/// What plugging the devices `group` into the bus `base` may return: the
/// devices are plugged in by ascending depth of the address of their parent,
/// those of one depth in their order, so that a hub is in the tree before
/// what is plugged into it. It fails where a device finds no parent.
pub open spec fn bus_assembly(base: BusView, group: Seq<Device>, r: Result<Bus, Error>) -> bool {
    exists|order: Seq<Device>| #[trigger]
        stable_sort_of(order, group, parent_depth_key()) && match r {
            Ok(bus) => base.attach_all(device_views(order), order.len()) == Some(bus@),
            Err(e) => e == Error::MissingParent && base.attach_all(
                device_views(order),
                order.len(),
            ) is None,
        }
}

/// The tree of a bus depends on the order of the devices of one depth only:
/// two lists that hold the same devices at every depth, in the same order,
/// are assembled alike, however the depths are mixed in them. So a list that
/// is put in the order of depth beforehand gives the tree that it gave before.
pub proof fn lemma_assembly_by_depth(
    base: BusView,
    first: Seq<Device>,
    second: Seq<Device>,
    r1: Result<Bus, Error>,
    r2: Result<Bus, Error>,
)
    requires
        bus_assembly(base, first, r1),
        bus_assembly(base, second, r2),
        forall|k: int| #[trigger]
            with_key(first, parent_depth_key(), k) == with_key(second, parent_depth_key(), k),
    ensures
        r1 is Ok <==> r2 is Ok,
        r1 is Ok ==> r1->Ok_0@ == r2->Ok_0@,
        r1 is Err ==> r1->Err_0 == r2->Err_0,
{
    let key = parent_depth_key();
    let one = choose|order: Seq<Device>| #[trigger]
        stable_sort_of(order, first, key) && match r1 {
            Ok(bus) => base.attach_all(device_views(order), order.len()) == Some(bus@),
            Err(e) => e == Error::MissingParent && base.attach_all(
                device_views(order),
                order.len(),
            ) is None,
        };
    let two = choose|order: Seq<Device>| #[trigger]
        stable_sort_of(order, second, key) && match r2 {
            Ok(bus) => base.attach_all(device_views(order), order.len()) == Some(bus@),
            Err(e) => e == Error::MissingParent && base.attach_all(
                device_views(order),
                order.len(),
            ) is None,
        };
    assert forall|k: int| #[trigger] with_key(one, key, k) == with_key(two, key, k) by {
        assert(with_key(one, key, k) == with_key(first, key, k));
        assert(with_key(two, key, k) == with_key(second, key, k));
        assert(with_key(first, key, k) == with_key(second, key, k));
    }
    lemma_sorted_alike(one, two, key);
}

/// Every device of `group` finds its parent: the root hub, a device of the
/// bus `base`, or another device of `group`.
pub open spec fn parents_at_hand(base: BusView, group: Seq<Device>) -> bool {
    forall|i: int|
        0 <= i < group.len() ==> {
            let parent = (#[trigger] group[i])@.parent_path();
            parent.is_root_hub() || base.holds(parent) || exists|j: int|
                0 <= j < group.len() && (#[trigger] group[j])@.port_path() == parent
        }
}

/// In the order in which devices are plugged in, a device comes before those
/// that are plugged into it.
proof fn lemma_parent_first(order: Seq<Device>, m: int, i: int)
    requires
        sorted_by(order, parent_depth_key()),
        0 <= m < order.len(),
        0 <= i < order.len(),
        order[m]@.port_path() == order[i]@.parent_path(),
        !order[i]@.parent_path().is_root_hub(),
    ensures
        m < i,
{
    let key = parent_depth_key();
    assert(key(order[m]) < key(order[i]));
    if i <= m {
        assert(key(order[i]) <= key(order[m]));
    }
}

/// Devices that all find their parent are plugged into their bus without
/// fail, in whatever order they are listed.
pub proof fn lemma_assembly_succeeds(base: BusView, group: Seq<Device>, r: Result<Bus, Error>)
    requires
        bus_assembly(base, group, r),
        parents_at_hand(base, group),
    ensures
        r is Ok,
{
    let key = parent_depth_key();
    let order = choose|order: Seq<Device>| #[trigger]
        stable_sort_of(order, group, key) && match r {
            Ok(bus) => base.attach_all(device_views(order), order.len()) == Some(bus@),
            Err(e) => e == Error::MissingParent && base.attach_all(
                device_views(order),
                order.len(),
            ) is None,
        };
    let views = device_views(order);
    lemma_sort_same_items(order, group, key);
    assert forall|i: int| 0 <= i < order.len() implies ({
        let parent = (#[trigger] views[i]).parent_path();
        parent.is_root_hub() || base.holds(parent) || held_among(views, i as nat, parent)
    }) by {
        let parent = views[i].parent_path();
        assert(order.contains(order[i]));
        assert(group.contains(order[i]));
        let a = choose|a: int| 0 <= a < group.len() && group[a] == order[i];
        assert(group[a]@.parent_path() == parent);
        if !(parent.is_root_hub() || base.holds(parent)) {
            let b = choose|b: int|
                0 <= b < group.len() && (#[trigger] group[b])@.port_path() == parent;
            assert(group.contains(group[b]));
            assert(order.contains(group[b]));
            let m = choose|m: int| 0 <= m < order.len() && order[m] == group[b];
            lemma_parent_first(order, m, i);
            lemma_held_among(views, i as nat, parent);
            assert(views[m].holds(parent));
        }
    }
    lemma_attach_all_where_parents(base, views, order.len());
}

/// Devices that hold no devices yet are plugged into their bus without fail
/// exactly where each of them finds its parent: one that does not makes the
/// assembly fail.
pub proof fn lemma_flat_assembly(base: BusView, group: Seq<Device>, r: Result<Bus, Error>)
    requires
        bus_assembly(base, group, r),
        forall|i: int| 0 <= i < group.len() ==> (#[trigger] group[i]).devices is None,
    ensures
        r is Ok <==> parents_at_hand(base, group),
        r is Err ==> r->Err_0 == Error::MissingParent,
{
    if parents_at_hand(base, group) {
        lemma_assembly_succeeds(base, group, r);
    }
    if r is Ok {
        let key = parent_depth_key();
        let order = choose|order: Seq<Device>| #[trigger]
            stable_sort_of(order, group, key) && match r {
                Ok(bus) => base.attach_all(device_views(order), order.len()) == Some(bus@),
                Err(e) => e == Error::MissingParent && base.attach_all(
                    device_views(order),
                    order.len(),
                ) is None,
            };
        let views = device_views(order);
        lemma_sort_same_items(order, group, key);
        lemma_attach_all_where_parents(base, views, order.len());
        assert forall|i: int| 0 <= i < group.len() implies ({
            let parent = (#[trigger] group[i])@.parent_path();
            parent.is_root_hub() || base.holds(parent) || exists|j: int|
                0 <= j < group.len() && (#[trigger] group[j])@.port_path() == parent
        }) by {
            let parent = group[i]@.parent_path();
            assert(group.contains(group[i]));
            assert(order.contains(group[i]));
            let n = choose|n: int| 0 <= n < order.len() && order[n] == group[i];
            assert(views[n].parent_path() == parent);
            if !(parent.is_root_hub() || base.holds(parent)) {
                lemma_held_among(views, n as nat, parent);
                let m = choose|m: int| 0 <= m < n && (#[trigger] views[m]).holds(parent);
                assert(order.contains(order[m]));
                assert(group.contains(order[m]));
                let j = choose|j: int| 0 <= j < group.len() && group[j] == order[m];
                assert(group[j].devices is None);
                assert(group[j]@.port_path() == parent);
            }
        }
    }
}

/// Plugs the devices `group` into the bus `bus`, parents before what is
/// plugged into them.
pub fn assemble_bus(bus: Bus, group: Vec<Device>) -> (r: Result<Bus, Error>)
    ensures
        bus_assembly(bus@, group@, r),
{
    let mut bus = bus;
    let order = sort_by_parent_depth(group);
    let ghost sorted = order@;
    match bus.attach_all(order) {
        Ok(()) => {
            assert(stable_sort_of(sorted, group@, parent_depth_key()));
            Ok(bus)
        },
        Err(e) => {
            assert(stable_sort_of(sorted, group@, parent_depth_key()));
            Err(e)
        },
    }
}

/// The buses of `buses` with a number below `n`, in the order of their numbers.
pub open spec fn in_number_order(buses: Map<u8, Bus>, n: nat) -> Seq<Bus>
    decreases n,
{
    if n == 0 {
        Seq::empty()
    } else if n <= 256 && buses.contains_key((n - 1) as u8) {
        in_number_order(buses, (n - 1) as nat).push(buses[(n - 1) as u8])
    } else {
        in_number_order(buses, (n - 1) as nat)
    }
}

/// Takes the buses out of `buses`, in the order of the numbers they are kept under.
pub fn take_in_number_order(buses: HashMap<u8, Bus>) -> (taken: Vec<Bus>)
    ensures
        taken@ == in_number_order(buses@, 256),
{
    let mut buses = buses;
    let ghost all = buses@;
    let mut taken: Vec<Bus> = Vec::new();
    let mut n: u16 = 0;
    while n < 256
        invariant
            n <= 256,
            taken@ == in_number_order(all, n as nat),
            forall|k: u8| k >= n ==> buses@.contains_key(k) == all.contains_key(k),
            forall|k: u8| k >= n && all.contains_key(k) ==> buses@[k] == all[k],
        decreases 256 - n,
    {
        let key: u8 = n as u8;
        match buses.remove(&key) {
            Some(bus) => {
                taken.push(bus);
            },
            None => {},
        }
        n = n + 1;
    }
    taken
}

/// The numbers of the buses that the first `n` groups name.
pub open spec fn named_before(groups: Seq<(u8, Vec<Device>)>, n: int) -> Set<u8> {
    Set::new(|k: u8| exists|j: int| 0 <= j < n && j < groups.len() && (#[trigger] groups[j]).0 == k)
}

/// The bus that the devices of the group `i` are plugged into: the bus that
/// `root_hubs` keeps under the number of the group, where it keeps one and no
/// group before names it, else a bus of that number of which nothing else is
/// known.
pub open spec fn base_bus(
    root_hubs: Map<u8, Bus>,
    groups: Seq<(u8, Vec<Device>)>,
    i: int,
) -> BusView {
    let number = groups[i].0;
    if root_hubs.contains_key(number) && !named_before(groups, i).contains(number) {
        root_hubs[number]@
    } else {
        BusView::unknown(number)
    }
}

/// The steps of an assembly: the devices sorted by bus, the runs of devices
/// of one bus, and what plugging each run into its bus came to.
pub struct Assembly {
    pub sorted: Seq<Device>,
    pub groups: Seq<(u8, Vec<Device>)>,
    pub built: Seq<Result<Bus, Error>>,
}

/// `r` is what the devices `devices` and the buses `root_hubs` are assembled
/// to by the steps `steps`.
///
/// The devices are sorted by bus and cut into one group for each bus. Each
/// group is plugged into its bus. Where that fails for a group, the assembly
/// fails. Else the profile holds the buses of the groups in their order, and
/// after them the buses that no group names, in the order of their numbers;
/// where there are such buses, all buses are then sorted by their own number.
pub open spec fn assembled_in(
    devices: Seq<Device>,
    root_hubs: Map<u8, Bus>,
    steps: Assembly,
    r: Result<SystemProfile, Error>,
) -> bool {
    let n = steps.groups.len();
    &&& stable_sort_of(steps.sorted, devices, bus_key())
    &&& runs_by_bus(steps.groups, steps.sorted)
    &&& steps.built.len() == n
    &&& forall|i: int|
        0 <= i < n ==> bus_assembly(
            base_bus(root_hubs, steps.groups, i),
            steps.groups[i].1@,
            #[trigger] steps.built[i],
        )
    &&& match r {
        Err(e) => e == Error::MissingParent && exists|i: int|
            0 <= i < n && #[trigger] steps.built[i] is Err,
        Ok(profile) => {
            let rest = in_number_order(
                root_hubs.remove_keys(named_before(steps.groups, n as int)),
                256,
            );
            let all = Seq::new(n, |i: int| steps.built[i]->Ok_0) + rest;
            &&& forall|i: int| 0 <= i < n ==> #[trigger] steps.built[i] is Ok
            &&& if rest.len() == 0 {
                profile.buses@ == all
            } else {
                stable_sort_of(profile.buses@, all, bus_number_key())
            }
        },
    }
}

/// The devices of the first groups are the first of the devices of more groups.
proof fn lemma_members_grow(groups: Seq<(u8, Vec<Device>)>, a: nat, b: nat)
    requires
        a <= b <= groups.len(),
    ensures
        members(groups, a).len() <= members(groups, b).len(),
        forall|k: int|
            0 <= k < members(groups, a).len() ==> members(groups, b)[k] == members(groups, a)[k],
    decreases b,
{
    if a < b {
        lemma_members_grow(groups, a, (b - 1) as nat);
    }
}

/// Where the device `j` of the group `g` stands among the devices of the
/// first `n` groups.
proof fn lemma_member_at(groups: Seq<(u8, Vec<Device>)>, n: nat, g: int, j: int)
    requires
        0 <= g < n <= groups.len(),
        0 <= j < groups[g].1@.len(),
    ensures
        members(groups, g as nat).len() + j < members(groups, n).len(),
        members(groups, n)[members(groups, g as nat).len() + j] == groups[g].1@[j],
{
    let at = members(groups, g as nat).len() + j;
    assert(members(groups, (g + 1) as nat) == members(groups, g as nat) + groups[g].1@);
    assert(members(groups, (g + 1) as nat)[at] == groups[g].1@[j]);
    lemma_members_grow(groups, (g + 1) as nat, n);
}

/// Each of the devices of the first `n` groups is a device of one of them.
proof fn lemma_member_of(groups: Seq<(u8, Vec<Device>)>, n: nat, k: int)
    requires
        n <= groups.len(),
        0 <= k < members(groups, n).len(),
    ensures
        exists|g: int, j: int|
            0 <= g < n && 0 <= j < groups[g].1@.len() && #[trigger] groups[g].1@[j] == members(
                groups,
                n,
            )[k],
    decreases n,
{
    if n > 0 {
        let front = members(groups, (n - 1) as nat);
        if k < front.len() {
            lemma_member_of(groups, (n - 1) as nat, k);
            let (g, j) = choose|g: int, j: int|
                0 <= g < n - 1 && 0 <= j < groups[g].1@.len() && #[trigger] groups[g].1@[j]
                    == front[k];
            assert(groups[g].1@[j] == members(groups, n)[k]);
        } else {
            assert(groups[n - 1].1@[k - front.len()] == members(groups, n)[k]);
        }
    }
}

/// The runs of devices that are sorted by bus name their buses in ascending
/// order: all the devices of one bus are in one run.
proof fn lemma_runs_ascend(groups: Seq<(u8, Vec<Device>)>, sorted: Seq<Device>, a: int, b: int)
    requires
        runs_by_bus(groups, sorted),
        sorted_by(sorted, bus_key()),
        0 <= a < b < groups.len(),
    ensures
        groups[a].0 < groups[b].0,
    decreases b - a,
{
    let n = groups.len();
    let key = bus_key();
    if b > a + 1 {
        lemma_runs_ascend(groups, sorted, a, b - 1);
    }
    let low = b - 1;
    lemma_member_at(groups, n, low, 0);
    lemma_member_at(groups, n, b, 0);
    lemma_members_grow(groups, (low + 1) as nat, b as nat);
    let i = members(groups, low as nat).len() as int;
    let j = members(groups, b as nat).len() as int;
    assert(members(groups, (low + 1) as nat) == members(groups, low as nat) + groups[low].1@);
    assert(i < j);
    assert(sorted[i] == groups[low].1@[0]);
    assert(sorted[j] == groups[b].1@[0]);
    assert(key(sorted[i]) <= key(sorted[j]));
    assert(groups[low].0 != groups[b].0);
}

/// Every device of `devices` is plugged into the root hub of its bus or into
/// another device of `devices`.
pub open spec fn parents_listed(devices: Seq<Device>) -> bool {
    forall|i: int|
        0 <= i < devices.len() ==> {
            let parent = (#[trigger] devices[i])@.parent_path();
            parent.is_root_hub() || exists|j: int|
                0 <= j < devices.len() && (#[trigger] devices[j])@.port_path() == parent
        }
}

/// A list of devices that holds, for each of its devices, the hub that it is
/// plugged into, is assembled without fail, in whatever order it is.
pub proof fn lemma_assemble_succeeds(
    devices: Seq<Device>,
    root_hubs: Map<u8, Bus>,
    r: Result<SystemProfile, Error>,
)
    requires
        assembly(devices, root_hubs, r),
        parents_listed(devices),
    ensures
        r is Ok,
{
    let steps = choose|steps: Assembly| #[trigger] assembled_in(devices, root_hubs, steps, r);
    let groups = steps.groups;
    let sorted = steps.sorted;
    let n = groups.len();
    lemma_sort_same_items(sorted, devices, bus_key());
    assert forall|g: int| 0 <= g < n implies #[trigger] steps.built[g] is Ok by {
        let base = base_bus(root_hubs, groups, g);
        let group = groups[g].1@;
        assert forall|i: int| 0 <= i < group.len() implies ({
            let parent = (#[trigger] group[i])@.parent_path();
            parent.is_root_hub() || base.holds(parent) || exists|j: int|
                0 <= j < group.len() && (#[trigger] group[j])@.port_path() == parent
        }) by {
            let parent = group[i]@.parent_path();
            if !parent.is_root_hub() {
                lemma_member_at(groups, n, g, i);
                let at = members(groups, g as nat).len() + i;
                assert(sorted[at] == group[i]);
                assert(sorted.contains(group[i]));
                assert(devices.contains(group[i]));
                let a = choose|a: int| 0 <= a < devices.len() && devices[a] == group[i];
                let b = choose|b: int|
                    0 <= b < devices.len() && (#[trigger] devices[b])@.port_path() == parent;
                assert(devices.contains(devices[b]));
                assert(sorted.contains(devices[b]));
                let k = choose|k: int| 0 <= k < sorted.len() && sorted[k] == devices[b];
                lemma_member_of(groups, n, k);
                let (h, j) = choose|h: int, j: int|
                    0 <= h < n && 0 <= j < groups[h].1@.len() && #[trigger] groups[h].1@[j]
                        == members(groups, n)[k];
                assert(groups[h].1@[j].location_id.bus == groups[h].0);
                assert(group[i].location_id.bus == groups[g].0);
                if h < g {
                    lemma_runs_ascend(groups, sorted, h, g);
                }
                if g < h {
                    lemma_runs_ascend(groups, sorted, g, h);
                }
                assert(group[j]@.port_path() == parent);
            }
        }
        lemma_assembly_succeeds(base, group, steps.built[g]);
    }
}

/// What assembling the devices `devices` and the buses `root_hubs` may return.
pub open spec fn assembly(
    devices: Seq<Device>,
    root_hubs: Map<u8, Bus>,
    r: Result<SystemProfile, Error>,
) -> bool {
    exists|steps: Assembly| #[trigger] assembled_in(devices, root_hubs, steps, r)
}

/// Builds the tree of buses and devices from the flat list `devices`, none of
/// which holds devices yet, and the buses `buses` known from root hubs, each
/// kept under its number.
pub fn assemble(devices: Vec<Device>, buses: HashMap<u8, Bus>) -> (r: Result<SystemProfile, Error>)
    ensures
        assembly(devices@, buses@, r),
{
    let mut buses = buses;
    let ghost root_hubs = buses@;
    let sorted = sort_by_bus(devices);
    let ghost sorted_seq = sorted@;
    let groups = group_by_bus(sorted);
    let ghost group_seq = groups@;
    let mut built: Vec<Bus> = Vec::new();
    let mut failed = false;
    let ghost mut results: Seq<Result<Bus, Error>> = Seq::empty();
    assert(root_hubs =~= root_hubs.remove_keys(named_before(group_seq, 0)));
    for entry in it: groups
        invariant
            it.seq() == group_seq,
            results.len() == it.index(),
            buses@ == root_hubs.remove_keys(named_before(group_seq, it.index() as int)),
            forall|i: int|
                0 <= i < it.index() ==> bus_assembly(
                    base_bus(root_hubs, group_seq, i),
                    group_seq[i].1@,
                    #[trigger] results[i],
                ),
            failed <==> exists|i: int| 0 <= i < it.index() && #[trigger] results[i] is Err,
            !failed ==> built@ == Seq::new(it.index() as nat, |i: int| results[i]->Ok_0),
    {
        let ghost i = it.index() as int;
        let (number, group) = entry;
        assert(group_seq[i] == (number, group));
        let ghost before = named_before(group_seq, i);
        let base = match buses.remove(&number) {
            Some(bus) => bus,
            None => Bus::new(number),
        };
        assert(base@ == base_bus(root_hubs, group_seq, i));
        assert(named_before(group_seq, i + 1) =~= before.insert(number)) by {
            assert forall|k: u8| named_before(group_seq, i + 1).contains(k) implies before.insert(
                number,
            ).contains(k) by {
                let j = choose|j: int|
                    0 <= j < i + 1 && j < group_seq.len() && (#[trigger] group_seq[j]).0 == k;
                if j < i {
                    assert(before.contains(k));
                }
            }
            assert forall|k: u8| before.insert(number).contains(k) implies named_before(
                group_seq,
                i + 1,
            ).contains(k) by {
                if k == number {
                    assert(group_seq[i].0 == k);
                } else {
                    let j = choose|j: int|
                        0 <= j < i && j < group_seq.len() && (#[trigger] group_seq[j]).0 == k;
                    assert(group_seq[j].0 == k);
                }
            }
        }
        assert(buses@ =~= root_hubs.remove_keys(named_before(group_seq, i + 1)));
        let ghost built_before = built@;
        let ghost results_before = results;
        match assemble_bus(base, group) {
            Ok(bus) => {
                proof {
                    results = results.push(Ok(bus));
                }
                if !failed {
                    built.push(bus);
                    assert(built@ =~= Seq::new((i + 1) as nat, |i: int| results[i]->Ok_0));
                }
            },
            Err(e) => {
                proof {
                    results = results.push(Err(e));
                }
                failed = true;
                assert(results[i] is Err);
            },
        }
        assert(forall|j: int| 0 <= j < i ==> results[j] == results_before[j]);
    }
    let ghost steps = Assembly { sorted: sorted_seq, groups: group_seq, built: results };
    if failed {
        assert(assembled_in(devices@, root_hubs, steps, Err(Error::MissingParent)));
        return Err(Error::MissingParent);
    }
    let mut rest = take_in_number_order(buses);
    let ghost rest_seq = rest@;
    let profile = if rest.len() == 0 {
        assert(built@ + rest_seq =~= built@);
        SystemProfile { buses: built }
    } else {
        let mut all = built;
        all.append(&mut rest);
        SystemProfile { buses: sort_by_bus_number(all) }
    };
    assert(assembled_in(devices@, root_hubs, steps, Ok(profile)));
    Ok(profile)
}

/// The place of the first bus from `buses[from]` on that has the number `number`.
pub open spec fn first_numbered(buses: Seq<BusView>, number: Option<u8>, from: nat) -> Option<int>
    decreases buses.len() - from,
{
    if from >= buses.len() {
        None
    } else if buses[from as int].usb_bus_number == number {
        Some(from as int)
    } else {
        first_numbered(buses, number, from + 1)
    }
}

/// The buses `buses`, the first of the number of `fresh` with its devices
/// replaced by those of `fresh`; unchanged where there is no such bus.
pub open spec fn merged_one(buses: Seq<BusView>, fresh: BusView) -> Seq<BusView> {
    match first_numbered(buses, fresh.usb_bus_number, 0) {
        Some(i) => buses.update(i, BusView { devices: fresh.devices, ..buses[i] }),
        None => buses,
    }
}

/// The buses `buses` after the first `n` buses of `fresh` were merged into
/// them one after the other.
pub open spec fn merged(buses: Seq<BusView>, fresh: Seq<BusView>, n: nat) -> Seq<BusView>
    decreases n,
{
    if n == 0 || n > fresh.len() {
        buses
    } else {
        merged_one(merged(buses, fresh, (n - 1) as nat), fresh[n - 1])
    }
}

/// Replaces the devices of each bus of `existing` by those of the bus of the
/// same number in `fresh`. What else `existing` knows of its buses stays, and
/// so do the buses that `fresh` does not have.
pub fn merge(existing: &mut SystemProfile, fresh: SystemProfile)
    ensures
        bus_views(final(existing).buses@) == merged(
            bus_views(old(existing).buses@),
            bus_views(fresh.buses@),
            fresh.buses@.len(),
        ),
{
    let ghost start = bus_views(existing.buses@);
    let ghost fresh_views = bus_views(fresh.buses@);
    for bus in it: fresh.buses
        invariant
            it.seq() == fresh.buses@,
            fresh_views == bus_views(fresh.buses@),
            bus_views(existing.buses@) == merged(start, fresh_views, it.index() as nat),
    {
        assert(fresh_views[it.index() as int] == bus@);
        let ghost views = bus_views(existing.buses@);
        let number = bus.get_bus_number();
        let mut i: usize = 0;
        while i < existing.buses.len() && existing.buses[i].get_bus_number() != number
            invariant
                i <= existing.buses.len(),
                views == bus_views(existing.buses@),
                first_numbered(views, number, 0) == first_numbered(views, number, i as nat),
            decreases existing.buses.len() - i,
        {
            assert(views[i as int] == existing.buses@[i as int]@);
            i = i + 1;
        }
        if i < existing.buses.len() {
            assert(views[i as int] == existing.buses@[i as int]@);
            let found = &mut existing.buses[i];
            found.devices = bus.devices;
            assert(bus_views(existing.buses@) =~= merged_one(views, bus@));
        }
    }
}

} // verus!
