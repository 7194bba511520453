//! Sorting the devices of every hub and the buses of a profile.
use crate::order::{items_of, keyed_by, lemma_sort_through, sort_keyed, stable_sort_of};
use crate::profiler::types::{Bus, Device};
use crate::profiler::{bus_number_key, sort_by_bus_number};
use vstd::prelude::*;

verus! {

/// Value to sort [`Device`]
#[derive(Debug, Clone, Copy, PartialEq, Eq)]
pub enum Sort {
    /// Sort by bus device number
    DeviceNumber,
    /// Sort by position in parent branch
    BranchPosition,
    /// No sorting; whatever order it was parsed
    NoSort,
}

/// The position of the device in its branch: the last port on the way to it,
/// or 0 for a device without ports.
pub open spec fn branch_position(device: Device) -> u8 {
    if device.location_id.tree_positions@.len() == 0 {
        0
    } else {
        device.location_id.tree_positions@.last()
    }
}

/// The key of sorting by position: the position in the branch and the number
/// of the bus, added up.
pub open spec fn branch_key() -> spec_fn(Device) -> int {
    |device: Device| branch_position(device) + device.location_id.bus
}

/// The key of sorting by device number: the address on the bus and the number
/// of the bus, added up.
pub open spec fn number_key() -> spec_fn(Device) -> int {
    |device: Device| device.location_id.number + device.location_id.bus
}

impl Device {
    /// The position of the device in its branch.
    pub fn get_branch_position(&self) -> (position: u8)
        ensures
            position == branch_position(*self),
    {
        let len = self.location_id.tree_positions.len();
        if len == 0 {
            0
        } else {
            self.location_id.tree_positions[len - 1]
        }
    }

    /// The key of sorting by position.
    pub fn branch_sort_key(&self) -> (key: u16)
        ensures
            key == branch_key()(*self),
    {
        self.get_branch_position() as u16 + self.location_id.bus as u16
    }

    /// The key of sorting by device number.
    pub fn number_sort_key(&self) -> (key: u16)
        ensures
            key == number_key()(*self),
    {
        self.location_id.number as u16 + self.location_id.bus as u16
    }
}

/// Sorts the devices by their position in the branch; devices of one key
/// keep their order.
pub fn sort_by_branch_key(devices: Vec<Device>) -> (sorted: Vec<Device>)
    ensures
        stable_sort_of(sorted@, devices@, branch_key()),
{
    let mut pairs: Vec<(u16, Device)> = Vec::new();
    for device in it: devices
        invariant
            it.seq() == devices@,
            pairs@.len() == it.index(),
            keyed_by(pairs@, branch_key()),
            items_of(pairs@) == devices@.take(it.index() as int),
    {
        pairs.push((device.branch_sort_key(), device));
        assert(items_of(pairs@) =~= devices@.take(it.index() + 1));
    }
    assert(items_of(pairs@) =~= devices@);
    sort_keyed(pairs, Ghost(branch_key()))
}

/// Sorts the devices by their device number; devices of one key keep their order.
pub fn sort_by_number_key(devices: Vec<Device>) -> (sorted: Vec<Device>)
    ensures
        stable_sort_of(sorted@, devices@, number_key()),
{
    let mut pairs: Vec<(u16, Device)> = Vec::new();
    for device in it: devices
        invariant
            it.seq() == devices@,
            pairs@.len() == it.index(),
            keyed_by(pairs@, number_key()),
            items_of(pairs@) == devices@.take(it.index() as int),
    {
        pairs.push((device.number_sort_key(), device));
        assert(items_of(pairs@) =~= devices@.take(it.index() + 1));
    }
    assert(items_of(pairs@) =~= devices@);
    sort_keyed(pairs, Ghost(number_key()))
}

/// The devices that the references of `s` point to.
pub open spec fn pointed(s: Seq<&Device>) -> Seq<Device> {
    Seq::new(s.len(), |i: int| *s[i])
}

impl Sort {
    /// `after` holds the devices of `before` in the order that `self` asks
    /// for: sorted by its key, devices of one key in the order they had, or
    /// as they were where `self` asks for no sorting.
    pub open spec fn sorted(self, before: Seq<Device>, after: Seq<Device>) -> bool {
        match self {
            Sort::BranchPosition => stable_sort_of(after, before, branch_key()),
            Sort::DeviceNumber => stable_sort_of(after, before, number_key()),
            Sort::NoSort => after == before,
        }
    }

    /// `after` is the device `before` with the devices of every hub in its
    /// tree in the order that `self` asks for. Nothing else differs.
    pub open spec fn sorted_tree(self, before: Device, after: Device) -> bool
        decreases before, 0nat,
    {
        &&& after.name == before.name
        &&& after.vendor_id == before.vendor_id
        &&& after.product_id == before.product_id
        &&& after.location_id == before.location_id
        &&& after.serial_num == before.serial_num
        &&& after.class == before.class
        &&& after.extra == before.extra
        &&& after.hidden == before.hidden
        &&& match before.devices {
            Some(devices) => after.devices matches Some(sorted) && self.sorted_forest(
                devices@,
                sorted@,
            ),
            None => after.devices is None,
        }
    }

    /// `after` holds the devices of `before`, each with the devices of every
    /// hub in its tree in the order that `self` asks for, and themselves in
    /// that order.
    pub open spec fn sorted_forest(self, before: Seq<Device>, after: Seq<Device>) -> bool
        decreases before, 1nat,
    {
        exists|inner: Seq<Device>|
            self.sorted_below(before, inner) && #[trigger] self.sorted(inner, after)
    }

    /// `after` holds the devices of `before` in their order, each with the
    /// devices of every hub in its tree in the order that `self` asks for.
    pub open spec fn sorted_below(self, before: Seq<Device>, after: Seq<Device>) -> bool
        decreases before, 0nat,
    {
        &&& after.len() == before.len()
        &&& forall|i: int|
            0 <= i < before.len() ==> self.sorted_tree(before[i], #[trigger] after[i])
    }

    /// Sort the [`Device`]s in place
    pub fn sort_devices(&self, devices: &mut Vec<Device>)
        ensures
            self.sorted(old(devices)@, final(devices)@),
    {
        match self {
            Sort::BranchPosition => {
                let mut taken: Vec<Device> = Vec::new();
                std::mem::swap(devices, &mut taken);
                let mut sorted = sort_by_branch_key(taken);
                std::mem::swap(devices, &mut sorted);
            },
            Sort::DeviceNumber => {
                let mut taken: Vec<Device> = Vec::new();
                std::mem::swap(devices, &mut taken);
                let mut sorted = sort_by_number_key(taken);
                std::mem::swap(devices, &mut sorted);
            },
            Sort::NoSort => {},
        }
    }

    /// Sort the references to [`Device`]s in place
    pub fn sort_devices_ref<'a>(&self, devices: &mut Vec<&'a Device>)
        ensures
            self.sorted(pointed(old(devices)@), pointed(final(devices)@)),
    {
        let ghost before = devices@;
        let ghost through = match self {
            Sort::BranchPosition => |d: &Device| branch_key()(*d),
            _ => |d: &Device| number_key()(*d),
        };
        let by_position = match self {
            Sort::BranchPosition => true,
            Sort::DeviceNumber => false,
            Sort::NoSort => {
                return ;
            },
        };
        let mut taken: Vec<&Device> = Vec::new();
        std::mem::swap(devices, &mut taken);
        let mut pairs: Vec<(u16, &Device)> = Vec::new();
        for device in it: taken
            invariant
                it.seq() == before,
                pairs@.len() == it.index(),
                keyed_by(pairs@, through),
                items_of(pairs@) == before.take(it.index() as int),
                by_position <==> self == Sort::BranchPosition,
                !by_position ==> self == Sort::DeviceNumber,
                through == match self {
                    Sort::BranchPosition => |d: &Device| branch_key()(*d),
                    _ => |d: &Device| number_key()(*d),
                },
        {
            let key = if by_position {
                device.branch_sort_key()
            } else {
                device.number_sort_key()
            };
            pairs.push((key, device));
            assert(items_of(pairs@) =~= before.take(it.index() + 1));
        }
        assert(items_of(pairs@) =~= before);
        let mut sorted = sort_keyed(pairs, Ghost(through));
        proof {
            let f = |d: &Device| *d;
            assert(pointed(before) =~= before.map_values(f));
            assert(pointed(sorted@) =~= sorted@.map_values(f));
            if by_position {
                lemma_sort_through(sorted@, before, f, through, branch_key());
            } else {
                lemma_sort_through(sorted@, before, f, through, number_key());
            }
        }
        std::mem::swap(devices, &mut sorted);
    }

    /// Sort the devices at each branch by calling this recursively, and the
    /// devices at this level
    pub fn sort_devices_recursive(&self, devices: &mut Vec<Device>)
        ensures
            self.sorted_forest(old(devices)@, final(devices)@),
        decreases old(devices)@,
    {
        let mut i: usize = 0;
        while i < devices.len()
            invariant
                i <= devices.len(),
                devices@.len() == old(devices)@.len(),
                forall|j: int| i <= j < devices@.len() ==> devices@[j] == old(devices)@[j],
                forall|j: int|
                    0 <= j < i ==> self.sorted_tree(old(devices)@[j], #[trigger] devices@[j]),
            decreases devices.len() - i,
        {
            let device = &mut devices[i];
            match &mut device.devices {
                Some(branch) => {
                    self.sort_devices_recursive(branch);
                },
                None => {},
            }
            i = i + 1;
        }
        let ghost inner = devices@;
        assert(self.sorted_below(old(devices)@, inner));
        self.sort_devices(devices);
        assert(self.sorted_below(old(devices)@, inner) && self.sorted(inner, devices@));
    }

    /// `after` is the bus `before` with the devices of every hub in the order
    /// that `self` asks for. Nothing else differs.
    pub open spec fn sorted_bus(self, before: Bus, after: Bus) -> bool {
        &&& after.name == before.name
        &&& after.host_controller == before.host_controller
        &&& after.pci_vendor == before.pci_vendor
        &&& after.pci_device == before.pci_device
        &&& after.pci_revision == before.pci_revision
        &&& after.usb_bus_number == before.usb_bus_number
        &&& match before.devices {
            Some(devices) => after.devices matches Some(sorted) && self.sorted_forest(
                devices@,
                sorted@,
            ),
            None => after.devices is None,
        }
    }

    /// `after` holds the buses of `before` in the order of their numbers,
    /// each with the devices of every hub in the order that `self` asks for.
    pub open spec fn sorted_buses(self, before: Seq<Bus>, after: Seq<Bus>) -> bool {
        exists|ordered: Seq<Bus>| #[trigger]
            stable_sort_of(ordered, before, bus_number_key()) && after.len() == ordered.len()
                && forall|i: int|
                0 <= i < ordered.len() ==> self.sorted_bus(ordered[i], #[trigger] after[i])
    }

    /// Walk the bus tree and sort the devices at each branch
    pub fn sort_bus(&self, bus: &mut Bus)
        ensures
            self.sorted_bus(*old(bus), *final(bus)),
    {
        match &mut bus.devices {
            Some(devices) => {
                self.sort_devices_recursive(devices);
            },
            None => {},
        }
    }

    /// Sort buses in place, sorting devices on each bus and then by bus number
    pub fn sort_buses(&self, buses: &mut Vec<Bus>)
        ensures
            self.sorted_buses(old(buses)@, final(buses)@),
    {
        let mut taken: Vec<Bus> = Vec::new();
        std::mem::swap(buses, &mut taken);
        let mut sorted = sort_by_bus_number(taken);
        std::mem::swap(buses, &mut sorted);
        let ghost ordered = buses@;
        let mut i: usize = 0;
        while i < buses.len()
            invariant
                i <= buses.len(),
                buses@.len() == ordered.len(),
                forall|j: int| i <= j < buses@.len() ==> buses@[j] == ordered[j],
                forall|j: int| 0 <= j < i ==> self.sorted_bus(ordered[j], #[trigger] buses@[j]),
            decreases buses.len() - i,
        {
            let bus = &mut buses[i];
            self.sort_bus(bus);
            i = i + 1;
        }
        assert(stable_sort_of(ordered, old(buses)@, bus_number_key()));
    }
}

} // verus!
