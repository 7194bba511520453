//! Filters that keep the devices that match, and the hubs on the way to them.
use crate::profiler::types::{bus_views, device_views, Bus, BusView, Device, DeviceView};
use vstd::prelude::*;
use vstd::string::StringSliceAdditionalSpecFns;
use vstd::utf8::encode_utf8;

verus! {

/// `needle` stands somewhere in `hay`.
pub open spec fn is_within(needle: Seq<u8>, hay: Seq<u8>) -> bool {
    exists|i: int| starts_at(needle, hay, i)
}

/// `needle` stands in `hay` from the place `i` on.
pub open spec fn starts_at(needle: Seq<u8>, hay: Seq<u8>, i: int) -> bool {
    0 <= i && i + needle.len() <= hay.len() && hay.subrange(i, i + needle.len()) == needle
}

/// Whether `needle` stands somewhere in `hay`.
pub fn contains_bytes(hay: &[u8], needle: &[u8]) -> (found: bool)
    ensures
        found == is_within(needle@, hay@),
{
    if needle.len() > hay.len() {
        assert forall|i: int| !starts_at(needle@, hay@, i) by {}
        return false;
    }
    let last: usize = hay.len() - needle.len();
    let mut i: usize = 0;
    while i <= last
        invariant
            i <= last + 1,
            last == hay.len() - needle.len(),
            needle@.len() <= hay@.len(),
            forall|k: int| 0 <= k < i ==> !starts_at(needle@, hay@, k),
        decreases last + 1 - i,
    {
        let mut j: usize = 0;
        while j < needle.len() && hay[i + j] == needle[j]
            invariant
                i <= last,
                last == hay.len() - needle.len(),
                j <= needle.len(),
                forall|k: int| 0 <= k < j ==> hay@[i + k] == needle@[k],
            decreases needle.len() - j,
        {
            j = j + 1;
        }
        if j == needle.len() {
            assert(hay@.subrange(i as int, i + needle.len()) =~= needle@);
            assert(starts_at(needle@, hay@, i as int));
            return true;
        }
        assert(!starts_at(needle@, hay@, i as int)) by {
            if starts_at(needle@, hay@, i as int) {
                assert(hay@.subrange(i as int, i + needle.len())[j as int] == needle@[j as int]);
            }
        }
        i = i + 1;
    }
    assert forall|k: int| !starts_at(needle@, hay@, k) by {}
    false
}

/// What a device has to be like to be kept. What is not asked for matches
/// every device.
#[derive(Debug, Clone, PartialEq, Eq, Hash)]
pub struct Filter {
    /// The vendor id of the device.
    pub vid: Option<u16>,
    /// The product id of the device.
    pub pid: Option<u16>,
    /// The number of the bus of the device.
    pub bus: Option<u8>,
    /// The address of the device on its bus.
    pub number: Option<u8>,
    /// What the name of the device holds.
    pub name: Option<String>,
    /// What the serial number of the device holds.
    pub serial: Option<String>,
    /// The base class of the device.
    pub class: Option<u8>,
}

/// A filter as a mathematical value.
pub struct FilterView {
    pub vid: Option<u16>,
    pub pid: Option<u16>,
    pub bus: Option<u8>,
    pub number: Option<u8>,
    pub name: Option<Seq<char>>,
    pub serial: Option<Seq<char>>,
    pub class: Option<u8>,
}

impl FilterView {
    /// The device is what the filter asks for. Text is looked for in the
    /// UTF-8 bytes of the name and of the serial number; a device without
    /// serial number matches no filter that asks for one.
    pub open spec fn matches(self, device: DeviceView) -> bool {
        &&& self.vid matches Some(vid) ==> device.vendor_id == Some(vid)
        &&& self.pid matches Some(pid) ==> device.product_id == Some(pid)
        &&& self.bus matches Some(bus) ==> device.bus == bus
        &&& self.number matches Some(number) ==> device.number == number
        &&& self.name matches Some(name) ==> is_within(encode_utf8(name), encode_utf8(device.name))
        &&& self.serial matches Some(serial) ==> device.serial_num matches Some(found)
            && is_within(encode_utf8(serial), encode_utf8(found))
        &&& self.class matches Some(class) ==> device.class matches Some(triplet)
            && triplet.base_class == class
    }

    /// The device or a device in its tree is what the filter asks for.
    pub open spec fn matches_in_tree(self, device: DeviceView) -> bool
        decreases device, 0nat,
    {
        self.matches(device) || match device.devices {
            Some(devices) => self.matches_among(devices, devices.len()),
            None => false,
        }
    }

    /// A device in the trees of the first `n` devices of `forest` is what the
    /// filter asks for.
    pub open spec fn matches_among(self, forest: Seq<DeviceView>, n: nat) -> bool
        decreases forest, n,
    {
        if n == 0 || n > forest.len() {
            false
        } else {
            self.matches_in_tree(forest[n - 1]) || self.matches_among(forest, (n - 1) as nat)
        }
    }

    /// The device with the trees without match cut off, if there is a match
    /// in its own tree.
    pub open spec fn kept(self, device: DeviceView) -> Option<DeviceView>
        decreases device, 0nat,
    {
        let devices = match device.devices {
            Some(devices) => Some(self.retained(devices, devices.len())),
            None => None,
        };
        if self.matches(device) || (devices matches Some(left) && left.len() > 0) {
            Some(DeviceView { devices, ..device })
        } else {
            None
        }
    }

    /// The first `n` devices of `forest` that have a match in their tree, in
    /// their order, each with the trees without match cut off.
    pub open spec fn retained(self, forest: Seq<DeviceView>, n: nat) -> Seq<DeviceView>
        decreases forest, n,
    {
        if n == 0 || n > forest.len() {
            Seq::empty()
        } else {
            match self.kept(forest[n - 1]) {
                Some(device) => self.retained(forest, (n - 1) as nat).push(device),
                None => self.retained(forest, (n - 1) as nat),
            }
        }
    }

    /// The device with every device of its tree marked as hidden or not:
    /// hidden are those without match in their own tree.
    pub open spec fn marked(self, device: DeviceView) -> DeviceView
        decreases device, 0nat,
    {
        DeviceView {
            hidden: !self.matches_in_tree(device),
            devices: match device.devices {
                Some(devices) => Some(
                    Seq::new(
                        devices.len(),
                        |i: int|
                            if 0 <= i < devices.len() {
                                self.marked(devices[i])
                            } else {
                                arbitrary()
                            },
                    ),
                ),
                None => None,
            },
            ..device
        }
    }

    /// The devices of `forest`, each marked.
    pub open spec fn marked_all(self, forest: Seq<DeviceView>) -> Seq<DeviceView> {
        Seq::new(forest.len(), |i: int| self.marked(forest[i]))
    }

    /// The bus with the devices without match in their tree removed.
    pub open spec fn retained_in(self, bus: BusView) -> BusView {
        BusView {
            devices: match bus.devices {
                Some(devices) => Some(self.retained(devices, devices.len())),
                None => None,
            },
            ..bus
        }
    }

    /// The bus with every device marked as hidden or not.
    pub open spec fn marked_in(self, bus: BusView) -> BusView {
        BusView {
            devices: match bus.devices {
                Some(devices) => Some(self.marked_all(devices)),
                None => None,
            },
            ..bus
        }
    }

    /// The buses `buses`, each with the devices without match in their tree removed.
    pub open spec fn retained_buses(self, buses: Seq<BusView>) -> Seq<BusView> {
        Seq::new(buses.len(), |i: int| self.retained_in(buses[i]))
    }

    /// The buses `buses`, each with every device marked as hidden or not.
    pub open spec fn marked_buses(self, buses: Seq<BusView>) -> Seq<BusView> {
        Seq::new(buses.len(), |i: int| self.marked_in(buses[i]))
    }
}

impl Filter {
    /// The filter as a mathematical value.
    pub open spec fn view(&self) -> FilterView {
        FilterView {
            vid: self.vid,
            pid: self.pid,
            bus: self.bus,
            number: self.number,
            name: match self.name {
                Some(name) => Some(name@),
                None => None,
            },
            serial: match self.serial {
                Some(serial) => Some(serial@),
                None => None,
            },
            class: self.class,
        }
    }

    /// A filter that matches every device.
    pub fn new() -> (filter: Filter)
        ensures
            filter@ == (FilterView {
                vid: None,
                pid: None,
                bus: None,
                number: None,
                name: None,
                serial: None,
                class: None,
            }),
    {
        Filter {
            vid: None,
            pid: None,
            bus: None,
            number: None,
            name: None,
            serial: None,
            class: None,
        }
    }

    /// Whether the device is what the filter asks for.
    pub fn is_match(&self, device: &Device) -> (matched: bool)
        ensures
            matched == self@.matches(device@),
    {
        if let Some(vid) = self.vid {
            match device.vendor_id {
                Some(found) => {
                    if found != vid {
                        return false;
                    }
                },
                None => {
                    return false;
                },
            }
        }
        if let Some(pid) = self.pid {
            match device.product_id {
                Some(found) => {
                    if found != pid {
                        return false;
                    }
                },
                None => {
                    return false;
                },
            }
        }
        if let Some(bus) = self.bus {
            if device.location_id.bus != bus {
                return false;
            }
        }
        if let Some(number) = self.number {
            if device.location_id.number != number {
                return false;
            }
        }
        if let Some(name) = &self.name {
            if !contains_bytes(device.name.as_str().as_bytes(), name.as_str().as_bytes()) {
                return false;
            }
        }
        if let Some(serial) = &self.serial {
            match &device.serial_num {
                Some(found) => {
                    if !contains_bytes(found.as_str().as_bytes(), serial.as_str().as_bytes()) {
                        return false;
                    }
                },
                None => {
                    return false;
                },
            }
        }
        if let Some(class) = self.class {
            match device.class {
                Some(triplet) => {
                    if triplet.base_class != class {
                        return false;
                    }
                },
                None => {
                    return false;
                },
            }
        }
        true
    }

    /// Cuts the trees without match off the device, and hands it back if
    /// there is a match in its own tree.
    pub fn keep(&self, device: Device) -> (kept: Option<Device>)
        ensures
            match kept {
                Some(d) => self@.kept(device@) == Some(d@),
                None => self@.kept(device@) is None,
            },
        decreases device@,
    {
        let matched = self.is_match(&device);
        let mut device = device;
        let ghost before = device@;
        let mut any_left = false;
        match device.devices.take() {
            Some(devices) => {
                assert(before.devices->0 =~= device_views(devices@));
                let left = self.retain_devices(devices);
                any_left = left.len() > 0;
                let ghost left_views = device_views(left@);
                device.devices = Some(left);
                assert(device@.devices->0 =~= left_views);
            },
            None => {},
        }
        if matched || any_left {
            Some(device)
        } else {
            None
        }
    }

    /// The devices that have a match in their tree, in their order, each with
    /// the trees without match cut off.
    pub fn retain_devices(&self, devices: Vec<Device>) -> (left: Vec<Device>)
        ensures
            device_views(left@) == self@.retained(device_views(devices@), devices@.len()),
        decreases device_views(devices@),
    {
        let ghost views = device_views(devices@);
        let mut left: Vec<Device> = Vec::new();
        assert(device_views(left@) =~= self@.retained(views, 0));
        for device in it: devices
            invariant
                it.seq() == devices@,
                views == device_views(devices@),
                device_views(left@) == self@.retained(views, it.index() as nat),
        {
            assert(views[it.index() as int] == device@);
            let ghost before = device_views(left@);
            match self.keep(device) {
                Some(kept) => {
                    left.push(kept);
                    assert(device_views(left@) =~= before.push(kept@));
                },
                None => {},
            }
        }
        left
    }

    /// Removes the devices without match in their tree from `devices`, and
    /// from the trees of those that stay.
    pub fn retain_branch(&self, devices: &mut Vec<Device>)
        ensures
            device_views(final(devices)@) == self@.retained(
                device_views(old(devices)@),
                old(devices)@.len(),
            ),
    {
        let mut taken: Vec<Device> = Vec::new();
        std::mem::swap(devices, &mut taken);
        let mut left = self.retain_devices(taken);
        std::mem::swap(devices, &mut left);
    }

    /// Removes the devices without match in their tree from every bus.
    pub fn retain_buses(&self, buses: &mut Vec<Bus>)
        ensures
            bus_views(final(buses)@) == self@.retained_buses(bus_views(old(buses)@)),
    {
        let ghost before = bus_views(buses@);
        let mut i: usize = 0;
        while i < buses.len()
            invariant
                i <= buses.len(),
                buses@.len() == before.len(),
                forall|j: int| i <= j < buses@.len() ==> (#[trigger] buses@[j])@ == before[j],
                forall|j: int|
                    0 <= j < i ==> (#[trigger] buses@[j])@ == self@.retained_in(before[j]),
            decreases buses.len() - i,
        {
            let bus = &mut buses[i];
            match &mut bus.devices {
                Some(devices) => {
                    self.retain_branch(devices);
                },
                None => {},
            }
            i = i + 1;
        }
        assert(bus_views(buses@) =~= self@.retained_buses(before));
    }

    /// Whether the device or a device in its tree is what the filter asks for.
    pub fn exists_in_tree(&self, device: &Device) -> (found: bool)
        ensures
            found == self@.matches_in_tree(device@),
        decreases device@,
    {
        if self.is_match(device) {
            return true;
        }
        match &device.devices {
            Some(devices) => {
                assert(device@.devices->0 =~= device_views(devices@));
                self.exists_in_any(devices)
            },
            None => false,
        }
    }

    /// Whether a device in the trees of `devices` is what the filter asks for.
    pub fn exists_in_any(&self, devices: &Vec<Device>) -> (found: bool)
        ensures
            found == self@.matches_among(device_views(devices@), devices@.len()),
        decreases device_views(devices@),
    {
        let mut i: usize = 0;
        while i < devices.len()
            invariant
                i <= devices.len(),
                !self@.matches_among(device_views(devices@), i as nat),
            decreases devices.len() - i,
        {
            assert(device_views(devices@)[i as int] == devices@[i as int]@);
            if self.exists_in_tree(&devices[i]) {
                proof {
                    lemma_match_stays(self@, device_views(devices@), (i + 1) as nat, devices@.len());
                }
                return true;
            }
            i = i + 1;
        }
        false
    }

    /// Marks every device in the trees of `devices` as hidden or not: hidden
    /// are those without match in their own tree. No device is removed.
    pub fn hide_devices(&self, devices: &mut Vec<Device>)
        ensures
            device_views(final(devices)@) == self@.marked_all(device_views(old(devices)@)),
        decreases device_views(old(devices)@),
    {
        let ghost views = device_views(devices@);
        let mut i: usize = 0;
        while i < devices.len()
            invariant
                i <= devices.len(),
                devices@.len() == views.len(),
                views == device_views(old(devices)@),
                forall|j: int| i <= j < devices@.len() ==> (#[trigger] devices@[j])@ == views[j],
                forall|j: int|
                    0 <= j < i ==> (#[trigger] devices@[j])@ == self@.marked(views[j]),
            decreases devices.len() - i,
        {
            let found = self.exists_in_tree(&devices[i]);
            let device = &mut devices[i];
            let ghost before = device@;
            device.hidden = !found;
            match &mut device.devices {
                Some(branch) => {
                    assert(before.devices->0 =~= device_views(branch@));
                    self.hide_devices(branch);
                },
                None => {},
            }
            assert(device@ == self@.marked(before)) by {
                if before.devices is Some {
                    let kids = before.devices->0;
                    assert(device_views(device.devices->0@) == self@.marked_all(kids));
                    assert(device@.devices->0 =~= device_views(device.devices->0@));
                    assert(self@.marked(before).devices->0 =~= self@.marked_all(kids));
                }
            }
            i = i + 1;
        }
        assert(device_views(devices@) =~= self@.marked_all(views));
    }

    /// Marks every device of every bus as hidden or not. No device is removed.
    pub fn hide_buses(&self, buses: &mut Vec<Bus>)
        ensures
            bus_views(final(buses)@) == self@.marked_buses(bus_views(old(buses)@)),
    {
        let ghost before = bus_views(buses@);
        let mut i: usize = 0;
        while i < buses.len()
            invariant
                i <= buses.len(),
                buses@.len() == before.len(),
                forall|j: int| i <= j < buses@.len() ==> (#[trigger] buses@[j])@ == before[j],
                forall|j: int| 0 <= j < i ==> (#[trigger] buses@[j])@ == self@.marked_in(before[j]),
            decreases buses.len() - i,
        {
            let bus = &mut buses[i];
            match &mut bus.devices {
                Some(devices) => {
                    self.hide_devices(devices);
                },
                None => {},
            }
            i = i + 1;
        }
        assert(bus_views(buses@) =~= self@.marked_buses(before));
    }
}

/// A match among the first `n` devices is a match among the first `m`, for `n <= m`.
pub proof fn lemma_match_stays(f: FilterView, forest: Seq<DeviceView>, n: nat, m: nat)
    requires
        n <= m <= forest.len(),
        f.matches_among(forest, n),
    ensures
        f.matches_among(forest, m),
    decreases m,
{
    if n < m {
        lemma_match_stays(f, forest, n, (m - 1) as nat);
    }
}

/// A device stays if and only if there is a match in its tree: it matches
/// itself, or a device plugged into it stays.
pub proof fn lemma_kept_iff_match_in_tree(f: FilterView, device: DeviceView)
    ensures
        f.kept(device) is Some <==> f.matches_in_tree(device),
    decreases device, 0nat,
{
    match device.devices {
        Some(devices) => {
            lemma_retained_iff_match_among(f, devices, devices.len());
        },
        None => {},
    }
}

/// Some of the first `n` devices stay if and only if there is a match in
/// their trees; and no device is added.
pub proof fn lemma_retained_iff_match_among(f: FilterView, forest: Seq<DeviceView>, n: nat)
    requires
        n <= forest.len(),
    ensures
        f.retained(forest, n).len() > 0 <==> f.matches_among(forest, n),
        f.retained(forest, n).len() <= n,
    decreases forest, n,
{
    if n > 0 {
        lemma_kept_iff_match_in_tree(f, forest[n - 1]);
        lemma_retained_iff_match_among(f, forest, (n - 1) as nat);
    }
}

/// What stays matches or has a device plugged in that stays; so every
/// device that is left leads to a match.
pub proof fn lemma_kept_leads_to_match(f: FilterView, device: DeviceView)
    requires
        f.kept(device) is Some,
    ensures
        f.matches(device) || f.kept(device)->0.children().len() > 0,
        f.kept(device)->0.children() == match device.devices {
            Some(devices) => f.retained(devices, devices.len()),
            None => Seq::empty(),
        },
{
}

} // verus!
