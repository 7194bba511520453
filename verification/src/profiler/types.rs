//! The model of a host's USB devices: buses that own devices, which own the
//! devices plugged into them.
use crate::error::Error;
use crate::usb::descriptors::ClassCodeTriplet;
use crate::usb::path::{parsed, PortPath, PortPathView};
use crate::usb::DeviceExtra;
use crate::wire::copy_bytes;
use vstd::prelude::*;

verus! {

/// Where a device sits: its bus, its address on the bus and the ports passed
/// on the way to it.
#[derive(Debug, Clone, PartialEq, Eq, Hash)]
pub struct LocationId {
    pub bus: u8,
    pub number: u8,
    pub tree_positions: Vec<u8>,
}

impl LocationId {
    /// The place of the device of the address `number` at the port path that
    /// `text` stands for. A text that stands for no port path is turned down.
    pub fn parse(text: &str, number: u8) -> (r: Result<LocationId, Error>)
        ensures
            match r {
                Ok(location) => parsed(text@) == Some(
                    PortPathView { bus: location.bus, ports: location.tree_positions@ },
                ) && location.number == number,
                Err(e) => e == Error::InvalidPath && parsed(text@) is None,
            },
    {
        let path = PortPath::parse(text)?;
        Ok(LocationId { bus: path.bus(), number, tree_positions: copy_bytes(path.ports()) })
    }
}

/// A USB device, and the devices plugged into it if it is a hub.
#[derive(Debug, PartialEq, Eq, Hash)]
pub struct Device {
    pub name: String,
    pub vendor_id: Option<u16>,
    pub product_id: Option<u16>,
    pub location_id: LocationId,
    pub serial_num: Option<String>,
    pub class: Option<ClassCodeTriplet>,
    /// What is known of the device once it was opened.
    pub extra: Option<DeviceExtra>,
    /// Set where a filter hides the device from display without removing it.
    pub hidden: bool,
    pub devices: Option<Vec<Device>>,
}

/// A device as a mathematical value.
pub struct DeviceView {
    pub name: Seq<char>,
    pub vendor_id: Option<u16>,
    pub product_id: Option<u16>,
    pub bus: u8,
    pub number: u8,
    pub tree_positions: Seq<u8>,
    pub serial_num: Option<Seq<char>>,
    pub class: Option<ClassCodeTriplet>,
    pub extra: Option<DeviceExtra>,
    pub hidden: bool,
    pub devices: Option<Seq<DeviceView>>,
}

/// The views of the devices of `s`.
pub open spec fn device_views(s: Seq<Device>) -> Seq<DeviceView> {
    Seq::new(s.len(), |i: int| s[i]@)
}

impl Device {
    /// The device as a mathematical value.
    pub open spec fn view(&self) -> DeviceView
        decreases self,
    {
        DeviceView {
            name: self.name@,
            vendor_id: self.vendor_id,
            product_id: self.product_id,
            bus: self.location_id.bus,
            number: self.location_id.number,
            tree_positions: self.location_id.tree_positions@,
            serial_num: match self.serial_num {
                Some(serial) => Some(serial@),
                None => None,
            },
            class: self.class,
            extra: self.extra,
            hidden: self.hidden,
            devices: match self.devices {
                Some(devices) => Some(
                    Seq::new(
                        devices@.len(),
                        |i: int|
                            if 0 <= i < devices@.len() {
                                devices@[i].view()
                            } else {
                                arbitrary()
                            },
                    ),
                ),
                None => None,
            },
        }
    }
}

impl DeviceView {
    /// The address of the device.
    pub open spec fn port_path(self) -> PortPathView {
        PortPathView { bus: self.bus, ports: self.tree_positions }
    }

    /// The address of the hub that the device is plugged into: for a device
    /// without ports, the root hub of its bus.
    pub open spec fn parent_path(self) -> PortPathView {
        match self.port_path().parent() {
            Some(parent) => parent,
            None => self.port_path().trunk(),
        }
    }

    /// The devices plugged into the device.
    pub open spec fn children(self) -> Seq<DeviceView> {
        match self.devices {
            Some(devices) => devices,
            None => Seq::empty(),
        }
    }

    /// The device with `kid` plugged in after its other devices.
    pub open spec fn adopt(self, kid: DeviceView) -> DeviceView {
        DeviceView { devices: Some(self.children().push(kid)), ..self }
    }

    /// The device, with `kid` plugged into the first device at the address
    /// `parent` that is met when the device is taken before the devices
    /// plugged into it, and these in their order. There is none where no
    /// device is at that address.
    pub open spec fn attach(self, parent: PortPathView, kid: DeviceView) -> Option<DeviceView>
        decreases self, 0nat,
    {
        if self.port_path() == parent {
            Some(self.adopt(kid))
        } else {
            match self.devices {
                Some(devices) => match attach_among(devices, 0, parent, kid) {
                    Some(attached) => Some(DeviceView { devices: Some(attached), ..self }),
                    None => None,
                },
                None => None,
            }
        }
    }

    /// The number of devices in the tree of the device, itself counted.
    pub open spec fn count(self) -> nat
        decreases self, 0nat,
    {
        match self.devices {
            Some(devices) => 1 + count_among(devices, devices.len()),
            None => 1,
        }
    }
}

impl DeviceView {
    /// Whether a device at the address `path` is in the tree of the device.
    pub open spec fn holds(self, path: PortPathView) -> bool
        decreases self, 0nat,
    {
        self.port_path() == path || match self.devices {
            Some(devices) => held_among(devices, devices.len(), path),
            None => false,
        }
    }
}

/// Whether a device at the address `path` is in the trees of the first `n`
/// devices of `forest`.
pub open spec fn held_among(forest: Seq<DeviceView>, n: nat, path: PortPathView) -> bool
    decreases forest, n,
{
    if n == 0 || n > forest.len() {
        false
    } else {
        held_among(forest, (n - 1) as nat, path) || forest[n - 1].holds(path)
    }
}

/// The devices `forest` with `kid` plugged into the first device at the
/// address `parent` that is met in the trees from `forest[from]` on.
pub open spec fn attach_among(
    forest: Seq<DeviceView>,
    from: nat,
    parent: PortPathView,
    kid: DeviceView,
) -> Option<Seq<DeviceView>>
    decreases forest, forest.len() - from,
{
    if from >= forest.len() {
        None
    } else {
        match forest[from as int].attach(parent, kid) {
            Some(attached) => Some(forest.update(from as int, attached)),
            None => attach_among(forest, from + 1, parent, kid),
        }
    }
}

/// The number of devices in the trees of the first `n` devices of `forest`.
pub open spec fn count_among(forest: Seq<DeviceView>, n: nat) -> nat
    decreases forest, n,
{
    if n == 0 || n > forest.len() {
        0
    } else {
        forest[n - 1].count() + count_among(forest, (n - 1) as nat)
    }
}

impl Device {
    /// The address of the device.
    pub fn port_path(&self) -> (path: PortPath)
        ensures
            path@ == self@.port_path(),
    {
        PortPath::new(self.location_id.bus, copy_bytes(&self.location_id.tree_positions))
    }

    /// The address of the hub that the device is plugged into; a device
    /// without ports has none.
    pub fn parent_port_path(&self) -> (parent: Option<PortPath>)
        ensures
            match parent {
                Some(p) => self@.port_path().parent() == Some(p@),
                None => self@.port_path().parent() is None,
            },
    {
        self.port_path().parent()
    }

    /// The address of the root hub of the bus of the device.
    pub fn trunk_port_path(&self) -> (trunk: PortPath)
        ensures
            trunk@ == self@.port_path().trunk(),
    {
        PortPath::new(self.location_id.bus, Vec::new())
    }

    /// The number of hubs between the root hub and the hub that the device is
    /// plugged into.
    pub fn parent_depth(&self) -> (depth: usize)
        ensures
            depth == self@.parent_path().depth(),
    {
        let len = self.location_id.tree_positions.len();
        if len == 0 {
            0
        } else {
            len - 1
        }
    }

    /// Whether the device is at the address `path`.
    pub fn is_at(&self, path: &PortPath) -> (at: bool)
        ensures
            at == (self@.port_path() == path@),
    {
        let ports = path.ports();
        let own = &self.location_id.tree_positions;
        if self.location_id.bus != path.bus() || own.len() != ports.len() {
            return false;
        }
        let mut i: usize = 0;
        while i < own.len()
            invariant
                i <= own.len(),
                own.len() == ports.len(),
                own@ == self@.tree_positions,
                ports@ == path@.ports,
                forall|j: int| 0 <= j < i ==> own@[j] == ports@[j],
            decreases own.len() - i,
        {
            if own[i] != ports[i] {
                assert(self@.port_path().ports[i as int] != path@.ports[i as int]);
                return false;
            }
            i = i + 1;
        }
        assert(own@ =~= ports@);
        true
    }

    /// Plugs `kid` into the device at the address `parent` in the tree of
    /// `self`, or hands it back where no device is at that address.
    pub fn attach(&mut self, parent: &PortPath, kid: Device) -> (back: Option<Device>)
        ensures
            match back {
                None => old(self)@.attach(parent@, kid@) == Some(final(self)@),
                Some(k) => k == kid && old(self)@.attach(parent@, kid@) is None && final(self)@
                    == old(self)@,
            },
        decreases old(self)@,
    {
        if self.is_at(parent) {
            let mut devices = match self.devices.take() {
                Some(devices) => devices,
                None => Vec::new(),
            };
            let ghost before = device_views(devices@);
            assert(old(self)@.children() =~= before);
            devices.push(kid);
            assert(device_views(devices@) =~= before.push(kid@));
            self.devices = Some(devices);
            assert(self@.devices->0 =~= before.push(kid@));
            None
        } else {
            match &mut self.devices {
                Some(devices) => {
                    let ghost before = device_views(devices@);
                    assert(old(self)@.devices->0 =~= before);
                    let back = attach_to_any(devices, parent, kid);
                    assert(self@.devices->0 =~= device_views(self.devices->0@));
                    back
                },
                None => Some(kid),
            }
        }
    }
}

/// Plugs `kid` into the device at the address `parent` in the trees of
/// `forest`, or hands it back where no device is at that address.
pub fn attach_to_any(forest: &mut Vec<Device>, parent: &PortPath, kid: Device) -> (back: Option<
    Device,
>)
    ensures
        match back {
            None => attach_among(device_views(old(forest)@), 0, parent@, kid@) == Some(
                device_views(final(forest)@),
            ),
            Some(k) => k == kid && attach_among(device_views(old(forest)@), 0, parent@, kid@)
                is None && device_views(final(forest)@) == device_views(old(forest)@),
        },
    decreases device_views(old(forest)@),
{
    let mut pending = kid;
    let mut i: usize = 0;
    while i < forest.len()
        invariant
            i <= forest.len(),
            device_views(forest@) == device_views(old(forest)@),
            pending == kid,
            attach_among(device_views(forest@), 0, parent@, kid@) == attach_among(
                device_views(forest@),
                i as nat,
                parent@,
                kid@,
            ),
        decreases forest.len() - i,
    {
        let ghost views = device_views(forest@);
        match forest[i].attach(parent, pending) {
            None => {
                assert(device_views(forest@) =~= views.update(i as int, forest@[i as int]@));
                return None;
            },
            Some(k) => {
                assert(device_views(forest@) =~= views);
                pending = k;
            },
        }
        i = i + 1;
    }
    Some(pending)
}

/// A USB bus: what is known of its host controller, and the devices plugged
/// into its root hub.
#[derive(Debug, PartialEq, Eq, Hash)]
pub struct Bus {
    pub name: String,
    pub host_controller: String,
    pub pci_vendor: Option<u16>,
    pub pci_device: Option<u16>,
    pub pci_revision: Option<u16>,
    pub usb_bus_number: Option<u8>,
    pub devices: Option<Vec<Device>>,
}

/// A bus as a mathematical value.
pub struct BusView {
    pub name: Seq<char>,
    pub host_controller: Seq<char>,
    pub pci_vendor: Option<u16>,
    pub pci_device: Option<u16>,
    pub pci_revision: Option<u16>,
    pub usb_bus_number: Option<u8>,
    pub devices: Option<Seq<DeviceView>>,
}

/// The views of the buses of `s`.
pub open spec fn bus_views(s: Seq<Bus>) -> Seq<BusView> {
    Seq::new(s.len(), |i: int| s[i]@)
}

/// The buses `buses`, each flattened.
pub open spec fn flattened_buses(buses: Seq<BusView>) -> Seq<BusView> {
    Seq::new(buses.len(), |i: int| buses[i].flattened())
}

impl BusView {
    /// The bus of the number `number` of which nothing else is known.
    pub open spec fn unknown(number: u8) -> BusView {
        BusView {
            name: Seq::empty(),
            host_controller: Seq::empty(),
            pci_vendor: None,
            pci_device: None,
            pci_revision: None,
            usb_bus_number: Some(number),
            devices: None,
        }
    }

    /// The devices plugged into the root hub of the bus.
    pub open spec fn children(self) -> Seq<DeviceView> {
        match self.devices {
            Some(devices) => devices,
            None => Seq::empty(),
        }
    }

    /// The bus with every device of its tree directly on it, in the order
    /// in which the tree is walked, each without what was plugged into it.
    pub open spec fn flattened(self) -> BusView {
        BusView {
            devices: match self.devices {
                Some(devices) => Some(flat_among(devices, devices.len())),
                None => None,
            },
            ..self
        }
    }

    /// The number of devices in the tree of the bus.
    pub open spec fn count(self) -> nat {
        count_among(self.children(), self.children().len())
    }

    /// Whether a device at the address `path` is in the tree of the bus.
    pub open spec fn holds(self, path: PortPathView) -> bool {
        held_among(self.children(), self.children().len(), path)
    }

    /// The bus with `kid` plugged into the device at the address `parent`: into
    /// the root hub where `parent` is the address of one, else into the first
    /// device at that address that is met in the trees of the bus. There is
    /// none where no device is at that address.
    pub open spec fn attach(self, parent: PortPathView, kid: DeviceView) -> Option<BusView> {
        if parent.is_root_hub() {
            Some(BusView { devices: Some(self.children().push(kid)), ..self })
        } else {
            match self.devices {
                Some(devices) => match attach_among(devices, 0, parent, kid) {
                    Some(attached) => Some(BusView { devices: Some(attached), ..self }),
                    None => None,
                },
                None => None,
            }
        }
    }

    /// The bus with the first `n` devices of `order` plugged in one after the
    /// other, each into the device at the address of its parent. There is
    /// none where one of them finds no device at that address.
    pub open spec fn attach_all(self, order: Seq<DeviceView>, n: nat) -> Option<BusView>
        decreases n,
    {
        if n == 0 {
            Some(self)
        } else {
            match self.attach_all(order, (n - 1) as nat) {
                Some(bus) => bus.attach(order[n - 1].parent_path(), order[n - 1]),
                None => None,
            }
        }
    }
}

impl Bus {
    /// The bus as a mathematical value.
    pub open spec fn view(&self) -> BusView {
        BusView {
            name: self.name@,
            host_controller: self.host_controller@,
            pci_vendor: self.pci_vendor,
            pci_device: self.pci_device,
            pci_revision: self.pci_revision,
            usb_bus_number: self.usb_bus_number,
            devices: match self.devices {
                Some(devices) => Some(device_views(devices@)),
                None => None,
            },
        }
    }

    /// The bus of the number `number` of which nothing else is known.
    pub fn new(number: u8) -> (bus: Bus)
        ensures
            bus@ == BusView::unknown(number),
    {
        Bus {
            name: String::new(),
            host_controller: String::new(),
            pci_vendor: None,
            pci_device: None,
            pci_revision: None,
            usb_bus_number: Some(number),
            devices: None,
        }
    }

    /// The bus that the root hub `root_hub` stands for: it has the name, the
    /// ids and the bus number of the root hub, and no devices yet.
    pub fn from_root_hub(root_hub: Device) -> (bus: Bus)
        ensures
            bus@ == (BusView {
                name: root_hub@.name,
                host_controller: Seq::empty(),
                pci_vendor: root_hub@.vendor_id,
                pci_device: root_hub@.product_id,
                pci_revision: None,
                usb_bus_number: Some(root_hub@.bus),
                devices: None,
            }),
    {
        Bus {
            name: root_hub.name,
            host_controller: String::new(),
            pci_vendor: root_hub.vendor_id,
            pci_device: root_hub.product_id,
            pci_revision: None,
            usb_bus_number: Some(root_hub.location_id.bus),
            devices: None,
        }
    }

    /// The bus of the number `bus_number`: the bus that `root_hub` stands for
    /// where there is one, else a bus of which nothing else is known.
    pub fn new_sp_bus(bus_number: u8, root_hub: Option<Device>) -> (bus: Bus)
        ensures
            bus@ == match root_hub {
                Some(rh) => BusView {
                    name: rh@.name,
                    host_controller: Seq::empty(),
                    pci_vendor: rh@.vendor_id,
                    pci_device: rh@.product_id,
                    pci_revision: None,
                    usb_bus_number: Some(rh@.bus),
                    devices: None,
                },
                None => BusView::unknown(bus_number),
            },
    {
        match root_hub {
            Some(rh) => Bus::from_root_hub(rh),
            None => Bus::new(bus_number),
        }
    }

    /// The number of the bus, if it has one.
    pub fn get_bus_number(&self) -> (number: Option<u8>)
        ensures
            number == self@.usb_bus_number,
    {
        self.usb_bus_number
    }

    /// Plugs `kid` into the device at the address `parent`, or hands it back
    /// where no device of the bus is at that address.
    pub fn attach(&mut self, parent: &PortPath, kid: Device) -> (back: Option<Device>)
        ensures
            match back {
                None => old(self)@.attach(parent@, kid@) == Some(final(self)@),
                Some(k) => k == kid && old(self)@.attach(parent@, kid@) is None && final(self)@
                    == old(self)@,
            },
    {
        if parent.is_root_hub() {
            let mut devices = match self.devices.take() {
                Some(devices) => devices,
                None => Vec::new(),
            };
            let ghost before = device_views(devices@);
            assert(old(self)@.children() =~= before);
            devices.push(kid);
            assert(device_views(devices@) =~= before.push(kid@));
            self.devices = Some(devices);
            None
        } else {
            match &mut self.devices {
                Some(devices) => attach_to_any(devices, parent, kid),
                None => Some(kid),
            }
        }
    }

    /// Plugs the devices of `order` in one after the other, each into the
    /// device at the address of its parent. Fails at the first that finds no
    /// device at that address.
    pub fn attach_all(&mut self, order: Vec<Device>) -> (r: Result<(), Error>)
        ensures
            match r {
                Ok(()) => old(self)@.attach_all(device_views(order@), order@.len()) == Some(
                    final(self)@,
                ),
                Err(e) => e == Error::MissingParent && old(self)@.attach_all(
                    device_views(order@),
                    order@.len(),
                ) is None,
            },
    {
        let ghost views = device_views(order@);
        let ghost start = self@;
        let mut failed = false;
        for device in it: order
            invariant
                it.seq() == order@,
                views == device_views(order@),
                failed ==> start.attach_all(views, order@.len()) is None,
                !failed ==> start.attach_all(views, it.index() as nat) == Some(self@),
        {
            if !failed {
                let ghost i = it.index() as int;
                assert(views[i] == device@);
                let parent = match device.parent_port_path() {
                    Some(parent) => parent,
                    None => device.trunk_port_path(),
                };
                match self.attach(&parent, device) {
                    None => {},
                    Some(_) => {
                        failed = true;
                        proof {
                            lemma_attach_all_fails(start, views, (i + 1) as nat, order@.len());
                        }
                    },
                }
            }
        }
        if failed {
            Err(Error::MissingParent)
        } else {
            Ok(())
        }
    }
}

/// Where the first `n` devices cannot all be plugged in, no more of them can.
pub proof fn lemma_attach_all_fails(bus: BusView, order: Seq<DeviceView>, n: nat, m: nat)
    requires
        n <= m,
        bus.attach_all(order, n) is None,
    ensures
        bus.attach_all(order, m) is None,
    decreases m,
{
    if n < m {
        lemma_attach_all_fails(bus, order, n, (m - 1) as nat);
    }
}

/// The number of devices in the first trees is that of the same trees of
/// devices that agree with them.
pub proof fn lemma_count_of_prefix(a: Seq<DeviceView>, b: Seq<DeviceView>, n: nat)
    requires
        n <= a.len(),
        n <= b.len(),
        forall|i: int| 0 <= i < n ==> a[i] == b[i],
    ensures
        count_among(a, n) == count_among(b, n),
    decreases n,
{
    if n > 0 {
        lemma_count_of_prefix(a, b, (n - 1) as nat);
    }
}

/// Putting another tree in the place of one changes the number of devices by
/// the difference of the two.
pub proof fn lemma_count_of_update(forest: Seq<DeviceView>, at: int, tree: DeviceView, n: nat)
    requires
        0 <= at < n <= forest.len(),
    ensures
        count_among(forest.update(at, tree), n) + forest[at].count() == count_among(forest, n)
            + tree.count(),
    decreases n,
{
    if at == n - 1 {
        lemma_count_of_prefix(forest.update(at, tree), forest, (n - 1) as nat);
    } else {
        lemma_count_of_update(forest, at, tree, (n - 1) as nat);
    }
}

/// A tree that a device is plugged into holds the devices it held and those
/// of the tree of the device.
pub proof fn lemma_attach_keeps_all(device: DeviceView, parent: PortPathView, kid: DeviceView)
    requires
        device.attach(parent, kid) is Some,
    ensures
        device.attach(parent, kid)->0.count() == device.count() + kid.count(),
    decreases device, 0nat,
{
    if device.port_path() == parent {
        let before = device.children();
        let after = before.push(kid);
        lemma_count_of_prefix(after, before, before.len());
    } else {
        lemma_attach_among_keeps_all(device.devices->0, 0, parent, kid);
    }
}

/// Trees that a device is plugged into hold the devices they held and those
/// of the tree of the device.
pub proof fn lemma_attach_among_keeps_all(
    forest: Seq<DeviceView>,
    from: nat,
    parent: PortPathView,
    kid: DeviceView,
)
    requires
        attach_among(forest, from, parent, kid) is Some,
    ensures
        attach_among(forest, from, parent, kid)->0.len() == forest.len(),
        count_among(attach_among(forest, from, parent, kid)->0, forest.len()) == count_among(
            forest,
            forest.len(),
        ) + kid.count(),
    decreases forest, forest.len() - from,
{
    if from < forest.len() {
        match forest[from as int].attach(parent, kid) {
            Some(attached) => {
                lemma_attach_keeps_all(forest[from as int], parent, kid);
                lemma_count_of_update(forest, from as int, attached, forest.len());
            },
            None => {
                lemma_attach_among_keeps_all(forest, from + 1, parent, kid);
            },
        }
    }
}

/// A bus that devices are plugged into one after the other holds the devices
/// it held and those of the trees of the devices: none is lost and none is
/// there twice.
pub proof fn lemma_attach_all_keeps_all(bus: BusView, order: Seq<DeviceView>, n: nat)
    requires
        n <= order.len(),
        bus.attach_all(order, n) is Some,
    ensures
        bus.attach_all(order, n)->0.count() == bus.count() + count_among(order, n),
    decreases n,
{
    if n > 0 {
        let before = bus.attach_all(order, (n - 1) as nat)->0;
        let kid = order[n - 1];
        lemma_attach_all_keeps_all(bus, order, (n - 1) as nat);
        if kid.parent_path().is_root_hub() {
            let children = before.children();
            lemma_count_of_prefix(children.push(kid), children, children.len());
        } else {
            lemma_attach_among_keeps_all(before.devices->0, 0, kid.parent_path(), kid);
        }
    }
}

/// A device is in the first trees where it is in one of them.
pub proof fn lemma_held_among(forest: Seq<DeviceView>, n: nat, path: PortPathView)
    requires
        n <= forest.len(),
    ensures
        held_among(forest, n, path) <==> exists|i: int|
            0 <= i < n && (#[trigger] forest[i]).holds(path),
    decreases n,
{
    if n > 0 {
        lemma_held_among(forest, (n - 1) as nat, path);
        if held_among(forest, n, path) {
            if forest[n - 1].holds(path) {
            } else {
                let i = choose|i: int| 0 <= i < n - 1 && (#[trigger] forest[i]).holds(path);
                assert(forest[i].holds(path));
            }
        }
    }
}

/// A device can be plugged into a tree exactly where the tree holds a device
/// at the address of its parent.
pub proof fn lemma_attach_where_held(device: DeviceView, parent: PortPathView, kid: DeviceView)
    ensures
        device.attach(parent, kid) is Some <==> device.holds(parent),
    decreases device, 0nat,
{
    if device.port_path() != parent {
        match device.devices {
            Some(devices) => {
                lemma_attach_among_where_held(devices, 0, parent, kid);
                lemma_held_among(devices, devices.len(), parent);
            },
            None => {},
        }
    }
}

/// A device can be plugged into trees exactly where one of them holds a
/// device at the address of its parent.
pub proof fn lemma_attach_among_where_held(
    forest: Seq<DeviceView>,
    from: nat,
    parent: PortPathView,
    kid: DeviceView,
)
    ensures
        attach_among(forest, from, parent, kid) is Some <==> exists|i: int|
            from <= i < forest.len() && (#[trigger] forest[i]).holds(parent),
    decreases forest, forest.len() - from,
{
    if from < forest.len() {
        lemma_attach_where_held(forest[from as int], parent, kid);
        lemma_attach_among_where_held(forest, from + 1, parent, kid);
        if attach_among(forest, from, parent, kid) is Some {
            if forest[from as int].attach(parent, kid) is Some {
                assert(forest[from as int].holds(parent));
            } else {
                let i = choose|i: int|
                    from + 1 <= i < forest.len() && (#[trigger] forest[i]).holds(parent);
                assert(forest[i].holds(parent));
            }
        }
    }
}

/// A tree that a device was plugged into holds what it held and what the
/// tree of the device holds, and nothing else.
pub proof fn lemma_attach_adds(
    device: DeviceView,
    parent: PortPathView,
    kid: DeviceView,
    path: PortPathView,
)
    requires
        device.attach(parent, kid) is Some,
    ensures
        device.attach(parent, kid)->0.holds(path) <==> device.holds(path) || kid.holds(path),
    decreases device, 0nat,
{
    if device.port_path() == parent {
        let before = device.children();
        lemma_push_adds(before, kid, path);
        assert(device.adopt(kid).devices == Some(before.push(kid)));
        assert(device.devices is None ==> !held_among(before, before.len(), path));
    } else {
        lemma_attach_among_keeps_all(device.devices->0, 0, parent, kid);
        lemma_attach_among_adds(device.devices->0, 0, parent, kid, path);
    }
}

/// Trees with one more tree after them hold what they held and what the new
/// tree holds.
pub proof fn lemma_push_adds(forest: Seq<DeviceView>, kid: DeviceView, path: PortPathView)
    ensures
        held_among(forest.push(kid), forest.len() + 1, path) <==> held_among(
            forest,
            forest.len(),
            path,
        ) || kid.holds(path),
{
    let after = forest.push(kid);
    lemma_held_among(forest, forest.len(), path);
    lemma_held_among(after, forest.len(), path);
    if held_among(forest, forest.len(), path) {
        let i = choose|i: int| 0 <= i < forest.len() && (#[trigger] forest[i]).holds(path);
        assert(after[i].holds(path));
    }
    if held_among(after, forest.len(), path) {
        let i = choose|i: int| 0 <= i < forest.len() && (#[trigger] after[i]).holds(path);
        assert(forest[i].holds(path));
    }
}

/// Trees that a device was plugged into hold what they held and what the
/// tree of the device holds, and nothing else.
pub proof fn lemma_attach_among_adds(
    forest: Seq<DeviceView>,
    from: nat,
    parent: PortPathView,
    kid: DeviceView,
    path: PortPathView,
)
    requires
        attach_among(forest, from, parent, kid) is Some,
    ensures
        held_among(attach_among(forest, from, parent, kid)->0, forest.len(), path) <==> held_among(
            forest,
            forest.len(),
            path,
        ) || kid.holds(path),
    decreases forest, forest.len() - from,
{
    if from < forest.len() {
        match forest[from as int].attach(parent, kid) {
            Some(attached) => {
                let after = forest.update(from as int, attached);
                lemma_attach_adds(forest[from as int], parent, kid, path);
                lemma_held_among(forest, forest.len(), path);
                lemma_held_among(after, forest.len(), path);
                if held_among(forest, forest.len(), path) {
                    let i = choose|i: int|
                        0 <= i < forest.len() && (#[trigger] forest[i]).holds(path);
                    assert(after[i].holds(path));
                }
                if kid.holds(path) {
                    assert(after[from as int].holds(path));
                }
                if held_among(after, forest.len(), path) {
                    let i = choose|i: int|
                        0 <= i < forest.len() && (#[trigger] after[i]).holds(path);
                    if i != from {
                        assert(forest[i].holds(path));
                    }
                }
            },
            None => {
                lemma_attach_among_adds(forest, from + 1, parent, kid, path);
            },
        }
    }
}

/// A device can be plugged into a bus exactly where its parent is the root
/// hub or a device of the bus; the bus then holds what it held and what the
/// tree of the device holds, and nothing else.
pub proof fn lemma_bus_attach(bus: BusView, parent: PortPathView, kid: DeviceView, path: PortPathView)
    ensures
        bus.attach(parent, kid) is Some <==> parent.is_root_hub() || bus.holds(parent),
        bus.attach(parent, kid) is Some ==> (bus.attach(parent, kid)->0.holds(path) <==> bus.holds(
            path,
        ) || kid.holds(path)),
{
    if parent.is_root_hub() {
        lemma_push_adds(bus.children(), kid, path);
    } else {
        match bus.devices {
            Some(devices) => {
                lemma_attach_among_where_held(devices, 0, parent, kid);
                lemma_held_among(devices, devices.len(), parent);
                if attach_among(devices, 0, parent, kid) is Some {
                    lemma_attach_among_keeps_all(devices, 0, parent, kid);
                    lemma_attach_among_adds(devices, 0, parent, kid, path);
                }
            },
            None => {},
        }
    }
}

/// Each of the first `n` devices of `order` finds its parent: the root hub, a
/// device of `bus`, or a device in the tree of one that comes before it.
pub open spec fn parents_before(bus: BusView, order: Seq<DeviceView>, n: nat) -> bool {
    forall|i: int|
        0 <= i < n ==> {
            let parent = (#[trigger] order[i]).parent_path();
            parent.is_root_hub() || bus.holds(parent) || held_among(order, i as nat, parent)
        }
}

/// Devices can be plugged into a bus one after the other exactly where each
/// finds its parent when its turn comes. The bus then holds what it held and
/// what the trees of the devices hold, and nothing else.
pub proof fn lemma_attach_all_where_parents(bus: BusView, order: Seq<DeviceView>, n: nat)
    requires
        n <= order.len(),
    ensures
        bus.attach_all(order, n) is Some <==> parents_before(bus, order, n),
        bus.attach_all(order, n) is Some ==> forall|path: PortPathView|
            #[trigger] bus.attach_all(order, n)->0.holds(path) <==> bus.holds(path) || held_among(
                order,
                n,
                path,
            ),
    decreases n,
{
    if n > 0 {
        let m = (n - 1) as nat;
        let kid = order[n - 1];
        let parent = kid.parent_path();
        lemma_attach_all_where_parents(bus, order, m);
        match bus.attach_all(order, m) {
            Some(before) => {
                assert(before.holds(parent) <==> bus.holds(parent) || held_among(order, m, parent));
                lemma_bus_attach(before, parent, kid, parent);
                if before.attach(parent, kid) is Some {
                    assert forall|path: PortPathView| #[trigger]
                        bus.attach_all(order, n)->0.holds(path) <==> bus.holds(path) || held_among(
                            order,
                            n,
                            path,
                        ) by {
                        lemma_bus_attach(before, parent, kid, path);
                        assert(before.holds(path) <==> bus.holds(path) || held_among(
                            order,
                            m,
                            path,
                        ));
                    }
                } else {
                    assert(!parents_before(bus, order, n)) by {
                        assert(order[n - 1] == kid);
                    }
                }
            },
            None => {
                assert(!parents_before(bus, order, m));
            },
        }
    }
}

/// All the buses of a host with their devices.
#[derive(Debug, PartialEq, Eq, Hash)]
pub struct SystemProfile {
    pub buses: Vec<Bus>,
}

impl DeviceView {
    /// The devices of the tree of the device, each without what is plugged
    /// into it: the device first, then the trees of its devices in their order.
    pub open spec fn flat(self) -> Seq<DeviceView>
        decreases self, 0nat,
    {
        seq![DeviceView { devices: None, ..self }] + match self.devices {
            Some(devices) => flat_among(devices, devices.len()),
            None => Seq::empty(),
        }
    }
}

/// The devices of the trees of the first `n` devices of `forest`, each
/// without what is plugged into it, tree after tree.
pub open spec fn flat_among(forest: Seq<DeviceView>, n: nat) -> Seq<DeviceView>
    decreases forest, n,
{
    if n == 0 || n > forest.len() {
        Seq::empty()
    } else {
        flat_among(forest, (n - 1) as nat) + forest[n - 1].flat()
    }
}

/// A tree is flattened to as many devices as it holds.
pub proof fn lemma_flat_holds_all(device: DeviceView)
    ensures
        device.flat().len() == device.count(),
    decreases device, 0nat,
{
    match device.devices {
        Some(devices) => {
            lemma_flat_among_holds_all(devices, devices.len());
        },
        None => {},
    }
}

/// Trees are flattened to as many devices as they hold.
pub proof fn lemma_flat_among_holds_all(forest: Seq<DeviceView>, n: nat)
    requires
        n <= forest.len(),
    ensures
        flat_among(forest, n).len() == count_among(forest, n),
    decreases forest, n,
{
    if n > 0 {
        lemma_flat_among_holds_all(forest, (n - 1) as nat);
        lemma_flat_holds_all(forest[n - 1]);
    }
}

impl Device {
    /// The devices of the tree of the device, each without what is plugged
    /// into it: the device first, then the trees of its devices in their order.
    pub fn into_flattened(self) -> (flat: Vec<Device>)
        ensures
            device_views(flat@) == self@.flat(),
        decreases self@,
    {
        let mut device = self;
        let ghost before = device@;
        let branch = device.devices.take();
        let mut flat: Vec<Device> = Vec::new();
        flat.push(device);
        assert(device_views(flat@) =~= seq![DeviceView { devices: None, ..before }]);
        match branch {
            Some(devices) => {
                assert(before.devices->0 =~= device_views(devices@));
                let mut below = flatten_all(devices);
                let ghost head = device_views(flat@);
                let ghost tail = device_views(below@);
                flat.append(&mut below);
                assert(device_views(flat@) =~= head + tail);
            },
            None => {
                assert(device_views(flat@) + Seq::<DeviceView>::empty() =~= device_views(flat@));
            },
        }
        flat
    }
}

/// The devices of the trees of `devices`, each without what is plugged into
/// it, tree after tree.
pub fn flatten_all(devices: Vec<Device>) -> (flat: Vec<Device>)
    ensures
        device_views(flat@) == flat_among(device_views(devices@), devices@.len()),
    decreases device_views(devices@),
{
    let ghost views = device_views(devices@);
    let mut flat: Vec<Device> = Vec::new();
    assert(device_views(flat@) =~= flat_among(views, 0));
    for device in it: devices
        invariant
            it.seq() == devices@,
            views == device_views(devices@),
            device_views(flat@) == flat_among(views, it.index() as nat),
    {
        assert(views[it.index() as int] == device@);
        let mut tree = device.into_flattened();
        let ghost head = device_views(flat@);
        let ghost tail = device_views(tree@);
        flat.append(&mut tree);
        assert(device_views(flat@) =~= head + tail);
    }
    flat
}

impl Bus {
    /// Puts every device of the tree of the bus directly on the bus, in the
    /// order in which the tree is walked, each without what was plugged into it.
    pub fn into_flattened(&mut self)
        ensures
            final(self)@ == old(self)@.flattened(),
    {
        match self.devices.take() {
            Some(devices) => {
                self.devices = Some(flatten_all(devices));
            },
            None => {},
        }
    }
}

impl SystemProfile {
    /// Flattens the tree of every bus.
    pub fn into_flattened(&mut self)
        ensures
            bus_views(final(self).buses@) == flattened_buses(bus_views(old(self).buses@)),
    {
        let ghost before = bus_views(self.buses@);
        let mut i: usize = 0;
        while i < self.buses.len()
            invariant
                i <= self.buses.len(),
                self.buses@.len() == before.len(),
                forall|j: int| i <= j < self.buses@.len() ==> (#[trigger] self.buses@[j])@ == before[j],
                forall|j: int|
                    0 <= j < i ==> (#[trigger] self.buses@[j])@ == before[j].flattened(),
            decreases self.buses.len() - i,
        {
            let bus = &mut self.buses[i];
            bus.into_flattened();
            i = i + 1;
        }
        assert(bus_views(self.buses@) =~= flattened_buses(before));
    }
}

} // verus!
