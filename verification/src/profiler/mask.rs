//! Masking the serial numbers of devices before they are shown.
use crate::profiler::types::{Bus, Device};
use crate::text::push_char;
use vstd::prelude::*;
use vstd::string::StrSliceExecFns;

verus! {

/// Options for masking serial numbers
#[derive(Debug, Clone, Copy, PartialEq, Eq)]
pub enum MaskSerial {
    /// Hide with '*' char
    Hide,
    /// Mask by randomising existing chars
    Scramble,
    /// Mask by replacing length with random chars
    Replace,
}

/// The character is a digit or a letter of the ASCII alphabet.
pub open spec fn is_alphanumeric(c: char) -> bool {
    ('0' <= c <= '9') || ('A' <= c <= 'Z') || ('a' <= c <= 'z')
}

/// The character is a digit or a capital letter of the ASCII alphabet.
pub open spec fn is_capital_or_digit(c: char) -> bool {
    ('0' <= c <= '9') || ('A' <= c <= 'Z')
}

/// A number below `n`, drawn at random.
///
/// Trusted: `fastrand::usize` gives a number within the range it is handed,
/// and panics on an empty range, which `n > 0` rules out.
#[verifier::external_body]
fn random_below(n: usize) -> (i: usize)
    requires
        n > 0,
    ensures
        i < n,
{
    fastrand::usize(0..n)
}

/// A digit or a letter of the ASCII alphabet, drawn at random.
///
/// Trusted: `fastrand::alphanumeric` picks one of the characters a to z, A
/// to Z and 0 to 9.
#[verifier::external_body]
fn random_alphanumeric() -> (c: char)
    ensures
        is_alphanumeric(c),
{
    fastrand::alphanumeric()
}

/// The capital of a small letter of the ASCII alphabet; any other character is itself.
pub open spec fn capital(c: char) -> char {
    if 'a' <= c <= 'z' {
        ((c as u8) - 32) as char
    } else {
        c
    }
}

/// The capital of a small letter of the ASCII alphabet; any other character itself.
pub fn to_capital(c: char) -> (capital_c: char)
    ensures
        capital_c == capital(c),
        is_alphanumeric(c) ==> is_capital_or_digit(capital_c),
{
    if 'a' <= c && c <= 'z' {
        let code: u8 = c as u8;
        (code - 32) as char
    } else {
        c
    }
}

impl MaskSerial {
    /// `after` is a mask of the serial number `before`: of the same length,
    /// and made of asterisks where the number is hidden, of asterisks and
    /// characters of the number where it is scrambled, and of digits and
    /// capital letters where it is replaced.
    pub open spec fn masks(self, before: Seq<char>, after: Seq<char>) -> bool {
        &&& after.len() == before.len()
        &&& forall|i: int|
            0 <= i < after.len() ==> match self {
                MaskSerial::Hide => #[trigger] after[i] == '*',
                MaskSerial::Scramble => after[i] == '*' || before.contains(after[i]),
                MaskSerial::Replace => is_capital_or_digit(after[i]),
            }
    }

    /// `after` is the device `before` with its serial number masked, and, if
    /// `recursive`, with those of the devices in its tree masked too. Nothing
    /// else differs.
    pub open spec fn masked(self, before: Device, after: Device, recursive: bool) -> bool
        decreases before,
    {
        &&& after.name == before.name
        &&& after.vendor_id == before.vendor_id
        &&& after.product_id == before.product_id
        &&& after.location_id == before.location_id
        &&& after.class == before.class
        &&& after.extra == before.extra
        &&& after.hidden == before.hidden
        &&& match before.serial_num {
            Some(serial) => after.serial_num matches Some(mask) && self.masks(serial@, mask@),
            None => after.serial_num is None,
        }
        &&& if recursive {
            match before.devices {
                Some(devices) => {
                    &&& after.devices matches Some(masked)
                    &&& masked@.len() == devices@.len()
                    &&& forall|i: int|
                        0 <= i < devices@.len() ==> self.masked(
                            devices@[i],
                            #[trigger] masked@[i],
                            recursive,
                        )
                },
                None => after.devices is None,
            }
        } else {
            after.devices == before.devices
        }
    }

    /// A mask of the serial number.
    pub fn mask(&self, serial: &String) -> (mask: String)
        ensures
            self.masks(serial@, mask@),
    {
        let text = serial.as_str();
        let count = text.unicode_len();
        let mut mask = String::new();
        let mut i: usize = 0;
        while i < count
            invariant
                i <= count,
                count == serial@.len(),
                text@ == serial@,
                mask@.len() == i,
                forall|k: int|
                    0 <= k < i ==> match self {
                        MaskSerial::Hide => #[trigger] mask@[k] == '*',
                        MaskSerial::Scramble => mask@[k] == '*' || serial@.contains(mask@[k]),
                        MaskSerial::Replace => is_capital_or_digit(mask@[k]),
                    },
            decreases count - i,
        {
            let c = match self {
                MaskSerial::Hide => '*',
                MaskSerial::Scramble => {
                    let at = random_below(count);
                    text.get_char(at)
                },
                MaskSerial::Replace => to_capital(random_alphanumeric()),
            };
            push_char(&mut mask, c);
            i = i + 1;
        }
        mask
    }

    /// Mask the `device` serial if it has one, and recursively if `recursive`
    pub fn mask_serial(&self, device: &mut Device, recursive: bool)
        ensures
            self.masked(*old(device), *final(device), recursive),
        decreases *old(device),
    {
        match &device.serial_num {
            Some(serial) => {
                let mask = self.mask(serial);
                device.serial_num = Some(mask);
            },
            None => {},
        }
        if recursive {
            match &mut device.devices {
                Some(devices) => {
                    let mut i: usize = 0;
                    while i < devices.len()
                        invariant
                            i <= devices.len(),
                            devices@.len() == old(device).devices->0@.len(),
                            old(device).devices is Some,
                            forall|j: int|
                                i <= j < devices@.len() ==> devices@[j] == old(
                                    device,
                                ).devices->0@[j],
                            forall|j: int|
                                0 <= j < i ==> self.masked(
                                    old(device).devices->0@[j],
                                    #[trigger] devices@[j],
                                    recursive,
                                ),
                        decreases devices.len() - i,
                    {
                        let branch = &mut devices[i];
                        self.mask_serial(branch, recursive);
                        i = i + 1;
                    }
                },
                None => {},
            }
        }
    }
}

impl MaskSerial {
    /// `after` is the bus `before` with the serial number of every device in
    /// its tree masked. Nothing else differs.
    pub open spec fn masked_bus(self, before: Bus, after: Bus) -> bool {
        &&& after.name == before.name
        &&& after.host_controller == before.host_controller
        &&& after.pci_vendor == before.pci_vendor
        &&& after.pci_device == before.pci_device
        &&& after.pci_revision == before.pci_revision
        &&& after.usb_bus_number == before.usb_bus_number
        &&& match before.devices {
            Some(devices) => {
                &&& after.devices matches Some(masked)
                &&& masked@.len() == devices@.len()
                &&& forall|i: int|
                    0 <= i < devices@.len() ==> self.masked(devices@[i], #[trigger] masked@[i], true)
            },
            None => after.devices is None,
        }
    }

    /// `after` holds the buses of `before` in their order, each with the
    /// serial number of every device in its tree masked.
    pub open spec fn masked_buses(self, before: Seq<Bus>, after: Seq<Bus>) -> bool {
        &&& after.len() == before.len()
        &&& forall|i: int| 0 <= i < before.len() ==> self.masked_bus(before[i], #[trigger] after[i])
    }

    /// Masks the serial number of every device of the bus.
    pub fn mask_bus(&self, bus: &mut Bus)
        ensures
            self.masked_bus(*old(bus), *final(bus)),
    {
        match &mut bus.devices {
            Some(devices) => {
                let ghost before = devices@;
                let mut i: usize = 0;
                while i < devices.len()
                    invariant
                        i <= devices.len(),
                        devices@.len() == before.len(),
                        forall|j: int| i <= j < devices@.len() ==> devices@[j] == before[j],
                        forall|j: int|
                            0 <= j < i ==> self.masked(before[j], #[trigger] devices@[j], true),
                    decreases devices.len() - i,
                {
                    let device = &mut devices[i];
                    self.mask_serial(device, true);
                    i = i + 1;
                }
            },
            None => {},
        }
    }

    /// Masks the serial number of every device of every bus.
    pub fn mask_buses(&self, buses: &mut Vec<Bus>)
        ensures
            self.masked_buses(old(buses)@, final(buses)@),
    {
        let ghost before = buses@;
        let mut i: usize = 0;
        while i < buses.len()
            invariant
                i <= buses.len(),
                buses@.len() == before.len(),
                forall|j: int| i <= j < buses@.len() ==> buses@[j] == before[j],
                forall|j: int| 0 <= j < i ==> self.masked_bus(before[j], #[trigger] buses@[j]),
            decreases buses.len() - i,
        {
            let bus = &mut buses[i];
            self.mask_bus(bus);
            i = i + 1;
        }
    }
}

/// Hiding a serial number that is hidden changes nothing.
pub proof fn lemma_hide_again(serial: Seq<char>, hidden: Seq<char>, again: Seq<char>)
    requires
        MaskSerial::Hide.masks(serial, hidden),
        MaskSerial::Hide.masks(hidden, again),
    ensures
        again == hidden,
{
    assert(again =~= hidden);
}

} // verus!
