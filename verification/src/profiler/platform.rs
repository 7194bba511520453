//! What a platform writes about a host controller: hexadecimal numbers, and
//! the ids of a PCI device in the text that names it.
use crate::error::Error;
use crate::profiler::types::Device;
use vstd::prelude::*;
use vstd::string::StrSliceExecFns;

verus! {

/// The value of a hexadecimal digit of either case.
pub open spec fn hex_digit(c: char) -> Option<nat> {
    if '0' <= c <= '9' {
        Some((c as nat - 48) as nat)
    } else if 'a' <= c <= 'f' {
        Some((c as nat - 87) as nat)
    } else if 'A' <= c <= 'F' {
        Some((c as nat - 55) as nat)
    } else {
        None
    }
}

/// The number that the hexadecimal digits `s` write, first digit highest.
/// There is none where `s` is empty or holds anything but digits.
pub open spec fn hex_number(s: Seq<char>) -> Option<nat>
    decreases s.len(),
{
    if s.len() == 0 {
        None
    } else {
        match hex_digit(s.last()) {
            None => None,
            Some(d) => if s.len() == 1 {
                Some(d)
            } else {
                match hex_number(s.drop_last()) {
                    Some(high) => Some(16 * high + d),
                    None => None,
                }
            },
        }
    }
}

/// The number that the text `s` writes in hexadecimal digits, which a plus
/// sign may precede.
pub open spec fn hex_field(s: Seq<char>) -> Option<nat> {
    if s.len() >= 2 && s[0] == '+' {
        hex_number(s.skip(1))
    } else {
        hex_number(s)
    }
}

/// The number that the text `s` writes in hexadecimal, where it is `limit` at most.
pub open spec fn hex_upto(s: Seq<char>, limit: nat) -> Option<nat> {
    match hex_field(s) {
        Some(v) => if v <= limit {
            Some(v)
        } else {
            None
        },
        None => None,
    }
}

/// What digits write, their first `k` write too, and no more than all of them
/// do; and each of them is a digit.
proof fn lemma_hex_prefix(s: Seq<char>, k: int)
    requires
        0 < k <= s.len(),
        hex_number(s) is Some,
    ensures
        hex_number(s.take(k)) is Some,
        hex_number(s.take(k))->0 <= hex_number(s)->0,
        hex_digit(s[k - 1]) is Some,
    decreases s.len(),
{
    if k == s.len() {
        assert(s.take(k) =~= s);
    } else {
        assert(s.drop_last().take(k) =~= s.take(k));
        lemma_hex_prefix(s.drop_last(), k);
    }
}

/// The value of the hexadecimal digit `c`.
pub fn hex_digit_of(c: char) -> (r: Option<u8>)
    ensures
        match r {
            Some(d) => hex_digit(c) == Some(d as nat) && d < 16,
            None => hex_digit(c) is None,
        },
{
    if '0' <= c && c <= '9' {
        Some((c as u8) - 48)
    } else if 'a' <= c && c <= 'f' {
        Some((c as u8) - 87)
    } else if 'A' <= c && c <= 'F' {
        Some((c as u8) - 55)
    } else {
        None
    }
}

/// Reads the characters of `text` from `from` up to `to` as a hexadecimal
/// number of `limit` at most.
pub fn hex_between(text: &str, from: usize, to: usize, limit: u32) -> (r: Option<u32>)
    requires
        from <= to <= text@.len(),
    ensures
        match r {
            Some(v) => hex_upto(text@.subrange(from as int, to as int), limit as nat) == Some(
                v as nat,
            ),
            None => hex_upto(text@.subrange(from as int, to as int), limit as nat) is None,
        },
{
    let ghost field = text@.subrange(from as int, to as int);
    let start: usize = if to - from >= 2 && text.get_char(from) == '+' {
        from + 1
    } else {
        from
    };
    let ghost digits = text@.subrange(start as int, to as int);
    assert(to == from || field[0] == text@[from as int]);
    assert(start > from ==> digits =~= field.skip(1));
    assert(start == from ==> digits == field);
    assert(hex_field(field) == hex_number(digits));
    if start == to {
        return None;
    }
    let mut value: u64 = 0;
    let mut i: usize = start;
    while i < to
        invariant
            start <= i <= to <= text@.len(),
            start < to,
            digits == text@.subrange(start as int, to as int),
            hex_field(text@.subrange(from as int, to as int)) == hex_number(digits),
            value <= limit,
            i == start ==> value == 0,
            i > start ==> hex_number(digits.take(i - start)) == Some(value as nat),
        decreases to - i,
    {
        let c = text.get_char(i);
        let ghost read = digits.take(i - start + 1);
        assert(read.last() == c);
        assert(digits[i - start] == c);
        assert(read.drop_last() =~= digits.take(i - start));
        match hex_digit_of(c) {
            Some(d) => {
                value = 16 * value + d as u64;
                assert(hex_number(read) == Some(value as nat));
                if value > limit as u64 {
                    proof {
                        if hex_number(digits) is Some {
                            lemma_hex_prefix(digits, i - start + 1);
                        }
                    }
                    return None;
                }
            },
            None => {
                proof {
                    if hex_number(digits) is Some {
                        lemma_hex_prefix(digits, i - start + 1);
                    }
                }
                return None;
            },
        }
        i = i + 1;
    }
    assert(digits.take(to - start) =~= digits);
    Some(value as u32)
}

/// Numbers that are read from hexadecimal text.
pub trait FromHexStr: Sized {
    /// The greatest number of the type.
    spec fn limit() -> nat;

    /// The number that `self` is.
    spec fn number(&self) -> nat;

    /// Reads `s` as a hexadecimal number: digits of either case, which a plus
    /// sign may precede, that write a number of the type.
    fn from_hex_str(s: &str) -> (r: Result<Self, Error>)
        ensures
            match r {
                Ok(x) => hex_upto(s@, Self::limit()) == Some(x.number()),
                Err(e) => e == Error::Parsing("hexadecimal number") && hex_upto(
                    s@,
                    Self::limit(),
                ) is None,
            },
    ;
}

impl FromHexStr for u8 {
    open spec fn limit() -> nat {
        0xff
    }

    open spec fn number(&self) -> nat {
        *self as nat
    }

    fn from_hex_str(s: &str) -> (r: Result<Self, Error>) {
        let count = s.unicode_len();
        assert(s@.subrange(0, count as int) =~= s@);
        match hex_between(s, 0, count, 0xff) {
            Some(v) => Ok(v as u8),
            None => Err(Error::Parsing("hexadecimal number")),
        }
    }
}

impl FromHexStr for u16 {
    open spec fn limit() -> nat {
        0xffff
    }

    open spec fn number(&self) -> nat {
        *self as nat
    }

    fn from_hex_str(s: &str) -> (r: Result<Self, Error>) {
        let count = s.unicode_len();
        assert(s@.subrange(0, count as int) =~= s@);
        match hex_between(s, 0, count, 0xffff) {
            Some(v) => Ok(v as u16),
            None => Err(Error::Parsing("hexadecimal number")),
        }
    }
}

/// The text of a hexadecimal attribute without the `0x` that may precede it.
pub open spec fn hex_attr(s: Seq<char>) -> Seq<char> {
    if s.len() >= 2 && s[0] == '0' && s[1] == 'x' {
        s.skip(2)
    } else {
        s
    }
}

/// Reads the attribute `s`, hexadecimal digits that `0x` may precede.
pub fn read_hex_attr<T: FromHexStr>(s: &str) -> (r: Result<T, Error>)
    ensures
        match r {
            Ok(x) => hex_upto(hex_attr(s@), T::limit()) == Some(x.number()),
            Err(e) => e == Error::Parsing("hexadecimal number") && hex_upto(
                hex_attr(s@),
                T::limit(),
            ) is None,
        },
{
    let count = s.unicode_len();
    if count >= 2 && s.get_char(0) == '0' && s.get_char(1) == 'x' {
        let digits = s.substring_char(2, count);
        assert(digits@ =~= s@.skip(2));
        T::from_hex_str(digits)
    } else {
        T::from_hex_str(s)
    }
}

/// The ids of a host controller on the PCI bus.
#[derive(Debug, Clone, Copy, PartialEq, Eq)]
pub struct PciInfo {
    /// The vendor of the controller.
    pub vendor_id: u16,
    /// The device that the controller is.
    pub product_id: u16,
    /// The revision of the controller.
    pub revision: u16,
}

/// The words of a host controller id.
pub open spec fn id_vendor_word() -> Seq<char> {
    seq!['P', 'C', 'I', '\\', 'V', 'E', 'N', '_']
}

/// The word before the device of a host controller id.
pub open spec fn id_device_word() -> Seq<char> {
    seq!['&', 'D', 'E', 'V', '_']
}

/// The word before the subsystem of a host controller id.
pub open spec fn id_subsys_word() -> Seq<char> {
    seq!['&', 'S', 'U', 'B', 'S', 'Y', 'S', '_']
}

/// The word before the revision of a host controller id.
pub open spec fn id_revision_word() -> Seq<char> {
    seq!['&', 'R', 'E', 'V', '_']
}

/// What a host controller id holds: vendor, device, revision, subsystem, and
/// the id of the instance where one follows.
pub struct HostControllerId {
    pub vendor_id: u16,
    pub product_id: u16,
    pub revision: u8,
    pub subsys: u32,
    pub id: Option<Seq<char>>,
}

/// What the host controller id `s` holds. Such an id reads
/// `PCI\VEN_vvvv&DEV_dddd&SUBSYS_ssssssss&REV_rr`, each small letter a
/// hexadecimal digit, and may go on with a backslash and the id of the
/// instance; what follows the revision otherwise is passed over.
pub open spec fn host_controller_id(s: Seq<char>) -> Option<HostControllerId> {
    if s.len() >= 44 && s.subrange(0, 8) == id_vendor_word() && s.subrange(12, 17)
        == id_device_word() && s.subrange(21, 29) == id_subsys_word() && s.subrange(37, 42)
        == id_revision_word() {
        match (
            hex_upto(s.subrange(8, 12), 0xffff),
            hex_upto(s.subrange(17, 21), 0xffff),
            hex_upto(s.subrange(29, 37), 0xffff_ffff),
            hex_upto(s.subrange(42, 44), 0xff),
        ) {
            (Some(vendor), Some(device), Some(subsys), Some(revision)) => Some(
                HostControllerId {
                    vendor_id: vendor as u16,
                    product_id: device as u16,
                    revision: revision as u8,
                    subsys: subsys as u32,
                    id: if s.len() > 44 && s[44] == '\\' {
                        Some(s.skip(45))
                    } else {
                        None
                    },
                },
            ),
            _ => None,
        }
    } else {
        None
    }
}

/// Whether the word `word` stands in `text` at the place `at`.
pub fn has_word(text: &str, at: usize, word: &[char]) -> (r: bool)
    requires
        at + word@.len() <= usize::MAX,
    ensures
        r == (at + word@.len() <= text@.len() && text@.subrange(at as int, at + word@.len())
            == word@),
{
    let count = text.unicode_len();
    if count < at || count - at < word.len() {
        return false;
    }
    let mut i: usize = 0;
    while i < word.len()
        invariant
            i <= word@.len(),
            count == text@.len(),
            at + word@.len() <= text@.len(),
            text@.subrange(at as int, at + i) == word@.take(i as int),
        decreases word@.len() - i,
    {
        let c = text.get_char(at + i);
        if c != word[i] {
            assert(text@.subrange(at as int, at + word@.len())[i as int] != word@[i as int]);
            return false;
        }
        assert(text@.subrange(at as int, at + i + 1) =~= text@.subrange(at as int, at + i).push(c));
        assert(word@.take(i + 1) =~= word@.take(i as int).push(c));
        i = i + 1;
    }
    assert(word@.take(word@.len() as int) =~= word@);
    true
}

/// Parse VID, PID, revision, subsys and ID from a Host Controller ID.
///
/// The subsys is a 32-bit value with SID in the high 16 bits and CID in the low 16 bits.
pub fn parse_host_controller_id(text: &str) -> (r: Option<(u16, u16, u8, u32, Option<String>)>)
    ensures
        match r {
            Some((vendor_id, product_id, revision, subsys, id)) => host_controller_id(text@)
                == Some(
                HostControllerId {
                    vendor_id,
                    product_id,
                    revision,
                    subsys,
                    id: match id {
                        Some(name) => Some(name@),
                        None => None,
                    },
                },
            ),
            None => host_controller_id(text@) is None,
        },
{
    let count = text.unicode_len();
    let vendor_word: [char; 8] = ['P', 'C', 'I', '\\', 'V', 'E', 'N', '_'];
    let device_word: [char; 5] = ['&', 'D', 'E', 'V', '_'];
    let subsys_word: [char; 8] = ['&', 'S', 'U', 'B', 'S', 'Y', 'S', '_'];
    let revision_word: [char; 5] = ['&', 'R', 'E', 'V', '_'];
    assert(vendor_word@ =~= id_vendor_word());
    assert(device_word@ =~= id_device_word());
    assert(subsys_word@ =~= id_subsys_word());
    assert(revision_word@ =~= id_revision_word());
    if count < 44 {
        return None;
    }
    if !has_word(text, 0, vendor_word.as_slice()) || !has_word(text, 12, device_word.as_slice())
        || !has_word(text, 21, subsys_word.as_slice()) || !has_word(
        text,
        37,
        revision_word.as_slice(),
    ) {
        return None;
    }
    let vendor_id = match hex_between(text, 8, 12, 0xffff) {
        Some(v) => v as u16,
        None => {
            return None;
        },
    };
    let product_id = match hex_between(text, 17, 21, 0xffff) {
        Some(v) => v as u16,
        None => {
            return None;
        },
    };
    let subsys = match hex_between(text, 29, 37, 0xffff_ffff) {
        Some(v) => v,
        None => {
            return None;
        },
    };
    let revision = match hex_between(text, 42, 44, 0xff) {
        Some(v) => v as u8,
        None => {
            return None;
        },
    };
    let id = if count > 44 && text.get_char(44) == '\\' {
        let name = text.substring_char(45, count);
        assert(name@ =~= text@.skip(45));
        Some(name.to_owned())
    } else {
        None
    };
    Some((vendor_id, product_id, revision, subsys, id))
}

/// The ids of the host controller that the host controller id `pci_path` names.
pub fn pci_info_from_parent(pci_path: &str) -> (r: Option<PciInfo>)
    ensures
        r == match host_controller_id(pci_path@) {
            Some(id) => Some(
                PciInfo {
                    vendor_id: id.vendor_id,
                    product_id: id.product_id,
                    revision: id.revision as u16,
                },
            ),
            None => None,
        },
{
    match parse_host_controller_id(pci_path) {
        Some((vendor_id, product_id, revision, _, _)) => Some(
            PciInfo { vendor_id, product_id, revision: revision as u16 },
        ),
        None => None,
    }
}

/// The ids of the host controller of a root hub that names it by a host
/// controller id in place of a serial number.
pub fn pci_info_from_device(device: &Device) -> (r: Option<PciInfo>)
    ensures
        r == match device.serial_num {
            Some(serial) => match host_controller_id(serial@) {
                Some(id) => Some(
                    PciInfo {
                        vendor_id: id.vendor_id,
                        product_id: id.product_id,
                        revision: id.revision as u16,
                    },
                ),
                None => None,
            },
            None => None,
        },
{
    match &device.serial_num {
        Some(serial) => pci_info_from_parent(serial.as_str()),
        None => None,
    }
}

} // verus!
