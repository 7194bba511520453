//! What is decided before a profile is shown: which characters an encoding
//! takes, how long a text may get, and how the tree is flattened, filtered
//! and sorted.
use crate::order::{lemma_sorted_alike, sorted_by, stable_sort_of};
use crate::profiler::filter::{Filter, FilterView};
use crate::profiler::mask::MaskSerial;
use crate::profiler::sort::Sort;
use crate::profiler::types::{bus_views, flattened_buses, Bus, BusView, SystemProfile};
use crate::profiler::{bus_number_key, sort_by_bus_number};
use unicode_width::UnicodeWidthStr;
use vstd::prelude::*;
use vstd::string::{StrSliceExecFns, StringExecFns};

verus! {

/// Character encoding control for the output
#[derive(Debug, Clone, Copy, PartialEq, Eq)]
pub enum Encoding {
    /// Use UTF-8 private use area characters such as those used by NerdFont to show glyph icons
    Glyphs,
    /// Use only standard UTF-8 characters for the output; no private use area glyph icons
    Utf8,
    /// Use only ASCII characters for the output; 0x00 - 0x7F (127 chars)
    Ascii,
}

/// The character lies in one of the private use areas of Unicode.
pub open spec fn is_private_use(c: char) -> bool {
    ||| 0xE000 <= c as int <= 0xF8FF
    ||| 0xF0000 <= c as int <= 0xFFFFD
    ||| 0x100000 <= c as int <= 0x10FFFD
}

impl Encoding {
    /// The encoding takes the character: ASCII takes the first 128
    /// characters, UTF-8 all but those for private use, and glyphs all.
    pub open spec fn takes(self, c: char) -> bool {
        match self {
            Encoding::Ascii => (c as int) < 128,
            Encoding::Utf8 => !is_private_use(c),
            Encoding::Glyphs => true,
        }
    }

    /// Returns if a char is valid for the encoding for not
    pub fn char_is_valid(&self, c: char) -> (valid: bool)
        ensures
            valid == self.takes(c),
    {
        let code: u32 = c as u32;
        match self {
            Encoding::Ascii => code < 128,
            Encoding::Utf8 => !((0xE000 <= code && code <= 0xF8FF) || (0xF0000 <= code && code
                <= 0xFFFFD) || (0x100000 <= code && code <= 0x10FFFD)),
            Encoding::Glyphs => true,
        }
    }

    /// Returns if a str is valid for the encoding for not
    pub fn str_is_valid(&self, s: &str) -> (valid: bool)
        ensures
            valid == forall|i: int| 0 <= i < s@.len() ==> self.takes(#[trigger] s@[i]),
    {
        let count = s.unicode_len();
        let mut i: usize = 0;
        while i < count
            invariant
                i <= count,
                count == s@.len(),
                forall|k: int| 0 <= k < i ==> self.takes(#[trigger] s@[k]),
            decreases count - i,
        {
            if !self.char_is_valid(s.get_char(i)) {
                return false;
            }
            i = i + 1;
        }
        true
    }
}

/// Length of field printed by block
#[derive(Debug, Clone, Copy, PartialEq, Eq)]
pub enum BlockLength {
    /// Fixed length like numbers with padding
    Fixed(usize),
    /// Variable length such as string descriptors - contained value is the heading (min) length
    Variable(usize),
}

impl BlockLength {
    /// Get the length contained in Enum
    pub fn len(self) -> (length: usize)
        ensures
            length == match self {
                BlockLength::Fixed(s) => s,
                BlockLength::Variable(s) => s,
            },
    {
        match self {
            BlockLength::Fixed(s) => s,
            BlockLength::Variable(s) => s,
        }
    }

    /// Is the length zero
    pub fn is_empty(self) -> (empty: bool)
        ensures
            empty == (match self {
                BlockLength::Fixed(s) => s == 0,
                BlockLength::Variable(s) => s == 0,
            }),
    {
        self.len() == 0
    }

    /// Get the fixed length if `[BlockLength::Fixed]` else None
    pub fn fixed_len(self) -> (length: Option<usize>)
        ensures
            length == match self {
                BlockLength::Fixed(s) => Some(s),
                BlockLength::Variable(_) => None,
            },
    {
        match self {
            BlockLength::Fixed(s) => Some(s),
            _ => None,
        }
    }

    /// Get the variable length if `[BlockLength::Variable]` else None
    pub fn variable_len(self) -> (length: Option<usize>)
        ensures
            length == match self {
                BlockLength::Variable(s) => Some(s),
                BlockLength::Fixed(_) => None,
            },
    {
        match self {
            BlockLength::Variable(s) => Some(s),
            _ => None,
        }
    }
}

/// The width of the terminal where the terminal gives none.
pub const DEFAULT_AUTO_WIDTH: u16 = 80;

/// The least length that texts of variable length are cut to.
pub const MIN_VARIABLE_STRING_LEN: usize = 5;

/// The sum of the fixed lengths among the first `n` of `blocks`.
pub open spec fn fixed_total(blocks: Seq<BlockLength>, n: nat) -> nat
    decreases n,
{
    if n == 0 || n > blocks.len() {
        0
    } else {
        fixed_total(blocks, (n - 1) as nat) + match blocks[n - 1] {
            BlockLength::Fixed(s) => s as nat,
            BlockLength::Variable(_) => 0,
        }
    }
}

/// The sum of the first `n` of `lens`.
pub open spec fn total(lens: Seq<usize>, n: nat) -> nat
    decreases n,
{
    if n == 0 || n > lens.len() {
        0
    } else {
        total(lens, (n - 1) as nat) + lens[n - 1] as nat
    }
}

/// What those of the first `n` of `lens` that are no longer than `share`
/// leave of it, all together.
pub open spec fn spare(lens: Seq<usize>, share: nat, n: nat) -> nat
    decreases n,
{
    if n == 0 || n > lens.len() {
        0
    } else if lens[n - 1] <= share {
        (spare(lens, share, (n - 1) as nat) + share - lens[n - 1]) as nat
    } else {
        spare(lens, share, (n - 1) as nat)
    }
}

/// How many of the first `n` of `lens` are longer than `share`.
pub open spec fn longer(lens: Seq<usize>, share: nat, n: nat) -> nat
    decreases n,
{
    if n == 0 || n > lens.len() {
        0
    } else if lens[n - 1] > share {
        longer(lens, share, (n - 1) as nat) + 1
    } else {
        longer(lens, share, (n - 1) as nat)
    }
}

/// The length that texts of variable length are cut to, so that a line of
/// the blocks `blocks`, set in by `offset`, fits into `width` columns;
/// `variable_lens` holds the longest text of each block of variable length.
///
/// A line takes the fixed lengths, the variable lengths, the offset and three
/// columns for each block. Nothing is cut where there is no variable length
/// or the line fits. Else what the fixed lengths, the offset and one column
/// for each block leave of the width is shared out evenly among the variable
/// lengths; what the shorter ones leave of their share is shared out evenly
/// among the longer ones. No text is cut to less than five characters.
pub open spec fn auto_max(
    blocks: Seq<BlockLength>,
    offset: nat,
    variable_lens: Seq<usize>,
    width: nat,
) -> Option<nat> {
    let total_fixed = fixed_total(blocks, blocks.len()) + blocks.len() + offset;
    let total_len = total_fixed + total(variable_lens, variable_lens.len()) + 2 * blocks.len();
    if variable_lens.len() == 0 || total_len <= width {
        None
    } else if width < total_fixed {
        Some(MIN_VARIABLE_STRING_LEN as nat)
    } else {
        let share = ((width - total_fixed) / (variable_lens.len() as int)) as nat;
        let left = spare(variable_lens, share, variable_lens.len());
        let long = longer(variable_lens, share, variable_lens.len());
        let max = if long != 0 {
            share + left / long
        } else {
            share + left
        };
        if max < MIN_VARIABLE_STRING_LEN {
            Some(MIN_VARIABLE_STRING_LEN as nat)
        } else {
            Some(max)
        }
    }
}

/// What the shorter lengths leave of their shares is no more than the shares
/// of all.
proof fn lemma_spare_within(lens: Seq<usize>, share: nat, n: nat)
    requires
        n <= lens.len(),
    ensures
        spare(lens, share, n) <= share * n,
    decreases n,
{
    if n > 0 {
        lemma_spare_within(lens, share, (n - 1) as nat);
        assert(share * n == share * (n - 1) + share) by (nonlinear_arith);
    }
}

/// The least of a sum and of `cap`, from the least of a part of the sum and
/// of `cap` and the rest of the sum.
fn add_capped(sum: u64, x: usize, cap: u64) -> (r: u64)
    requires
        sum <= cap,
    ensures
        r == if sum + x <= cap {
            (sum + x) as u64
        } else {
            cap
        },
{
    if x as u64 > cap - sum {
        cap
    } else {
        sum + x as u64
    }
}

/// Finds the maximum string size to truncate variable fields
///
/// Calculates based on the terminal width, the total length of the
/// [`BlockLength::Fixed`] fields and thus the remaining space to divide
/// between [`BlockLength::Variable`] fields as the maximum string size. The
/// values of `variable_lens` represent the maximum length of variable fields
/// to print. Where the terminal gives no size it is taken to be 80 columns wide.
pub fn auto_max_string_len(
    blocks: &[BlockLength],
    offset: usize,
    variable_lens: &Vec<usize>,
    terminal_size: Option<(u16, u16)>,
) -> (max: Option<usize>)
    ensures
        match max {
            Some(m) => auto_max(
                blocks@,
                offset as nat,
                variable_lens@,
                match terminal_size {
                    Some((w, _)) => w as nat,
                    None => DEFAULT_AUTO_WIDTH as nat,
                },
            ) == Some(m as nat),
            None => auto_max(
                blocks@,
                offset as nat,
                variable_lens@,
                match terminal_size {
                    Some((w, _)) => w as nat,
                    None => DEFAULT_AUTO_WIDTH as nat,
                },
            ) is None,
        },
{
    if variable_lens.len() == 0 {
        return None;
    }
    let width: u64 = match terminal_size {
        Some((w, _)) => w as u64,
        None => DEFAULT_AUTO_WIDTH as u64,
    };
    // No sum matters beyond the width: each is counted up to this.
    let cap: u64 = 0x10_0000;
    let ghost fixed = fixed_total(blocks@, blocks@.len() as nat);
    let ghost variable = total(variable_lens@, variable_lens@.len() as nat);
    let mut fixed_sum: u64 = 0;
    let mut i: usize = 0;
    while i < blocks.len()
        invariant
            i <= blocks@.len(),
            cap == 0x10_0000,
            fixed_sum <= cap,
            fixed_sum == if fixed_total(blocks@, i as nat) <= cap {
                fixed_total(blocks@, i as nat)
            } else {
                cap as nat
            },
        decreases blocks.len() - i,
    {
        match blocks[i].fixed_len() {
            Some(s) => {
                fixed_sum = add_capped(fixed_sum, s, cap);
            },
            None => {},
        }
        i = i + 1;
    }
    let mut variable_sum: u64 = 0;
    let mut j: usize = 0;
    while j < variable_lens.len()
        invariant
            j <= variable_lens@.len(),
            cap == 0x10_0000,
            variable_sum <= cap,
            variable_sum == if total(variable_lens@, j as nat) <= cap {
                total(variable_lens@, j as nat)
            } else {
                cap as nat
            },
        decreases variable_lens.len() - j,
    {
        variable_sum = add_capped(variable_sum, variable_lens[j], cap);
        j = j + 1;
    }
    let total_fixed = add_capped(add_capped(fixed_sum, blocks.len(), cap), offset, cap);
    let ghost exact_fixed: nat = fixed + blocks@.len() + offset as nat;
    assert(total_fixed == if exact_fixed <= cap {
        exact_fixed
    } else {
        cap as nat
    });
    let total_len = add_capped(
        add_capped(add_capped(total_fixed, blocks.len(), cap), blocks.len(), cap),
        variable_sum as usize,
        cap,
    );
    let ghost exact_len: nat = exact_fixed + variable + 2 * blocks@.len();
    assert(total_len == if exact_len <= cap {
        exact_len
    } else {
        cap as nat
    });
    if total_len <= width {
        return None;
    }
    if width < total_fixed {
        return Some(MIN_VARIABLE_STRING_LEN);
    }
    let count: u64 = variable_lens.len() as u64;
    let remain: u64 = width - total_fixed;
    let share: u64 = remain / count;
    assert(share * count <= remain) by (nonlinear_arith)
        requires
            share == remain / count,
            count > 0,
    ;
    let mut left: u64 = 0;
    let mut long: u64 = 0;
    let mut k: usize = 0;
    while k < variable_lens.len()
        invariant
            k <= variable_lens@.len(),
            count == variable_lens@.len(),
            share * count <= remain,
            remain <= 0xffff,
            left == spare(variable_lens@, share as nat, k as nat),
            long == longer(variable_lens@, share as nat, k as nat),
            long <= k,
        decreases variable_lens.len() - k,
    {
        let v = variable_lens[k];
        proof {
            lemma_spare_within(variable_lens@, share as nat, (k + 1) as nat);
            assert(share * (k + 1) <= share * count) by (nonlinear_arith)
                requires
                    k + 1 <= count,
            ;
        }
        if v as u64 <= share {
            left = left + (share - v as u64);
        } else {
            long = long + 1;
        }
        k = k + 1;
    }
    let bonus: u64 = if long != 0 {
        left / long
    } else {
        left
    };
    proof {
        lemma_spare_within(variable_lens@, share as nat, variable_lens@.len() as nat);
    }
    let max: u64 = share + bonus;
    if max < MIN_VARIABLE_STRING_LEN as u64 {
        Some(MIN_VARIABLE_STRING_LEN)
    } else {
        Some(max as usize)
    }
}

/// The number of columns that the text takes where it is shown.
pub uninterp spec fn display_width(text: Seq<char>) -> nat;

/// The number of columns that the text takes where it is shown.
///
/// Trusted: `UnicodeWidthStr::width` of unicode-width gives the width of the
/// text by its tables; nothing but the text goes into it.
#[verifier::external_body]
fn width_of(text: &str) -> (width: usize)
    ensures
        width == display_width(text@),
{
    text.width()
}

/// The text `text` cut to `len` characters, the last three of them dots,
/// where it is `width` columns wide, `len` is more than three and less than
/// `width`, and the text has more characters than are kept; else the text as it is.
pub open spec fn truncated(text: Seq<char>, width: nat, len: nat) -> Seq<char> {
    if width <= len || len <= 3 || text.len() <= len - 3 {
        text
    } else {
        text.subrange(0, len - 3) + "..."@
    }
}

/// Cuts a text that is `width` columns wide to `len` characters, the last
/// three of them dots.
pub fn truncate_to(s: &mut String, width: usize, len: usize)
    ensures
        final(s)@ == truncated(old(s)@, width as nat, len as nat),
{
    if width <= len || len <= 3 {
        return ;
    }
    let text = s.as_str();
    if text.unicode_len() <= len - 3 {
        return ;
    }
    let kept = String::from_str(text.substring_char(0, len - 3)).concat("...");
    *s = kept;
}

/// Cuts a text that is wider than `len` columns to `len` characters, the
/// last three of them dots.
pub fn truncate_string(s: &mut String, len: usize)
    ensures
        final(s)@ == truncated(old(s)@, display_width(old(s)@), len as nat),
{
    let width = width_of(s.as_str());
    truncate_to(s, width, len);
}

/// Mode being used for printing
#[derive(Debug, Clone, Copy, PartialEq, Eq)]
pub enum PrintMode {
    /// Normal printing to static output
    Normal,
    /// Dynamic printing such as watch mode
    Dynamic,
}

/// What of the settings for printing decides how a profile is prepared.
#[derive(Debug, Clone, Copy, PartialEq, Eq)]
pub struct PrintSettings {
    /// Print as a tree
    pub tree: bool,
    /// Sort devices
    pub sort_devices: Sort,
    /// Sort buses by bus number
    pub sort_buses: bool,
    /// Scramble serial numbers, useful if sharing sensitive device dumps
    pub mask_serials: Option<MaskSerial>,
    /// The mode of printing
    pub print_mode: PrintMode,
}

impl PrintSettings {
    /// The tree is flattened before it is filtered: where no tree is
    /// printed, unless the printing is dynamic.
    pub open spec fn flattens(self) -> bool {
        !self.tree && self.print_mode != PrintMode::Dynamic
    }

    /// The buses `buses` flattened where the settings ask for it, and then
    /// with the devices that `filter` does not match removed, or, where the
    /// printing is dynamic, marked as hidden.
    pub open spec fn filtered(self, buses: Seq<BusView>, filter: Option<FilterView>) -> Seq<BusView> {
        let flat = if self.flattens() {
            flattened_buses(buses)
        } else {
            buses
        };
        match filter {
            Some(f) => if self.print_mode == PrintMode::Dynamic {
                f.marked_buses(flat)
            } else {
                f.retained_buses(flat)
            },
            None => flat,
        }
    }

    /// `after` holds the buses `before` as the settings ask for them:
    /// flattened and filtered, then sorted by their number, with the
    /// devices of every hub in the order that the settings ask for, and at
    /// last with the serial numbers masked where the settings ask for that.
    pub open spec fn prepared(
        self,
        before: Seq<Bus>,
        filter: Option<FilterView>,
        after: Seq<Bus>,
    ) -> bool {
        exists|filtered: Seq<Bus>, sorted: Seq<Bus>|
            bus_views(filtered) == self.filtered(bus_views(before), filter)
                && #[trigger] self.sort_devices.sorted_buses(filtered, sorted)
                && match self.mask_serials {
                Some(mask) => mask.masked_buses(sorted, after),
                None => after == sorted,
            }
    }
}

/// Buses that were sorted are in the order of their numbers.
proof fn lemma_sorted_buses_ascend(sort: Sort, before: Seq<Bus>, after: Seq<Bus>)
    requires
        sort.sorted_buses(before, after),
    ensures
        sorted_by(after, bus_number_key()),
{
    let key = bus_number_key();
    let ordered = choose|ordered: Seq<Bus>| #[trigger]
        stable_sort_of(ordered, before, key) && after.len() == ordered.len() && forall|i: int|
            0 <= i < ordered.len() ==> sort.sorted_bus(ordered[i], #[trigger] after[i]);
    assert forall|i: int, j: int| 0 <= i <= j < after.len() implies key(after[i]) <= key(
        after[j],
    ) by {
        assert(sort.sorted_bus(ordered[i], after[i]));
        assert(sort.sorted_bus(ordered[j], after[j]));
        assert(key(ordered[i]) <= key(ordered[j]));
    }
}

/// Changes the profile with the requested `filter` and the sort in `settings`
pub fn prepare(sp_usb: &mut SystemProfile, filter: Option<&Filter>, settings: &PrintSettings)
    ensures
        settings.prepared(
            old(sp_usb).buses@,
            match filter {
                Some(f) => Some(f@),
                None => None,
            },
            final(sp_usb).buses@,
        ),
{
    let dynamic = match settings.print_mode {
        PrintMode::Dynamic => true,
        PrintMode::Normal => false,
    };
    if !settings.tree && !dynamic {
        sp_usb.into_flattened();
    }
    match filter {
        Some(f) => {
            if dynamic {
                f.hide_buses(&mut sp_usb.buses);
            } else {
                f.retain_buses(&mut sp_usb.buses);
            }
        },
        None => {},
    }
    let ghost filtered = sp_usb.buses@;
    settings.sort_devices.sort_buses(&mut sp_usb.buses);
    let ghost sorted = sp_usb.buses@;
    let unsorted = match settings.sort_devices {
        Sort::NoSort => true,
        _ => false,
    };
    if settings.sort_buses && unsorted {
        // the buses are in the order of their numbers by now: this changes nothing
        let mut taken: Vec<Bus> = Vec::new();
        std::mem::swap(&mut sp_usb.buses, &mut taken);
        let mut again = sort_by_bus_number(taken);
        proof {
            lemma_sorted_buses_ascend(settings.sort_devices, filtered, sorted);
            lemma_sorted_alike(again@, sorted, bus_number_key());
        }
        std::mem::swap(&mut sp_usb.buses, &mut again);
    }
    assert(sp_usb.buses@ == sorted);
    match settings.mask_serials {
        Some(mask) => {
            mask.mask_buses(&mut sp_usb.buses);
        },
        None => {},
    }
    assert(settings.sort_devices.sorted_buses(filtered, sorted));
}

} // verus!
