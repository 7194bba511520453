//! Bitmaps, and the channel names that a channel configuration bitmap selects.
use crate::usb::descriptors::audio::UacProtocol;
use vstd::prelude::*;

verus! {

/// Bit `i` of `bitmap` is set. A bitmap has 32 bits.
pub open spec fn bit_set(bitmap: u32, i: int) -> bool {
    0 <= i < 32 && bitmap & (1u32 << (i as u32)) != 0
}

/// The items among the first `n` of `all` whose bit is set in `bitmap`, in
/// the order of `all`.
pub open spec fn selected<T>(bitmap: u32, all: Seq<T>, n: nat) -> Seq<T>
    decreases n,
{
    if n == 0 {
        Seq::empty()
    } else if bit_set(bitmap, n - 1) {
        selected(bitmap, all, (n - 1) as nat).push(all[n - 1])
    } else {
        selected(bitmap, all, (n - 1) as nat)
    }
}

/// The items of `all` whose bit is set in `bitmap`.
pub fn select<T: Copy>(bitmap: u32, all: &[T]) -> (chosen: Vec<T>)
    ensures
        chosen@ == selected(bitmap, all@, all@.len()),
{
    let mut chosen: Vec<T> = Vec::new();
    let mut i: usize = 0;
    while i < all.len()
        invariant
            i <= all.len(),
            chosen@ == selected(bitmap, all@, i as nat),
        decreases all.len() - i,
    {
        if i < 32 && bitmap & (1u32 << (i as u32)) != 0 {
            chosen.push(all[i]);
        }
        i = i + 1;
    }
    chosen
}

/// The characters of each string of `s`.
pub open spec fn names_of(s: Seq<String>) -> Seq<Seq<char>> {
    s.map_values(|name: String| name@)
}

/// USB Audio Class (UAC) protocol 1 channel names based on the "wChannelConfig" field
#[derive(Debug, Clone, Copy, PartialEq, Eq, Hash)]
pub enum Uac1ChannelNames {
    LeftFront,
    RightFront,
    CenterFront,
    LowFrequencyEnhancement,
    LeftSurround,
    RightSurround,
    LeftOfCenter,
    RightOfCenter,
    Surround,
    SideLeft,
    SideRight,
    Top,
}

impl Uac1ChannelNames {
    /// The names in the order of their bits.
    pub open spec fn all() -> Seq<Uac1ChannelNames> {
        seq![
            Uac1ChannelNames::LeftFront,
            Uac1ChannelNames::RightFront,
            Uac1ChannelNames::CenterFront,
            Uac1ChannelNames::LowFrequencyEnhancement,
            Uac1ChannelNames::LeftSurround,
            Uac1ChannelNames::RightSurround,
            Uac1ChannelNames::LeftOfCenter,
            Uac1ChannelNames::RightOfCenter,
            Uac1ChannelNames::Surround,
            Uac1ChannelNames::SideLeft,
            Uac1ChannelNames::SideRight,
            Uac1ChannelNames::Top,
        ]
    }

    /// The name as it is shown.
    pub open spec fn label(self) -> Seq<char> {
        match self {
            Uac1ChannelNames::LeftFront => "Left Front (L)"@,
            Uac1ChannelNames::RightFront => "Right Front (R)"@,
            Uac1ChannelNames::CenterFront => "Center Front (C)"@,
            Uac1ChannelNames::LowFrequencyEnhancement => "Low Frequency Enhancement (LFE)"@,
            Uac1ChannelNames::LeftSurround => "Left Surround (LS)"@,
            Uac1ChannelNames::RightSurround => "Right Surround (RS)"@,
            Uac1ChannelNames::LeftOfCenter => "Left of Center (LC)"@,
            Uac1ChannelNames::RightOfCenter => "Right of Center (RC)"@,
            Uac1ChannelNames::Surround => "Surround (S)"@,
            Uac1ChannelNames::SideLeft => "Side Left (SL)"@,
            Uac1ChannelNames::SideRight => "Side Right (SR)"@,
            Uac1ChannelNames::Top => "Top (T)"@,
        }
    }

    /// The name as it is shown.
    pub fn to_string(&self) -> (s: String)
        ensures
            s@ == self.label(),
    {
        match self {
            Uac1ChannelNames::LeftFront => "Left Front (L)".to_owned(),
            Uac1ChannelNames::RightFront => "Right Front (R)".to_owned(),
            Uac1ChannelNames::CenterFront => "Center Front (C)".to_owned(),
            Uac1ChannelNames::LowFrequencyEnhancement => "Low Frequency Enhancement (LFE)".to_owned(),
            Uac1ChannelNames::LeftSurround => "Left Surround (LS)".to_owned(),
            Uac1ChannelNames::RightSurround => "Right Surround (RS)".to_owned(),
            Uac1ChannelNames::LeftOfCenter => "Left of Center (LC)".to_owned(),
            Uac1ChannelNames::RightOfCenter => "Right of Center (RC)".to_owned(),
            Uac1ChannelNames::Surround => "Surround (S)".to_owned(),
            Uac1ChannelNames::SideLeft => "Side Left (SL)".to_owned(),
            Uac1ChannelNames::SideRight => "Side Right (SR)".to_owned(),
            Uac1ChannelNames::Top => "Top (T)".to_owned(),
        }
    }

    /// Get the supported [`Uac1ChannelNames`] from the bitmap value
    pub fn from_bitmap(bitmap: u32) -> (names: Vec<Uac1ChannelNames>)
        ensures
            names@ == selected(bitmap, Self::all(), 12),
    {
        let all = [
            Uac1ChannelNames::LeftFront,
            Uac1ChannelNames::RightFront,
            Uac1ChannelNames::CenterFront,
            Uac1ChannelNames::LowFrequencyEnhancement,
            Uac1ChannelNames::LeftSurround,
            Uac1ChannelNames::RightSurround,
            Uac1ChannelNames::LeftOfCenter,
            Uac1ChannelNames::RightOfCenter,
            Uac1ChannelNames::Surround,
            Uac1ChannelNames::SideLeft,
            Uac1ChannelNames::SideRight,
            Uac1ChannelNames::Top,
        ];
        assert(all@ =~= Self::all());
        select(bitmap, all.as_slice())
    }
}

/// USB Audio Class (UAC) protocol 2 supported channel names based on the "wChannelConfig" bitmap
#[derive(Debug, Clone, Copy, PartialEq, Eq, Hash)]
pub enum Uac2ChannelNames {
    FrontLeft,
    FrontRight,
    FrontCenter,
    LowFrequencyEffects,
    BackLeft,
    BackRight,
    FrontLeftOfCenter,
    FrontRightOfCenter,
    BackCenter,
    SideLeft,
    SideRight,
    TopCenter,
    TopFrontLeft,
    TopFrontCenter,
    TopFrontRight,
    TopBackLeft,
    TopBackCenter,
    TopBackRight,
    TopFrontLeftOfCenter,
    TopFrontRightOfCenter,
    LeftLowFrequencyEffects,
    RightLowFrequencyEffects,
    TopSideLeft,
    TopSideRight,
    BottomCenter,
    BackLeftOfCenter,
    BackRightOfCenter,
}

impl Uac2ChannelNames {
    /// The names in the order of their bits.
    pub open spec fn all() -> Seq<Uac2ChannelNames> {
        seq![
            Uac2ChannelNames::FrontLeft,
            Uac2ChannelNames::FrontRight,
            Uac2ChannelNames::FrontCenter,
            Uac2ChannelNames::LowFrequencyEffects,
            Uac2ChannelNames::BackLeft,
            Uac2ChannelNames::BackRight,
            Uac2ChannelNames::FrontLeftOfCenter,
            Uac2ChannelNames::FrontRightOfCenter,
            Uac2ChannelNames::BackCenter,
            Uac2ChannelNames::SideLeft,
            Uac2ChannelNames::SideRight,
            Uac2ChannelNames::TopCenter,
            Uac2ChannelNames::TopFrontLeft,
            Uac2ChannelNames::TopFrontCenter,
            Uac2ChannelNames::TopFrontRight,
            Uac2ChannelNames::TopBackLeft,
            Uac2ChannelNames::TopBackCenter,
            Uac2ChannelNames::TopBackRight,
            Uac2ChannelNames::TopFrontLeftOfCenter,
            Uac2ChannelNames::TopFrontRightOfCenter,
            Uac2ChannelNames::LeftLowFrequencyEffects,
            Uac2ChannelNames::RightLowFrequencyEffects,
            Uac2ChannelNames::TopSideLeft,
            Uac2ChannelNames::TopSideRight,
            Uac2ChannelNames::BottomCenter,
            Uac2ChannelNames::BackLeftOfCenter,
            Uac2ChannelNames::BackRightOfCenter,
        ]
    }

    /// The name as it is shown.
    pub open spec fn label(self) -> Seq<char> {
        match self {
            Uac2ChannelNames::FrontLeft => "Front Left (FL)"@,
            Uac2ChannelNames::FrontRight => "Front Right (FR)"@,
            Uac2ChannelNames::FrontCenter => "Front Center (FC)"@,
            Uac2ChannelNames::LowFrequencyEffects => "Low Frequency Effects (LFE)"@,
            Uac2ChannelNames::BackLeft => "Back Left (BL)"@,
            Uac2ChannelNames::BackRight => "Back Right (BR)"@,
            Uac2ChannelNames::FrontLeftOfCenter => "Front Left of Center (FLC)"@,
            Uac2ChannelNames::FrontRightOfCenter => "Front Right of Center (FRC)"@,
            Uac2ChannelNames::BackCenter => "Back Center (BC)"@,
            Uac2ChannelNames::SideLeft => "Side Left (SL)"@,
            Uac2ChannelNames::SideRight => "Side Right (SR)"@,
            Uac2ChannelNames::TopCenter => "Top Center (TC)"@,
            Uac2ChannelNames::TopFrontLeft => "Top Front Left (TFL)"@,
            Uac2ChannelNames::TopFrontCenter => "Top Front Center (TFC)"@,
            Uac2ChannelNames::TopFrontRight => "Top Front Right (TFR)"@,
            Uac2ChannelNames::TopBackLeft => "Top Back Left (TBL)"@,
            Uac2ChannelNames::TopBackCenter => "Top Back Center (TBC)"@,
            Uac2ChannelNames::TopBackRight => "Top Back Right (TBR)"@,
            Uac2ChannelNames::TopFrontLeftOfCenter => "Top Front Left of Center (TFLC)"@,
            Uac2ChannelNames::TopFrontRightOfCenter => "Top Front Right of Center (TFRC)"@,
            Uac2ChannelNames::LeftLowFrequencyEffects => "Left Low Frequency Effects (LLFE)"@,
            Uac2ChannelNames::RightLowFrequencyEffects => "Right Low Frequency Effects (RLFE)"@,
            Uac2ChannelNames::TopSideLeft => "Top Side Left (TSL)"@,
            Uac2ChannelNames::TopSideRight => "Top Side Right (TSR)"@,
            Uac2ChannelNames::BottomCenter => "Bottom Center (BC)"@,
            Uac2ChannelNames::BackLeftOfCenter => "Back Left of Center (BLC)"@,
            Uac2ChannelNames::BackRightOfCenter => "Back Right of Center (BRC)"@,
        }
    }

    /// The name as it is shown.
    pub fn to_string(&self) -> (s: String)
        ensures
            s@ == self.label(),
    {
        match self {
            Uac2ChannelNames::FrontLeft => "Front Left (FL)".to_owned(),
            Uac2ChannelNames::FrontRight => "Front Right (FR)".to_owned(),
            Uac2ChannelNames::FrontCenter => "Front Center (FC)".to_owned(),
            Uac2ChannelNames::LowFrequencyEffects => "Low Frequency Effects (LFE)".to_owned(),
            Uac2ChannelNames::BackLeft => "Back Left (BL)".to_owned(),
            Uac2ChannelNames::BackRight => "Back Right (BR)".to_owned(),
            Uac2ChannelNames::FrontLeftOfCenter => "Front Left of Center (FLC)".to_owned(),
            Uac2ChannelNames::FrontRightOfCenter => "Front Right of Center (FRC)".to_owned(),
            Uac2ChannelNames::BackCenter => "Back Center (BC)".to_owned(),
            Uac2ChannelNames::SideLeft => "Side Left (SL)".to_owned(),
            Uac2ChannelNames::SideRight => "Side Right (SR)".to_owned(),
            Uac2ChannelNames::TopCenter => "Top Center (TC)".to_owned(),
            Uac2ChannelNames::TopFrontLeft => "Top Front Left (TFL)".to_owned(),
            Uac2ChannelNames::TopFrontCenter => "Top Front Center (TFC)".to_owned(),
            Uac2ChannelNames::TopFrontRight => "Top Front Right (TFR)".to_owned(),
            Uac2ChannelNames::TopBackLeft => "Top Back Left (TBL)".to_owned(),
            Uac2ChannelNames::TopBackCenter => "Top Back Center (TBC)".to_owned(),
            Uac2ChannelNames::TopBackRight => "Top Back Right (TBR)".to_owned(),
            Uac2ChannelNames::TopFrontLeftOfCenter => "Top Front Left of Center (TFLC)".to_owned(),
            Uac2ChannelNames::TopFrontRightOfCenter => "Top Front Right of Center (TFRC)".to_owned(),
            Uac2ChannelNames::LeftLowFrequencyEffects => "Left Low Frequency Effects (LLFE)".to_owned(),
            Uac2ChannelNames::RightLowFrequencyEffects => "Right Low Frequency Effects (RLFE)".to_owned(),
            Uac2ChannelNames::TopSideLeft => "Top Side Left (TSL)".to_owned(),
            Uac2ChannelNames::TopSideRight => "Top Side Right (TSR)".to_owned(),
            Uac2ChannelNames::BottomCenter => "Bottom Center (BC)".to_owned(),
            Uac2ChannelNames::BackLeftOfCenter => "Back Left of Center (BLC)".to_owned(),
            Uac2ChannelNames::BackRightOfCenter => "Back Right of Center (BRC)".to_owned(),
        }
    }

    /// Get the supported [`Uac2ChannelNames`] from the bitmap value
    pub fn from_bitmap(bitmap: u32) -> (names: Vec<Uac2ChannelNames>)
        ensures
            names@ == selected(bitmap, Self::all(), 27),
    {
        let all = [
            Uac2ChannelNames::FrontLeft,
            Uac2ChannelNames::FrontRight,
            Uac2ChannelNames::FrontCenter,
            Uac2ChannelNames::LowFrequencyEffects,
            Uac2ChannelNames::BackLeft,
            Uac2ChannelNames::BackRight,
            Uac2ChannelNames::FrontLeftOfCenter,
            Uac2ChannelNames::FrontRightOfCenter,
            Uac2ChannelNames::BackCenter,
            Uac2ChannelNames::SideLeft,
            Uac2ChannelNames::SideRight,
            Uac2ChannelNames::TopCenter,
            Uac2ChannelNames::TopFrontLeft,
            Uac2ChannelNames::TopFrontCenter,
            Uac2ChannelNames::TopFrontRight,
            Uac2ChannelNames::TopBackLeft,
            Uac2ChannelNames::TopBackCenter,
            Uac2ChannelNames::TopBackRight,
            Uac2ChannelNames::TopFrontLeftOfCenter,
            Uac2ChannelNames::TopFrontRightOfCenter,
            Uac2ChannelNames::LeftLowFrequencyEffects,
            Uac2ChannelNames::RightLowFrequencyEffects,
            Uac2ChannelNames::TopSideLeft,
            Uac2ChannelNames::TopSideRight,
            Uac2ChannelNames::BottomCenter,
            Uac2ChannelNames::BackLeftOfCenter,
            Uac2ChannelNames::BackRightOfCenter,
        ];
        assert(all@ =~= Self::all());
        select(bitmap, all.as_slice())
    }
}

/// USB Audio Class (UAC) channel names based on the "wChannelConfig" field
#[derive(Debug, Clone, Copy, PartialEq, Eq, Hash)]
pub enum ChannelNames {
    /// UAC1 channel names
    Uac1(Uac1ChannelNames),
    /// UAC2 channel names
    Uac2(Uac2ChannelNames),
}

impl ChannelNames {
    /// The name as it is shown.
    pub open spec fn label(self) -> Seq<char> {
        match self {
            ChannelNames::Uac1(c) => c.label(),
            ChannelNames::Uac2(c) => c.label(),
        }
    }

    /// The names that `bitmap` selects under `protocol`. UAC1 and UAC2 name
    /// their channels; under any other protocol there are none.
    pub open spec fn selected(protocol: UacProtocol, bitmap: u32) -> Seq<ChannelNames> {
        match protocol {
            UacProtocol::Uac1 => selected(bitmap, Uac1ChannelNames::all(), 12).map_values(
                |c: Uac1ChannelNames| ChannelNames::Uac1(c),
            ),
            UacProtocol::Uac2 => selected(bitmap, Uac2ChannelNames::all(), 27).map_values(
                |c: Uac2ChannelNames| ChannelNames::Uac2(c),
            ),
            _ => Seq::empty(),
        }
    }

    /// The name as it is shown.
    pub fn to_string(&self) -> (s: String)
        ensures
            s@ == self.label(),
    {
        match self {
            ChannelNames::Uac1(c) => c.to_string(),
            ChannelNames::Uac2(c) => c.to_string(),
        }
    }

    /// Get the supported [`ChannelNames`] from the bitmap value
    pub fn from_bitmap(protocol: &UacProtocol, bitmap: u32) -> (names: Vec<ChannelNames>)
        ensures
            names@ == Self::selected(*protocol, bitmap),
    {
        let mut names: Vec<ChannelNames> = Vec::new();
        match protocol {
            UacProtocol::Uac1 => {
                let chosen = Uac1ChannelNames::from_bitmap(bitmap);
                let mut i: usize = 0;
                while i < chosen.len()
                    invariant
                        i <= chosen.len(),
                        names@ == chosen@.take(i as int).map_values(
                            |c: Uac1ChannelNames| ChannelNames::Uac1(c),
                        ),
                    decreases chosen.len() - i,
                {
                    names.push(ChannelNames::Uac1(chosen[i]));
                    i = i + 1;
                    assert(names@ =~= chosen@.take(i as int).map_values(
                        |c: Uac1ChannelNames| ChannelNames::Uac1(c),
                    ));
                }
                assert(chosen@.take(i as int) =~= chosen@);
            },
            UacProtocol::Uac2 => {
                let chosen = Uac2ChannelNames::from_bitmap(bitmap);
                let mut i: usize = 0;
                while i < chosen.len()
                    invariant
                        i <= chosen.len(),
                        names@ == chosen@.take(i as int).map_values(
                            |c: Uac2ChannelNames| ChannelNames::Uac2(c),
                        ),
                    decreases chosen.len() - i,
                {
                    names.push(ChannelNames::Uac2(chosen[i]));
                    i = i + 1;
                    assert(names@ =~= chosen@.take(i as int).map_values(
                        |c: Uac2ChannelNames| ChannelNames::Uac2(c),
                    ));
                }
                assert(chosen@.take(i as int) =~= chosen@);
            },
            _ => {},
        }
        names
    }
}

} // verus!
