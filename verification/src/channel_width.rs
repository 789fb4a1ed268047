//! Channel widths, and sets of channel widths as advertised by the HT and
//! VHT operation elements; the channel-width resolver that weighs the two
//! elements against each other.

use vstd::prelude::*;

use crate::ies::Ie;
use crate::ies::ht_operation::HtOperation;
use crate::ies::ht_operation::spec_sta_channel_width;
use crate::ies::vht_operation::VhtOperation;
use crate::ies::vht_operation::spec_vht_channel_width;

verus! {

/// One channel width a BSS can operate at.
#[derive(Debug, Copy, Clone, PartialEq, Eq, Structural, Hash)]
pub enum ChannelWidth {
    TwentyMhz,
    TwentyTwoMhz,
    FortyMhz,
    EightyMhz,
    EightyPlusEightyMhz,
    OneSixtyMhz,
}

/// A set of channel widths: one membership flag per width.
#[derive(Debug, Copy, Clone, PartialEq, Eq, Structural)]
pub struct ChannelWidths {
    pub twenty: bool,
    pub twenty_two: bool,
    pub forty: bool,
    pub eighty: bool,
    pub eighty_plus_eighty: bool,
    pub one_sixty: bool,
}

/// The set holding `w` alone.
pub open spec fn spec_single_width(w: ChannelWidth) -> ChannelWidths {
    ChannelWidths {
        twenty: w is TwentyMhz,
        twenty_two: w is TwentyTwoMhz,
        forty: w is FortyMhz,
        eighty: w is EightyMhz,
        eighty_plus_eighty: w is EightyPlusEightyMhz,
        one_sixty: w is OneSixtyMhz,
    }
}

/// Whether `w` is a member of `s`.
pub open spec fn spec_width_in(s: ChannelWidths, w: ChannelWidth) -> bool {
    match w {
        ChannelWidth::TwentyMhz => s.twenty,
        ChannelWidth::TwentyTwoMhz => s.twenty_two,
        ChannelWidth::FortyMhz => s.forty,
        ChannelWidth::EightyMhz => s.eighty,
        ChannelWidth::EightyPlusEightyMhz => s.eighty_plus_eighty,
        ChannelWidth::OneSixtyMhz => s.one_sixty,
    }
}

/// `s` with `w` added.
pub open spec fn spec_width_inserted(s: ChannelWidths, w: ChannelWidth) -> ChannelWidths {
    ChannelWidths {
        twenty: s.twenty || w is TwentyMhz,
        twenty_two: s.twenty_two || w is TwentyTwoMhz,
        forty: s.forty || w is FortyMhz,
        eighty: s.eighty || w is EightyMhz,
        eighty_plus_eighty: s.eighty_plus_eighty || w is EightyPlusEightyMhz,
        one_sixty: s.one_sixty || w is OneSixtyMhz,
    }
}

impl ChannelWidths {
    /// The empty set of widths.
    pub fn empty() -> (r: ChannelWidths)
        ensures
            r == (ChannelWidths {
                twenty: false,
                twenty_two: false,
                forty: false,
                eighty: false,
                eighty_plus_eighty: false,
                one_sixty: false,
            }),
    {
        ChannelWidths {
            twenty: false,
            twenty_two: false,
            forty: false,
            eighty: false,
            eighty_plus_eighty: false,
            one_sixty: false,
        }
    }

    /// The set holding `w` alone.
    pub fn single(w: ChannelWidth) -> (r: ChannelWidths)
        ensures
            r == spec_single_width(w),
    {
        ChannelWidths {
            twenty: matches!(w, ChannelWidth::TwentyMhz),
            twenty_two: matches!(w, ChannelWidth::TwentyTwoMhz),
            forty: matches!(w, ChannelWidth::FortyMhz),
            eighty: matches!(w, ChannelWidth::EightyMhz),
            eighty_plus_eighty: matches!(w, ChannelWidth::EightyPlusEightyMhz),
            one_sixty: matches!(w, ChannelWidth::OneSixtyMhz),
        }
    }

    /// Whether `w` is a member of the set.
    pub fn contains(&self, w: ChannelWidth) -> (r: bool)
        ensures
            r == spec_width_in(*self, w),
    {
        match w {
            ChannelWidth::TwentyMhz => self.twenty,
            ChannelWidth::TwentyTwoMhz => self.twenty_two,
            ChannelWidth::FortyMhz => self.forty,
            ChannelWidth::EightyMhz => self.eighty,
            ChannelWidth::EightyPlusEightyMhz => self.eighty_plus_eighty,
            ChannelWidth::OneSixtyMhz => self.one_sixty,
        }
    }

    /// Adds `w` to the set.
    pub fn insert(&mut self, w: ChannelWidth)
        ensures
            *final (self) == spec_width_inserted(*old(self), w),
    {
        match w {
            ChannelWidth::TwentyMhz => self.twenty = true,
            ChannelWidth::TwentyTwoMhz => self.twenty_two = true,
            ChannelWidth::FortyMhz => self.forty = true,
            ChannelWidth::EightyMhz => self.eighty = true,
            ChannelWidth::EightyPlusEightyMhz => self.eighty_plus_eighty = true,
            ChannelWidth::OneSixtyMhz => self.one_sixty = true,
        }
    }
}

/// The first HT Operation element of a sequence, if any.
pub open spec fn spec_first_ht_operation(ies: Seq<Ie>) -> Option<HtOperation>
    decreases ies.len(),
{
    if ies.len() == 0 {
        None
    } else {
        match ies[0] {
            Ie::HtOperation(h) => Some(h),
            _ => spec_first_ht_operation(ies.skip(1)),
        }
    }
}

/// The first VHT Operation element of a sequence, if any.
pub open spec fn spec_first_vht_operation(ies: Seq<Ie>) -> Option<VhtOperation>
    decreases ies.len(),
{
    if ies.len() == 0 {
        None
    } else {
        match ies[0] {
            Ie::VhtOperation(v) => Some(v),
            _ => spec_first_vht_operation(ies.skip(1)),
        }
    }
}

/// The pair {20, 40}.
pub open spec fn spec_twenty_forty() -> ChannelWidths {
    spec_width_inserted(spec_single_width(ChannelWidth::TwentyMhz), ChannelWidth::FortyMhz)
}

/// The union {80, 80+80, 160}.
pub open spec fn spec_wide_union() -> ChannelWidths {
    spec_width_inserted(
        spec_width_inserted(
            spec_single_width(ChannelWidth::EightyMhz),
            ChannelWidth::EightyPlusEightyMhz,
        ),
        ChannelWidth::OneSixtyMhz,
    )
}

/// The effective channel width of a decoded element sequence, resolved by
/// an ordered decision table over the first HT Operation and the first VHT
/// Operation element; the first matching rule wins.
///
/// 1. HT Operation allows 20 MHz only: 20 MHz.
/// 2. VHT Operation's widths equal {20, 40}: 40 MHz.
/// 3. VHT widths equal {80, 80+80, 160} and segment 1 is zero: 80 MHz.
/// 4. Same union, segment 1 nonzero and eight channels above segment 0:
///    160 MHz.
/// 5. Same union, segment 1 nonzero and more than sixteen channels away
///    from segment 0: 80+80 MHz.
/// 6. VHT widths equal {80+80} alone: 80+80 MHz; {160} alone: 160 MHz.
/// 7. Otherwise: 20 MHz.
///
/// A missing HT Operation element does not constrain the width and counts
/// as {20, 40}, so only an HT Operation element that itself narrows the BSS
/// to 20 MHz triggers the first rule; a missing VHT Operation element
/// counts as {20} with both segments zero.
pub open spec fn spec_resolve_width(ies: Seq<Ie>) -> ChannelWidth {
    let htw = match spec_first_ht_operation(ies) {
        Some(h) => spec_sta_channel_width(h@),
        None => spec_twenty_forty(),
    };
    let vht = spec_first_vht_operation(ies);
    let vw = match vht {
        Some(v) => spec_vht_channel_width(v@),
        None => spec_single_width(ChannelWidth::TwentyMhz),
    };
    let s0 = match vht {
        Some(v) => v@[1],
        None => 0u8,
    };
    let s1 = match vht {
        Some(v) => v@[2],
        None => 0u8,
    };
    if htw == spec_single_width(ChannelWidth::TwentyMhz) {
        ChannelWidth::TwentyMhz
    } else if vw == spec_twenty_forty() {
        ChannelWidth::FortyMhz
    } else if vw == spec_wide_union() && s1 == 0 {
        ChannelWidth::EightyMhz
    } else if vw == spec_wide_union() && s1 > 0 && s1 - s0 == 8 {
        ChannelWidth::OneSixtyMhz
    } else if vw == spec_wide_union() && s1 > 0 && s1 - s0 > 16 {
        ChannelWidth::EightyPlusEightyMhz
    } else if vw == spec_single_width(ChannelWidth::EightyPlusEightyMhz) {
        ChannelWidth::EightyPlusEightyMhz
    } else if vw == spec_single_width(ChannelWidth::OneSixtyMhz) {
        ChannelWidth::OneSixtyMhz
    } else {
        ChannelWidth::TwentyMhz
    }
}

/// Resolves the effective channel width of a decoded element sequence; the
/// decision table is spelled out at [`spec_resolve_width`], whose result
/// this function returns exactly.
pub fn resolve_width(ies: &Vec<Ie>) -> (r: ChannelWidth)
    ensures
        r == spec_resolve_width(ies@),
{
    let mut ht: Option<&HtOperation> = None;
    let mut vht: Option<&VhtOperation> = None;
    let n = ies.len();
    let mut i: usize = 0;
    proof {
        assert(ies@.skip(0) =~= ies@);
    }
    while i < n
        invariant
            i <= n,
            n == ies@.len(),
            (match ht {
                Some(h) => spec_first_ht_operation(ies@) == Some(*h),
                None => spec_first_ht_operation(ies@) == spec_first_ht_operation(
                    ies@.skip(i as int),
                ),
            }),
            (match vht {
                Some(v) => spec_first_vht_operation(ies@) == Some(*v),
                None => spec_first_vht_operation(ies@) == spec_first_vht_operation(
                    ies@.skip(i as int),
                ),
            }),
        decreases n - i,
    {
        proof {
            assert(ies@.skip(i as int)[0] == ies@[i as int]);
            assert(ies@.skip(i as int).skip(1) =~= ies@.skip(i as int + 1));
        }
        match &ies[i] {
            Ie::HtOperation(h) => {
                if ht.is_none() {
                    ht = Some(h);
                }
            },
            Ie::VhtOperation(v) => {
                if vht.is_none() {
                    vht = Some(v);
                }
            },
            _ => {},
        }
        i = i + 1;
    }
    let mut twenty_forty = ChannelWidths::single(ChannelWidth::TwentyMhz);
    twenty_forty.insert(ChannelWidth::FortyMhz);
    let htw = match ht {
        Some(h) => h.sta_channel_width(),
        None => twenty_forty,
    };
    let vw = match vht {
        Some(v) => v.channel_width(),
        None => ChannelWidths::single(ChannelWidth::TwentyMhz),
    };
    let s0 = match vht {
        Some(v) => v.channel_center_freq_segment_zero(),
        None => 0,
    };
    let s1 = match vht {
        Some(v) => v.channel_center_freq_segment_one(),
        None => 0,
    };
    let mut wide = ChannelWidths::single(ChannelWidth::EightyMhz);
    wide.insert(ChannelWidth::EightyPlusEightyMhz);
    wide.insert(ChannelWidth::OneSixtyMhz);
    if htw == ChannelWidths::single(ChannelWidth::TwentyMhz) {
        ChannelWidth::TwentyMhz
    } else if vw == twenty_forty {
        ChannelWidth::FortyMhz
    } else if vw == wide && s1 == 0 {
        ChannelWidth::EightyMhz
    } else if vw == wide && s1 > 0 && (s1 as i32) - (s0 as i32) == 8 {
        ChannelWidth::OneSixtyMhz
    } else if vw == wide && s1 > 0 && (s1 as i32) - (s0 as i32) > 16 {
        ChannelWidth::EightyPlusEightyMhz
    } else if vw == ChannelWidths::single(ChannelWidth::EightyPlusEightyMhz) {
        ChannelWidth::EightyPlusEightyMhz
    } else if vw == ChannelWidths::single(ChannelWidth::OneSixtyMhz) {
        ChannelWidth::OneSixtyMhz
    } else {
        ChannelWidth::TwentyMhz
    }
}

} // verus!
