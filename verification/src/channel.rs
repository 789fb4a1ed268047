//! Channels: validated channel numbers, frequency bands, and the channel a
//! BSS operates on.

use vstd::prelude::*;

use crate::channel_width::ChannelWidth;
use crate::channel_width::resolve_width;
use crate::channel_width::spec_resolve_width;
use crate::ies::Ie;
use crate::ies::ds_parameter_set::DsParameterSet;

verus! {

/// Whether `n` is a channel number of the enumerated 802.11 channel table:
/// 1-14 in the 2.4 GHz band, and the valid 5 GHz numbers between 32 and 181.
pub open spec fn valid_channel_number(n: u8) -> bool {
    ||| 1 <= n <= 14
    ||| (32 <= n <= 64 && n % 2 == 0)
    ||| n == 68
    ||| n == 96
    ||| (100 <= n <= 128 && n % 2 == 0)
    ||| (132 <= n <= 144 && n % 2 == 0)
    ||| (149 <= n <= 161 && n % 2 == 1)
    ||| n == 165
    ||| n == 169
    ||| n == 173
    ||| n == 177
    ||| n == 181
}

/// A validated channel number: a byte that the enumerated channel table
/// accepts.
#[derive(Debug, Copy, Clone, PartialEq, Eq, Structural, Hash)]
pub struct ChannelNumber {
    pub number: u8,
}

impl ChannelNumber {
    /// Validates a byte against the channel table.
    pub fn try_from(value: u8) -> (r: Option<ChannelNumber>)
        ensures
            r is Some <==> valid_channel_number(value),
            r matches Some(c) ==> c@ == value,
    {
        let ok = (1 <= value && value <= 14) || (32 <= value && value <= 64 && value % 2 == 0)
            || value == 68 || value == 96 || (100 <= value && value <= 128 && value % 2 == 0) || (
        132 <= value && value <= 144 && value % 2 == 0) || (149 <= value && value <= 161 && value
            % 2 == 1) || value == 165 || value == 169 || value == 173 || value == 177 || value
            == 181;
        if ok {
            Some(ChannelNumber { number: value })
        } else {
            None
        }
    }

    /// The channel number as a byte.
    pub fn value(&self) -> (r: u8)
        ensures
            r == self@,
    {
        self.number
    }
}

impl View for ChannelNumber {
    type V = u8;

    open spec fn view(&self) -> u8 {
        self.number
    }
}

/// The frequency band a channel belongs to.
#[derive(Debug, Copy, Clone, PartialEq, Eq, Structural, Hash)]
pub enum ChannelBand {
    TwoPointFourGhz,
    FiveGhz,
    SixGhz,
}

/// The band of channel number `n`: 1-14 lie in the 2.4 GHz band, every
/// other table entry in the 5 GHz band.
pub open spec fn spec_band_of(n: u8) -> ChannelBand {
    if 1 <= n <= 14 {
        ChannelBand::TwoPointFourGhz
    } else {
        ChannelBand::FiveGhz
    }
}

/// The center frequency of channel number `n` in MHz: channel 14 sits apart
/// at 2484 MHz; the other 2.4 GHz channels at 2407 + 5n; the 5 GHz channels
/// at 5000 + 5n.
pub open spec fn spec_center_freq_mhz(n: u8) -> int {
    if n == 14 {
        2484
    } else if 1 <= n <= 13 {
        2407 + 5 * n
    } else {
        5000 + 5 * n
    }
}

/// The channel a BSS operates on: a validated channel number and a width.
#[derive(Debug, Copy, Clone, PartialEq, Eq, Structural)]
pub struct Channel {
    number: ChannelNumber,
    width: ChannelWidth,
}

impl Channel {
    /// The channel's number.
    pub closed spec fn spec_number(self) -> ChannelNumber {
        self.number
    }

    /// The channel's width.
    pub closed spec fn spec_width(self) -> ChannelWidth {
        self.width
    }

    pub(crate) fn from_parts(number: ChannelNumber, width: ChannelWidth) -> (r: Channel)
        ensures
            r.spec_number() == number,
            r.spec_width() == width,
    {
        Channel { number, width }
    }

    /// The channel number.
    pub fn number(&self) -> (r: ChannelNumber)
        ensures
            r == self.spec_number(),
    {
        self.number
    }

    /// The channel width.
    pub fn width(&self) -> (r: ChannelWidth)
        ensures
            r == self.spec_width(),
    {
        self.width
    }

    /// The frequency band the channel belongs to.
    pub fn band(&self) -> (r: ChannelBand)
        ensures
            r == spec_band_of(self.spec_number()@),
    {
        let n = self.number.value();
        if 1 <= n && n <= 14 {
            ChannelBand::TwoPointFourGhz
        } else {
            ChannelBand::FiveGhz
        }
    }

    /// The channel's center frequency in MHz.
    pub fn center_freq_mhz(&self) -> (r: u32)
        ensures
            r == spec_center_freq_mhz(self.spec_number()@),
    {
        let n = self.number.value();
        if n == 14 {
            2484
        } else if 1 <= n && n <= 13 {
            2407 + 5 * (n as u32)
        } else {
            5000 + 5 * (n as u32)
        }
    }

    /// Resolves the channel of a decoded element sequence: its number from
    /// the first DS Parameter Set element, its width from the HT and VHT
    /// operation elements.
    pub fn resolve(ies: &Vec<Ie>) -> (r: Channel)
        ensures
            r.spec_number() == spec_resolve_number(ies@),
            r.spec_width() == spec_resolve_width(ies@),
    {
        Channel { number: resolve_number(ies), width: resolve_width(ies) }
    }
}

/// The first DS Parameter Set element of a sequence, if any.
pub open spec fn spec_first_ds_parameter_set(ies: Seq<Ie>) -> Option<DsParameterSet>
    decreases ies.len(),
{
    if ies.len() == 0 {
        None
    } else {
        match ies[0] {
            Ie::DsParameterSet(d) => Some(d),
            _ => spec_first_ds_parameter_set(ies.skip(1)),
        }
    }
}

/// The effective channel number of a decoded element sequence: the byte of
/// the first DS Parameter Set element where there is one and it is a valid
/// channel number; channel 1 where the element is missing or its byte lies
/// outside the channel table.
pub open spec fn spec_resolve_number(ies: Seq<Ie>) -> ChannelNumber {
    match spec_first_ds_parameter_set(ies) {
        Some(d) => if valid_channel_number(d@[0]) {
            ChannelNumber { number: d@[0] }
        } else {
            ChannelNumber { number: 1 }
        },
        None => ChannelNumber { number: 1 },
    }
}

/// Resolves the effective channel number of a decoded element sequence.
pub fn resolve_number(ies: &Vec<Ie>) -> (r: ChannelNumber)
    ensures
        r == spec_resolve_number(ies@),
{
    let mut ds: Option<&DsParameterSet> = None;
    let n = ies.len();
    let mut i: usize = 0;
    proof {
        assert(ies@.skip(0) =~= ies@);
    }
    while i < n
        invariant
            i <= n,
            n == ies@.len(),
            (match ds {
                Some(d) => spec_first_ds_parameter_set(ies@) == Some(*d),
                None => spec_first_ds_parameter_set(ies@) == spec_first_ds_parameter_set(
                    ies@.skip(i as int),
                ),
            }),
        decreases n - i,
    {
        proof {
            assert(ies@.skip(i as int)[0] == ies@[i as int]);
            assert(ies@.skip(i as int).skip(1) =~= ies@.skip(i as int + 1));
        }
        match &ies[i] {
            Ie::DsParameterSet(d) => {
                if ds.is_none() {
                    ds = Some(d);
                }
            },
            _ => {},
        }
        i = i + 1;
    }
    match ds {
        Some(d) => {
            match ChannelNumber::try_from(d.channel_number()) {
                Some(c) => c,
                None => ChannelNumber { number: 1 },
            }
        },
        None => ChannelNumber { number: 1 },
    }
}

} // verus!
