//! Country element: the regulatory domain, and per-subband channel and
//! power limits.

use vstd::prelude::*;
use vstd::utf8::decode_utf8;
use vstd::utf8::valid_utf8;

use crate::bits::as_signed_byte;
use crate::bits::signed_byte;
use crate::channel::ChannelNumber;
use crate::channel::valid_channel_number;
use crate::ies::{is_invalid_length, utf8_from, IeError, InformationElement};

verus! {

/// The operating environment a country element declares.
#[derive(Debug, Copy, Clone, PartialEq, Eq, Structural)]
pub enum Environment {
    Any,
    Outdoor,
    Indoor,
}

/// The environment selected by the third country-string byte: a space means
/// any, `O` outdoor, `I` indoor; everything else is unrecognized.
pub open spec fn spec_environment(b: u8) -> Option<Environment> {
    if b == 0x20 {
        Some(Environment::Any)
    } else if b == 0x4F {
        Some(Environment::Outdoor)
    } else if b == 0x49 {
        Some(Environment::Indoor)
    } else {
        None
    }
}

/// An operating-class triplet: carried forward and attached to every
/// subsequent subband triplet until superseded.
#[derive(Debug, Copy, Clone, PartialEq, Eq, Structural)]
pub struct OperatingInfo {
    pub operating_extension_id: u8,
    pub operating_class: u8,
    pub coverage_class: u8,
}

impl OperatingInfo {
    /// The operating extension identifier (the triplet byte above 200).
    pub fn operating_extension_id(&self) -> (r: u8)
        ensures
            r == self.operating_extension_id,
    {
        self.operating_extension_id
    }

    /// The operating class.
    pub fn operating_class(&self) -> (r: u8)
        ensures
            r == self.operating_class,
    {
        self.operating_class
    }

    /// The coverage class.
    pub fn coverage_class(&self) -> (r: u8)
        ensures
            r == self.coverage_class,
    {
        self.coverage_class
    }

    /// The air propagation time the coverage class encodes, in
    /// microseconds: three microseconds per step for classes 0 to 31;
    /// higher classes are reserved.
    pub fn air_propagation_time_us(&self) -> (r: Option<u16>)
        ensures
            self.coverage_class <= 31 ==> r == Some((3 * self.coverage_class) as u16),
            self.coverage_class > 31 ==> r is None,
    {
        if self.coverage_class <= 31 {
            Some(3 * self.coverage_class as u16)
        } else {
            None
        }
    }
}

/// A subband triplet: a run of channels sharing a maximum transmit power,
/// together with the operating info in force when it was read.
#[derive(Debug, Copy, Clone, PartialEq, Eq, Structural)]
pub struct SubbandInfo {
    pub first_channel_number: ChannelNumber,
    pub number_of_channels: u8,
    pub max_transmit_power_level_dbm: i8,
    pub operating_info: Option<OperatingInfo>,
}

impl SubbandInfo {
    /// The first channel number of the subband.
    pub fn first_channel_number(&self) -> (r: ChannelNumber)
        ensures
            r == self.first_channel_number,
    {
        self.first_channel_number
    }

    /// How many channels the subband spans.
    pub fn number_of_channels(&self) -> (r: u8)
        ensures
            r == self.number_of_channels,
    {
        self.number_of_channels
    }

    /// The maximum transmit power over the subband, in dBm.
    pub fn max_transmit_power_level_dbm(&self) -> (r: i8)
        ensures
            r == self.max_transmit_power_level_dbm,
    {
        self.max_transmit_power_level_dbm
    }

    /// The operating info in force over this subband, if any operating
    /// class triplet preceded it.
    pub fn operating_class(&self) -> (r: Option<OperatingInfo>)
        ensures
            r == self.operating_info,
    {
        self.operating_info
    }
}

/// The subbands encoded by a run of three-byte triplets, walked in order
/// with `cur` as the operating info in force. A triplet whose first byte is
/// a valid channel number is a subband; one whose first byte is above 200
/// replaces the operating info; any other triplet is skipped. A trailing
/// fragment shorter than three bytes is ignored.
pub open spec fn spec_subbands(data: Seq<u8>, cur: Option<OperatingInfo>) -> Seq<SubbandInfo>
    decreases data.len(),
{
    if data.len() < 3 {
        Seq::empty()
    } else {
        let rest = data.skip(3);
        if valid_channel_number(data[0]) {
            seq![
                SubbandInfo {
                    first_channel_number: ChannelNumber { number: data[0] },
                    number_of_channels: data[1],
                    max_transmit_power_level_dbm: as_signed_byte(data[2]) as i8,
                    operating_info: cur,
                },
            ] + spec_subbands(rest, cur)
        } else if data[0] > 200 {
            spec_subbands(
                rest,
                Some(
                    OperatingInfo {
                        operating_extension_id: data[0],
                        operating_class: data[1],
                        coverage_class: data[2],
                    },
                ),
            )
        } else {
            spec_subbands(rest, cur)
        }
    }
}

/// Country element (ID 7): at least six bytes. Bytes 0-2 are the country
/// string (two-letter code and environment), the rest is a run of
/// three-byte triplets.
#[derive(Debug, PartialEq, Eq)]
pub struct Country {
    bytes: Vec<u8>,
}

impl Country {
    pub const ID: u8 = 7;

    pub const MIN_LENGTH: usize = 6;

    #[verifier::type_invariant]
    closed spec fn len_contract(self) -> bool {
        self.bytes@.len() >= 6
    }

    /// Builds the element from its payload; fewer than 6 bytes are rejected,
    /// extra trailing bytes carry further triplets.
    pub fn new(bytes: Vec<u8>) -> (r: Result<Country, IeError>)
        ensures
            bytes@.len() >= 6 ==> (r matches Ok(a) && a@ == bytes@),
            bytes@.len() < 6 ==> (r matches Err(e) && is_invalid_length(
                e,
                "Country"@,
                6,
                bytes@.len() as int,
            )),
    {
        if bytes.len() >= 6 {
            Ok(Country { bytes })
        } else {
            let actual_length = bytes.len();
            Err(
                IeError::InvalidLength {
                    ie_name: "Country",
                    expected_length: 6,
                    actual_length,
                },
            )
        }
    }

    /// The three-byte country string as text; absent when those bytes are
    /// not valid UTF-8.
    pub fn country_string(&self) -> (r: Option<&str>)
        ensures
            r is Some <==> valid_utf8(self@.subrange(0, 3)),
            r matches Some(s) ==> s@ == decode_utf8(self@.subrange(0, 3)),
    {
        proof {
            use_type_invariant(self);
        }
        let head = self.bytes.as_slice().split_at(3).0;
        proof {
            assert(head@ =~= self@.subrange(0, 3));
        }
        utf8_from(head)
    }

    /// The two-letter country code as text; absent when those bytes are not
    /// valid UTF-8.
    pub fn country_code(&self) -> (r: Option<&str>)
        ensures
            r is Some <==> valid_utf8(self@.subrange(0, 2)),
            r matches Some(s) ==> s@ == decode_utf8(self@.subrange(0, 2)),
    {
        proof {
            use_type_invariant(self);
        }
        let head = self.bytes.as_slice().split_at(2).0;
        proof {
            assert(head@ =~= self@.subrange(0, 2));
        }
        utf8_from(head)
    }

    /// The declared operating environment, from the third country-string
    /// byte.
    pub fn environment(&self) -> (r: Option<Environment>)
        ensures
            r == spec_environment(self@[2]),
    {
        proof {
            use_type_invariant(self);
        }
        let b = self.bytes[2];
        if b == 0x20 {
            Some(Environment::Any)
        } else if b == 0x4F {
            Some(Environment::Outdoor)
        } else if b == 0x49 {
            Some(Environment::Indoor)
        } else {
            None
        }
    }

    /// The subband triplets, in payload order, each carrying the operating
    /// info of the last operating-class triplet before it.
    pub fn subband_info(&self) -> (r: Vec<SubbandInfo>)
        ensures
            r@ == spec_subbands(self@.skip(3), None::<OperatingInfo>),
    {
        proof {
            use_type_invariant(self);
        }
        let mut out: Vec<SubbandInfo> = Vec::new();
        let mut cur: Option<OperatingInfo> = None;
        let mut i: usize = 3;
        let n = self.bytes.len();
        while i <= n - 3
            invariant
                3 <= i <= n,
                n == self.bytes@.len(),
                spec_subbands(self@.skip(3), None::<OperatingInfo>) =~= out@ + spec_subbands(
                    self@.skip(i as int),
                    cur,
                ),
            decreases n - i,
        {
            proof {
                use_type_invariant(self);
                assert(self@.skip(i as int).skip(3) =~= self@.skip(i + 3));
                assert(self@.skip(i as int)[0] == self@[i as int]);
                assert(self@.skip(i as int)[1] == self@[i as int + 1]);
                assert(self@.skip(i as int)[2] == self@[i as int + 2]);
            }
            let t0 = self.bytes[i];
            let t1 = self.bytes[i + 1];
            let t2 = self.bytes[i + 2];
            if let Some(channel_number) = ChannelNumber::try_from(t0) {
                out.push(
                    SubbandInfo {
                        first_channel_number: channel_number,
                        number_of_channels: t1,
                        max_transmit_power_level_dbm: signed_byte(t2),
                        operating_info: cur,
                    },
                );
            } else if t0 > 200 {
                cur = Some(
                    OperatingInfo {
                        operating_extension_id: t0,
                        operating_class: t1,
                        coverage_class: t2,
                    },
                );
            }
            i = i + 3;
        }
        proof {
            assert(self@.skip(i as int).len() < 3);
        }
        out
    }
}

impl View for Country {
    type V = Seq<u8>;

    closed spec fn view(&self) -> Seq<u8> {
        self.bytes@
    }
}

impl InformationElement for Country {
    open spec fn spec_name(&self) -> Seq<char> {
        "Country"@
    }

    open spec fn spec_id(&self) -> u8 {
        7
    }

    open spec fn spec_id_ext(&self) -> Option<u8> {
        None
    }

    open spec fn payload(&self) -> Seq<u8> {
        self@
    }

    fn name(&self) -> (r: &'static str) {
        "Country"
    }

    fn id(&self) -> (r: u8) {
        7
    }

    fn id_ext(&self) -> (r: Option<u8>) {
        None
    }

    fn bytes(&self) -> (r: &[u8]) {
        proof {
            use_type_invariant(self);
        }
        self.bytes.as_slice()
    }
}

} // verus!
