//! Supported Rates and Extended Supported Rates elements: the legacy data
//! rates a network advertises.
//!
//! A rate byte encodes the rate value in units of 0.5 Mbps in its low seven
//! bits and a "basic rate" flag in its high bit; only the fourteen standard
//! rate values are recognized.

use vstd::prelude::*;

use crate::ies::Ie;
use crate::ies::InformationElement;

verus! {

/// One advertised data rate; the payload is the basic-rate flag.
#[derive(Debug, Copy, Clone, PartialEq, Eq, Structural, Hash)]
pub enum DataRate {
    OneMbps(bool),
    TwoMbps(bool),
    FivePointFiveMbps(bool),
    SixMbps(bool),
    NineMbps(bool),
    ElevenMbps(bool),
    TwelveMbps(bool),
    EighteenMbps(bool),
    TwentyTwoMbps(bool),
    TwentyFourMbps(bool),
    ThirtyThreeMbps(bool),
    ThirtySixMbps(bool),
    FortyEightMbps(bool),
    FiftyFourMbps(bool),
}

/// The rate encoded by one payload byte: the high bit is the basic-rate
/// flag, the low seven bits are the rate in units of 0.5 Mbps; bytes whose
/// rate value is not one of the fourteen standard rates encode nothing.
pub open spec fn spec_rate_of(byte: u8) -> Option<DataRate> {
    let basic = byte >= 128;
    let code = byte % 128;
    if code == 2 {
        Some(DataRate::OneMbps(basic))
    } else if code == 4 {
        Some(DataRate::TwoMbps(basic))
    } else if code == 11 {
        Some(DataRate::FivePointFiveMbps(basic))
    } else if code == 12 {
        Some(DataRate::SixMbps(basic))
    } else if code == 18 {
        Some(DataRate::NineMbps(basic))
    } else if code == 22 {
        Some(DataRate::ElevenMbps(basic))
    } else if code == 24 {
        Some(DataRate::TwelveMbps(basic))
    } else if code == 36 {
        Some(DataRate::EighteenMbps(basic))
    } else if code == 44 {
        Some(DataRate::TwentyTwoMbps(basic))
    } else if code == 48 {
        Some(DataRate::TwentyFourMbps(basic))
    } else if code == 66 {
        Some(DataRate::ThirtyThreeMbps(basic))
    } else if code == 72 {
        Some(DataRate::ThirtySixMbps(basic))
    } else if code == 96 {
        Some(DataRate::FortyEightMbps(basic))
    } else if code == 108 {
        Some(DataRate::FiftyFourMbps(basic))
    } else {
        None
    }
}

/// Whether some payload byte of `bytes` encodes the rate `d`.
pub open spec fn rate_listed(bytes: Seq<u8>, d: DataRate) -> bool {
    exists|j: int| 0 <= j < bytes.len() && spec_rate_of(bytes[j]) == Some(d)
}

impl DataRate {
    /// Whether the rate is flagged as a basic (mandatory) rate.
    pub open spec fn spec_is_basic(self) -> bool {
        match self {
            DataRate::OneMbps(b) => b,
            DataRate::TwoMbps(b) => b,
            DataRate::FivePointFiveMbps(b) => b,
            DataRate::SixMbps(b) => b,
            DataRate::NineMbps(b) => b,
            DataRate::ElevenMbps(b) => b,
            DataRate::TwelveMbps(b) => b,
            DataRate::EighteenMbps(b) => b,
            DataRate::TwentyTwoMbps(b) => b,
            DataRate::TwentyFourMbps(b) => b,
            DataRate::ThirtyThreeMbps(b) => b,
            DataRate::ThirtySixMbps(b) => b,
            DataRate::FortyEightMbps(b) => b,
            DataRate::FiftyFourMbps(b) => b,
        }
    }

    /// The rate value in units of 0.5 Mbps, as it stands in the low seven
    /// bits of the encoding.
    pub open spec fn spec_value_half_mbps(self) -> u8 {
        match self {
            DataRate::OneMbps(_) => 2,
            DataRate::TwoMbps(_) => 4,
            DataRate::FivePointFiveMbps(_) => 11,
            DataRate::SixMbps(_) => 12,
            DataRate::NineMbps(_) => 18,
            DataRate::ElevenMbps(_) => 22,
            DataRate::TwelveMbps(_) => 24,
            DataRate::EighteenMbps(_) => 36,
            DataRate::TwentyTwoMbps(_) => 44,
            DataRate::TwentyFourMbps(_) => 48,
            DataRate::ThirtyThreeMbps(_) => 66,
            DataRate::ThirtySixMbps(_) => 72,
            DataRate::FortyEightMbps(_) => 96,
            DataRate::FiftyFourMbps(_) => 108,
        }
    }

    /// Whether the rate is flagged as a basic (mandatory) rate.
    pub fn is_basic(&self) -> (r: bool)
        ensures
            r == self.spec_is_basic(),
    {
        match self {
            DataRate::OneMbps(b) => *b,
            DataRate::TwoMbps(b) => *b,
            DataRate::FivePointFiveMbps(b) => *b,
            DataRate::SixMbps(b) => *b,
            DataRate::NineMbps(b) => *b,
            DataRate::ElevenMbps(b) => *b,
            DataRate::TwelveMbps(b) => *b,
            DataRate::EighteenMbps(b) => *b,
            DataRate::TwentyTwoMbps(b) => *b,
            DataRate::TwentyFourMbps(b) => *b,
            DataRate::ThirtyThreeMbps(b) => *b,
            DataRate::ThirtySixMbps(b) => *b,
            DataRate::FortyEightMbps(b) => *b,
            DataRate::FiftyFourMbps(b) => *b,
        }
    }

    /// The rate value in units of 0.5 Mbps.
    pub fn value_half_mbps(&self) -> (r: u8)
        ensures
            r == self.spec_value_half_mbps(),
    {
        match self {
            DataRate::OneMbps(_) => 2,
            DataRate::TwoMbps(_) => 4,
            DataRate::FivePointFiveMbps(_) => 11,
            DataRate::SixMbps(_) => 12,
            DataRate::NineMbps(_) => 18,
            DataRate::ElevenMbps(_) => 22,
            DataRate::TwelveMbps(_) => 24,
            DataRate::EighteenMbps(_) => 36,
            DataRate::TwentyTwoMbps(_) => 44,
            DataRate::TwentyFourMbps(_) => 48,
            DataRate::ThirtyThreeMbps(_) => 66,
            DataRate::ThirtySixMbps(_) => 72,
            DataRate::FortyEightMbps(_) => 96,
            DataRate::FiftyFourMbps(_) => 108,
        }
    }

    /// Decodes one rate byte; bytes carrying an unrecognized rate value
    /// decode to nothing.
    pub fn try_from(rate_byte: u8) -> (r: Option<DataRate>)
        ensures
            r == spec_rate_of(rate_byte),
    {
        let basic = rate_byte >= 128;
        let code = rate_byte % 128;
        if code == 2 {
            Some(DataRate::OneMbps(basic))
        } else if code == 4 {
            Some(DataRate::TwoMbps(basic))
        } else if code == 11 {
            Some(DataRate::FivePointFiveMbps(basic))
        } else if code == 12 {
            Some(DataRate::SixMbps(basic))
        } else if code == 18 {
            Some(DataRate::NineMbps(basic))
        } else if code == 22 {
            Some(DataRate::ElevenMbps(basic))
        } else if code == 24 {
            Some(DataRate::TwelveMbps(basic))
        } else if code == 36 {
            Some(DataRate::EighteenMbps(basic))
        } else if code == 44 {
            Some(DataRate::TwentyTwoMbps(basic))
        } else if code == 48 {
            Some(DataRate::TwentyFourMbps(basic))
        } else if code == 66 {
            Some(DataRate::ThirtyThreeMbps(basic))
        } else if code == 72 {
            Some(DataRate::ThirtySixMbps(basic))
        } else if code == 96 {
            Some(DataRate::FortyEightMbps(basic))
        } else if code == 108 {
            Some(DataRate::FiftyFourMbps(basic))
        } else {
            None
        }
    }
}

/// Whether the rate `x` stands in `v`.
fn contains_rate(v: &Vec<DataRate>, x: DataRate) -> (r: bool)
    ensures
        r == v@.contains(x),
{
    let mut k: usize = 0;
    while k < v.len()
        invariant
            k <= v@.len(),
            forall|i: int| 0 <= i < k ==> v@[i] != x,
        decreases v@.len() - k,
    {
        if v[k] == x {
            return true;
        }
        k = k + 1;
    }
    proof {
        assert(!v@.contains(x)) by {
            if v@.contains(x) {
                let i = choose|i: int| 0 <= i < v@.len() && v@[i] == x;
                assert(false);
            }
        }
    }
    false
}

/// Supported Rates element (ID 1): any byte count, one rate per byte.
#[derive(Debug, PartialEq, Eq)]
pub struct SupportedRates {
    bytes: Vec<u8>,
}

impl SupportedRates {
    pub const ID: u8 = 1;

    /// Builds the element from its payload; any byte count, including zero,
    /// is accepted.
    pub fn new(bytes: Vec<u8>) -> (r: SupportedRates)
        ensures
            r@ == bytes@,
    {
        SupportedRates { bytes }
    }

    /// The set of recognized rates the payload advertises: every recognized
    /// rate byte is represented, duplicate encodings collapse, and nothing
    /// else is listed.
    pub fn rates(&self) -> (r: Vec<DataRate>)
        ensures
            forall|i: int| 0 <= i < r@.len() ==> rate_listed(self@, #[trigger] r@[i]),
            forall|j: int|
                0 <= j < self@.len() ==> (#[trigger] spec_rate_of(self@[j]) matches Some(d)
                    ==> r@.contains(d)),
            forall|i1: int, i2: int| 0 <= i1 < i2 < r@.len() ==> r@[i1] != r@[i2],
    {
        rates_of(&self.bytes)
    }
}

/// The deduplicated recognized rates of a rate payload, shared by the plain
/// and the extended element.
fn rates_of(bytes: &Vec<u8>) -> (r: Vec<DataRate>)
    ensures
        forall|i: int| 0 <= i < r@.len() ==> rate_listed(bytes@, #[trigger] r@[i]),
        forall|j: int|
            0 <= j < bytes@.len() ==> (#[trigger] spec_rate_of(bytes@[j]) matches Some(d)
                ==> r@.contains(d)),
        forall|i1: int, i2: int| 0 <= i1 < i2 < r@.len() ==> r@[i1] != r@[i2],
{
    let mut out: Vec<DataRate> = Vec::new();
    let n = bytes.len();
    let mut j: usize = 0;
    while j < n
        invariant
            j <= n,
            n == bytes@.len(),
            forall|i: int| 0 <= i < out@.len() ==> rate_listed(bytes@, #[trigger] out@[i]),
            forall|jj: int|
                0 <= jj < j ==> (#[trigger] spec_rate_of(bytes@[jj]) matches Some(d)
                    ==> out@.contains(d)),
            forall|i1: int, i2: int| 0 <= i1 < i2 < out@.len() ==> out@[i1] != out@[i2],
        decreases n - j,
    {
        let b = bytes[j];
        if let Some(d) = DataRate::try_from(b) {
            if !contains_rate(&out, d) {
                let ghost prev = out@;
                out.push(d);
                proof {
                    assert(out@ == prev.push(d));
                    assert forall|x: DataRate| prev.contains(x) implies out@.contains(x) by {
                        let i = choose|i: int| 0 <= i < prev.len() && prev[i] == x;
                        assert(out@[i] == x);
                    }
                    assert(out@.contains(d)) by {
                        assert(out@[prev.len() as int] == d);
                    }
                    assert(rate_listed(bytes@, d)) by {
                        assert(spec_rate_of(bytes@[j as int]) == Some(d));
                    }
                    assert forall|i1: int| 0 <= i1 < prev.len() implies prev[i1] != d by {
                        if prev[i1] == d {
                            assert(prev.contains(d));
                        }
                    }
                }
            }
        }
        j = j + 1;
    }
    out
}

/// Whether the element is a supported-rates element advertising rate `d`.
pub open spec fn ie_lists_rate(ie: Ie, d: DataRate) -> bool {
    match ie {
        Ie::SupportedRates(e) => rate_listed(e@, d),
        Ie::ExtendedSupportedRates(e) => rate_listed(e@, d),
        _ => false,
    }
}

/// Whether one of the first `i` elements advertises rate `d`.
pub open spec fn spec_rate_listed_upto(ies: Seq<Ie>, i: int, d: DataRate) -> bool {
    exists|ii: int| 0 <= ii < i && ie_lists_rate(#[trigger] ies[ii], d)
}

/// The highest recognized rate that the supported-rates elements of a
/// decoded element sequence advertise, in units of 0.5 Mbps; nothing when
/// no element advertises a recognized rate.
pub fn max_rate_half_mbps(ies: &Vec<Ie>) -> (r: Option<u8>)
    ensures
        r is None <==> (forall|d: DataRate| !spec_rate_listed_upto(ies@, ies@.len() as int, d)),
        r matches Some(v) ==> (exists|d: DataRate|
            spec_rate_listed_upto(ies@, ies@.len() as int, d) && d.spec_value_half_mbps() == v),
        r matches Some(v) ==> (forall|d: DataRate|
            spec_rate_listed_upto(ies@, ies@.len() as int, d) ==> d.spec_value_half_mbps() <= v),
{
    let mut cur: Option<u8> = None;
    let n = ies.len();
    let mut i: usize = 0;
    while i < n
        invariant
            i <= n,
            n == ies@.len(),
            cur is None <==> (forall|d: DataRate| !spec_rate_listed_upto(ies@, i as int, d)),
            cur matches Some(v) ==> (exists|d: DataRate|
                spec_rate_listed_upto(ies@, i as int, d) && d.spec_value_half_mbps() == v),
            cur matches Some(v) ==> (forall|d: DataRate|
                spec_rate_listed_upto(ies@, i as int, d) ==> d.spec_value_half_mbps() <= v),
        decreases n - i,
    {
        let rate_bytes: Option<&[u8]> = match &ies[i] {
            Ie::SupportedRates(e) => Some(e.bytes()),
            Ie::ExtendedSupportedRates(e) => Some(e.bytes()),
            _ => None,
        };
        if let Some(data) = rate_bytes {
            let m = data.len();
            let mut j: usize = 0;
            while j < m
                invariant
                    j <= m,
                    i < n,
                    n == ies@.len(),
                    m == data@.len(),
                    ie_lists_rate(ies@[i as int], DataRate::OneMbps(false)) ==> rate_listed(
                        data@,
                        DataRate::OneMbps(false),
                    ),
                    forall|d: DataRate|
                        ie_lists_rate(ies@[i as int], d) <==> rate_listed(data@, d),
                    cur is None <==> ((forall|d: DataRate|
                        !spec_rate_listed_upto(ies@, i as int, d)) && (forall|jj: int|
                        0 <= jj < j ==> spec_rate_of(data@[jj]) is None)),
                    cur matches Some(v) ==> (exists|d: DataRate|
                        (spec_rate_listed_upto(ies@, i as int, d) || (exists|jj: int|
                            0 <= jj < j && spec_rate_of(data@[jj]) == Some(d)))
                            && d.spec_value_half_mbps() == v),
                    cur matches Some(v) ==> (forall|d: DataRate|
                        spec_rate_listed_upto(ies@, i as int, d) ==> d.spec_value_half_mbps()
                            <= v),
                    cur matches Some(v) ==> (forall|jj: int|
                        0 <= jj < j ==> (#[trigger] spec_rate_of(data@[jj]) matches Some(d)
                            ==> d.spec_value_half_mbps() <= v)),
                decreases m - j,
            {
                if let Some(d) = DataRate::try_from(data[j]) {
                    let v = d.value_half_mbps();
                    let better = match cur {
                        Some(c) => v > c,
                        None => true,
                    };
                    if better {
                        cur = Some(v);
                    }
                }
                j = j + 1;
            }
            proof {
                assert forall|d: DataRate|
                    spec_rate_listed_upto(ies@, i as int + 1, d) implies (spec_rate_listed_upto(
                    ies@,
                    i as int,
                    d,
                ) || rate_listed(data@, d)) by {
                    let ii = choose|ii: int|
                        0 <= ii < i as int + 1 && ie_lists_rate(#[trigger] ies@[ii], d);
                    if ii < i as int {
                        assert(spec_rate_listed_upto(ies@, i as int, d));
                    }
                }
                assert forall|d: DataRate|
                    spec_rate_listed_upto(ies@, i as int, d) implies spec_rate_listed_upto(
                    ies@,
                    i as int + 1,
                    d,
                ) by {
                    let ii = choose|ii: int|
                        0 <= ii < i as int && ie_lists_rate(#[trigger] ies@[ii], d);
                    assert(ie_lists_rate(ies@[ii], d));
                }
                assert forall|d: DataRate| rate_listed(data@, d) implies spec_rate_listed_upto(
                    ies@,
                    i as int + 1,
                    d,
                ) by {
                    assert(ie_lists_rate(ies@[i as int], d));
                }
                assert(cur is None ==> (forall|d: DataRate|
                    !(#[trigger] spec_rate_listed_upto(ies@, i as int + 1, d)))) by {
                    if cur is None {
                        assert forall|d: DataRate|
                            !(#[trigger] spec_rate_listed_upto(ies@, i as int + 1, d)) by {
                            if rate_listed(data@, d) {
                                let jj = choose|jj: int|
                                    0 <= jj < data@.len() && spec_rate_of(data@[jj]) == Some(d);
                                assert(spec_rate_of(data@[jj]) is None);
                            }
                        }
                    }
                }
                assert(cur matches Some(v) ==> (exists|d: DataRate|
                    #[trigger] spec_rate_listed_upto(ies@, i as int + 1, d)
                        && d.spec_value_half_mbps() == v)) by {
                    match cur {
                        Some(v) => {
                            let d0 = choose|d: DataRate|
                                (spec_rate_listed_upto(ies@, i as int, d) || (exists|jj: int|
                                    0 <= jj < j && spec_rate_of(data@[jj]) == Some(d)))
                                    && d.spec_value_half_mbps() == v;
                            assert(spec_rate_listed_upto(ies@, i as int + 1, d0));
                        },
                        None => {},
                    }
                }
                assert(cur matches Some(v) ==> (forall|d: DataRate|
                    #[trigger] spec_rate_listed_upto(ies@, i as int + 1, d)
                        ==> d.spec_value_half_mbps() <= v)) by {
                    match cur {
                        Some(v) => {
                            assert forall|d: DataRate| #[trigger]
                                spec_rate_listed_upto(ies@, i as int + 1, d) implies
                            d.spec_value_half_mbps() <= v by {
                                if !spec_rate_listed_upto(ies@, i as int, d) {
                                    let jj = choose|jj: int|
                                        0 <= jj < data@.len() && spec_rate_of(data@[jj]) == Some(
                                            d,
                                        );
                                    assert(spec_rate_of(data@[jj]) == Some(d));
                                }
                            }
                        },
                        None => {},
                    }
                }
            }
        } else {
            proof {
                assert forall|d: DataRate|
                    spec_rate_listed_upto(ies@, i as int + 1, d) implies spec_rate_listed_upto(
                    ies@,
                    i as int,
                    d,
                ) by {
                    let ii = choose|ii: int|
                        0 <= ii < i as int + 1 && ie_lists_rate(#[trigger] ies@[ii], d);
                    assert(!ie_lists_rate(ies@[i as int], d));
                }
                assert forall|d: DataRate|
                    spec_rate_listed_upto(ies@, i as int, d) implies #[trigger]
                spec_rate_listed_upto(ies@, i as int + 1, d) by {
                    let ii = choose|ii: int|
                        0 <= ii < i as int && ie_lists_rate(#[trigger] ies@[ii], d);
                    assert(ie_lists_rate(ies@[ii], d));
                }
                assert(cur matches Some(v) ==> (exists|d: DataRate|
                    #[trigger] spec_rate_listed_upto(ies@, i as int + 1, d)
                        && d.spec_value_half_mbps() == v)) by {
                    match cur {
                        Some(v) => {
                            let d0 = choose|d: DataRate|
                                spec_rate_listed_upto(ies@, i as int, d)
                                    && d.spec_value_half_mbps() == v;
                            assert(spec_rate_listed_upto(ies@, i as int + 1, d0));
                        },
                        None => {},
                    }
                }
                assert(cur is None ==> (forall|d: DataRate|
                    !(#[trigger] spec_rate_listed_upto(ies@, i as int + 1, d)))) by {
                    if cur is None {
                        assert forall|d: DataRate|
                            !(#[trigger] spec_rate_listed_upto(ies@, i as int + 1, d)) by {
                            if spec_rate_listed_upto(ies@, i as int + 1, d) {
                                assert(spec_rate_listed_upto(ies@, i as int, d));
                            }
                        }
                    }
                }
                assert(cur matches Some(v) ==> (forall|d: DataRate|
                    #[trigger] spec_rate_listed_upto(ies@, i as int + 1, d)
                        ==> d.spec_value_half_mbps() <= v)) by {
                    match cur {
                        Some(v) => {
                            assert forall|d: DataRate| #[trigger]
                                spec_rate_listed_upto(ies@, i as int + 1, d) implies
                            d.spec_value_half_mbps() <= v by {
                                assert(spec_rate_listed_upto(ies@, i as int, d));
                            }
                        },
                        None => {},
                    }
                }
            }
        }
        i = i + 1;
    }
    cur
}

impl View for SupportedRates {
    type V = Seq<u8>;

    closed spec fn view(&self) -> Seq<u8> {
        self.bytes@
    }
}

impl InformationElement for SupportedRates {
    open spec fn spec_name(&self) -> Seq<char> {
        "Supported Rates"@
    }

    open spec fn spec_id(&self) -> u8 {
        1
    }

    open spec fn spec_id_ext(&self) -> Option<u8> {
        None
    }

    open spec fn payload(&self) -> Seq<u8> {
        self@
    }

    fn name(&self) -> (r: &'static str) {
        "Supported Rates"
    }

    fn id(&self) -> (r: u8) {
        1
    }

    fn id_ext(&self) -> (r: Option<u8>) {
        None
    }

    fn bytes(&self) -> (r: &[u8]) {
        self.bytes.as_slice()
    }
}

/// Extended Supported Rates element (ID 50): the same encoding as the
/// Supported Rates element, for networks with more than eight rates.
#[derive(Debug, PartialEq, Eq)]
pub struct ExtendedSupportedRates {
    bytes: Vec<u8>,
}

impl ExtendedSupportedRates {
    pub const ID: u8 = 50;

    /// Builds the element from its payload; any byte count, including zero,
    /// is accepted.
    pub fn new(bytes: Vec<u8>) -> (r: ExtendedSupportedRates)
        ensures
            r@ == bytes@,
    {
        ExtendedSupportedRates { bytes }
    }

    /// The set of recognized rates the payload advertises: every recognized
    /// rate byte is represented, duplicate encodings collapse, and nothing
    /// else is listed.
    pub fn rates(&self) -> (r: Vec<DataRate>)
        ensures
            forall|i: int| 0 <= i < r@.len() ==> rate_listed(self@, #[trigger] r@[i]),
            forall|j: int|
                0 <= j < self@.len() ==> (#[trigger] spec_rate_of(self@[j]) matches Some(d)
                    ==> r@.contains(d)),
            forall|i1: int, i2: int| 0 <= i1 < i2 < r@.len() ==> r@[i1] != r@[i2],
    {
        rates_of(&self.bytes)
    }
}

impl View for ExtendedSupportedRates {
    type V = Seq<u8>;

    closed spec fn view(&self) -> Seq<u8> {
        self.bytes@
    }
}

impl InformationElement for ExtendedSupportedRates {
    open spec fn spec_name(&self) -> Seq<char> {
        "Extended Supported Rates"@
    }

    open spec fn spec_id(&self) -> u8 {
        50
    }

    open spec fn spec_id_ext(&self) -> Option<u8> {
        None
    }

    open spec fn payload(&self) -> Seq<u8> {
        self@
    }

    fn name(&self) -> (r: &'static str) {
        "Extended Supported Rates"
    }

    fn id(&self) -> (r: u8) {
        50
    }

    fn id_ext(&self) -> (r: Option<u8>) {
        None
    }

    fn bytes(&self) -> (r: &[u8]) {
        self.bytes.as_slice()
    }
}

} // verus!
