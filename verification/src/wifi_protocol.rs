//! Wi-Fi protocol generations, and the classifier deriving them from a
//! decoded element sequence.

use vstd::prelude::*;

use crate::ies::Ie;
use crate::ies::supported_rates::DataRate;
use crate::ies::supported_rates::rate_listed;

verus! {

/// One Wi-Fi protocol generation.
#[derive(Debug, Copy, Clone, PartialEq, Eq, Structural, Hash)]
pub enum WifiProtocol {
    A,
    B,
    G,
    N,
    AC,
    AX,
}

/// A set of Wi-Fi protocol generations: one membership flag each.
#[derive(Debug, Copy, Clone, PartialEq, Eq, Structural)]
pub struct WifiProtocols {
    pub a: bool,
    pub b: bool,
    pub g: bool,
    pub n: bool,
    pub ac: bool,
    pub ax: bool,
}

impl WifiProtocols {
    /// The empty set of protocols.
    pub fn empty() -> (r: WifiProtocols)
        ensures
            r == (WifiProtocols {
                a: false,
                b: false,
                g: false,
                n: false,
                ac: false,
                ax: false,
            }),
    {
        WifiProtocols { a: false, b: false, g: false, n: false, ac: false, ax: false }
    }

    /// Whether `p` is a member of the set.
    pub fn contains(&self, p: WifiProtocol) -> (r: bool)
        ensures
            r == match p {
                WifiProtocol::A => self.a,
                WifiProtocol::B => self.b,
                WifiProtocol::G => self.g,
                WifiProtocol::N => self.n,
                WifiProtocol::AC => self.ac,
                WifiProtocol::AX => self.ax,
            },
    {
        match p {
            WifiProtocol::A => self.a,
            WifiProtocol::B => self.b,
            WifiProtocol::G => self.g,
            WifiProtocol::N => self.n,
            WifiProtocol::AC => self.ac,
            WifiProtocol::AX => self.ax,
        }
    }
}

/// Whether the rate `d` marks an 802.11b network: 1, 2, 5.5 or 11 Mbps.
pub open spec fn spec_is_b_rate(d: DataRate) -> bool {
    ||| d is OneMbps
    ||| d is TwoMbps
    ||| d is FivePointFiveMbps
    ||| d is ElevenMbps
}

/// Whether the rate `d` marks an 802.11g network: 6, 9, 12, 18, 24, 36, 48
/// or 54 Mbps.
pub open spec fn spec_is_g_rate(d: DataRate) -> bool {
    ||| d is SixMbps
    ||| d is NineMbps
    ||| d is TwelveMbps
    ||| d is EighteenMbps
    ||| d is TwentyFourMbps
    ||| d is ThirtySixMbps
    ||| d is FortyEightMbps
    ||| d is FiftyFourMbps
}

/// Whether the element advertises a rate satisfying `spec_is_b_rate`.
pub open spec fn ie_has_b_rate(ie: Ie) -> bool {
    match ie {
        Ie::SupportedRates(e) => exists|d: DataRate| rate_listed(e@, d) && spec_is_b_rate(d),
        Ie::ExtendedSupportedRates(e) => exists|d: DataRate|
            rate_listed(e@, d) && spec_is_b_rate(d),
        _ => false,
    }
}

/// Whether the element advertises a rate satisfying `spec_is_g_rate`.
pub open spec fn ie_has_g_rate(ie: Ie) -> bool {
    match ie {
        Ie::SupportedRates(e) => exists|d: DataRate| rate_listed(e@, d) && spec_is_g_rate(d),
        Ie::ExtendedSupportedRates(e) => exists|d: DataRate|
            rate_listed(e@, d) && spec_is_g_rate(d),
        _ => false,
    }
}

/// The Wi-Fi protocol generations a decoded element sequence advertises:
/// an HT Capabilities element adds n, VHT Capabilities adds ac, HE
/// Capabilities adds ax; a supported-rates element adds b for any of the
/// 1/2/5.5/11 Mbps rates and g for any of the 6/9/12/18/24/36/48/54 Mbps
/// rates. The a generation is not derivable from rate presence alone and
/// stays unset.
pub open spec fn spec_wifi_protocols(ies: Seq<Ie>) -> WifiProtocols {
    WifiProtocols {
        a: false,
        b: exists|i: int| 0 <= i < ies.len() && ie_has_b_rate(#[trigger] ies[i]),
        g: exists|i: int| 0 <= i < ies.len() && ie_has_g_rate(#[trigger] ies[i]),
        n: exists|i: int| 0 <= i < ies.len() && (#[trigger] ies[i]) is HtCapabilities,
        ac: exists|i: int| 0 <= i < ies.len() && (#[trigger] ies[i]) is VhtCapabilities,
        ax: exists|i: int| 0 <= i < ies.len() && (#[trigger] ies[i]) is HeCapabilities,
    }
}

/// Whether `rs` holds a rate satisfying `spec_is_b_rate`; `rs` must list
/// exactly the rates of `bytes` for the answer to speak of `bytes`.
fn any_b_rate(rs: &Vec<DataRate>) -> (r: bool)
    ensures
        r == exists|k: int| 0 <= k < rs@.len() && spec_is_b_rate(#[trigger] rs@[k]),
{
    let n = rs.len();
    let mut k: usize = 0;
    while k < n
        invariant
            k <= n,
            n == rs@.len(),
            forall|kk: int| 0 <= kk < k ==> !spec_is_b_rate(#[trigger] rs@[kk]),
        decreases n - k,
    {
        let hit = match rs[k] {
            DataRate::OneMbps(_) => true,
            DataRate::TwoMbps(_) => true,
            DataRate::FivePointFiveMbps(_) => true,
            DataRate::ElevenMbps(_) => true,
            _ => false,
        };
        if hit {
            return true;
        }
        k = k + 1;
    }
    false
}

/// Whether `rs` holds a rate satisfying `spec_is_g_rate`.
fn any_g_rate(rs: &Vec<DataRate>) -> (r: bool)
    ensures
        r == exists|k: int| 0 <= k < rs@.len() && spec_is_g_rate(#[trigger] rs@[k]),
{
    let n = rs.len();
    let mut k: usize = 0;
    while k < n
        invariant
            k <= n,
            n == rs@.len(),
            forall|kk: int| 0 <= kk < k ==> !spec_is_g_rate(#[trigger] rs@[kk]),
        decreases n - k,
    {
        let hit = match rs[k] {
            DataRate::SixMbps(_) => true,
            DataRate::NineMbps(_) => true,
            DataRate::TwelveMbps(_) => true,
            DataRate::EighteenMbps(_) => true,
            DataRate::TwentyFourMbps(_) => true,
            DataRate::ThirtySixMbps(_) => true,
            DataRate::FortyEightMbps(_) => true,
            DataRate::FiftyFourMbps(_) => true,
            _ => false,
        };
        if hit {
            return true;
        }
        k = k + 1;
    }
    false
}

/// Classifies the Wi-Fi protocol generations of a decoded element sequence;
/// the rules are spelled out at [`spec_wifi_protocols`], whose result this
/// function returns exactly.
pub fn wifi_protocols(ies: &Vec<Ie>) -> (r: WifiProtocols)
    ensures
        r == spec_wifi_protocols(ies@),
{
    let mut b = false;
    let mut g = false;
    let mut has_n = false;
    let mut ac = false;
    let mut ax = false;
    let n = ies.len();
    let mut i: usize = 0;
    while i < n
        invariant
            i <= n,
            n == ies@.len(),
            b == exists|ii: int| 0 <= ii < i && ie_has_b_rate(#[trigger] ies@[ii]),
            g == exists|ii: int| 0 <= ii < i && ie_has_g_rate(#[trigger] ies@[ii]),
            has_n == exists|ii: int| 0 <= ii < i && (#[trigger] ies@[ii]) is HtCapabilities,
            ac == exists|ii: int| 0 <= ii < i && (#[trigger] ies@[ii]) is VhtCapabilities,
            ax == exists|ii: int| 0 <= ii < i && (#[trigger] ies@[ii]) is HeCapabilities,
        decreases n - i,
    {
        match &ies[i] {
            Ie::SupportedRates(e) => {
                let rs = e.rates();
                let eb = any_b_rate(&rs);
                let eg = any_g_rate(&rs);
                proof {
                    assert(eb == ie_has_b_rate(ies@[i as int])) by {
                        if eb {
                            let k = choose|k: int|
                                0 <= k < rs@.len() && spec_is_b_rate(#[trigger] rs@[k]);
                            assert(rate_listed(e@, rs@[k]));
                        }
                        if ie_has_b_rate(ies@[i as int]) {
                            let d = choose|d: DataRate| rate_listed(e@, d) && spec_is_b_rate(d);
                            let j = choose|j: int|
                                0 <= j < e@.len() && crate::ies::supported_rates::spec_rate_of(
                                    e@[j],
                                ) == Some(d);
                            assert(rs@.contains(d));
                            let k = choose|k: int| 0 <= k < rs@.len() && rs@[k] == d;
                            assert(spec_is_b_rate(rs@[k]));
                        }
                    }
                    assert(eg == ie_has_g_rate(ies@[i as int])) by {
                        if eg {
                            let k = choose|k: int|
                                0 <= k < rs@.len() && spec_is_g_rate(#[trigger] rs@[k]);
                            assert(rate_listed(e@, rs@[k]));
                        }
                        if ie_has_g_rate(ies@[i as int]) {
                            let d = choose|d: DataRate| rate_listed(e@, d) && spec_is_g_rate(d);
                            let j = choose|j: int|
                                0 <= j < e@.len() && crate::ies::supported_rates::spec_rate_of(
                                    e@[j],
                                ) == Some(d);
                            assert(rs@.contains(d));
                            let k = choose|k: int| 0 <= k < rs@.len() && rs@[k] == d;
                            assert(spec_is_g_rate(rs@[k]));
                        }
                    }
                }
                b = b || eb;
                g = g || eg;
            },
            Ie::ExtendedSupportedRates(e) => {
                let rs = e.rates();
                let eb = any_b_rate(&rs);
                let eg = any_g_rate(&rs);
                proof {
                    assert(eb == ie_has_b_rate(ies@[i as int])) by {
                        if eb {
                            let k = choose|k: int|
                                0 <= k < rs@.len() && spec_is_b_rate(#[trigger] rs@[k]);
                            assert(rate_listed(e@, rs@[k]));
                        }
                        if ie_has_b_rate(ies@[i as int]) {
                            let d = choose|d: DataRate| rate_listed(e@, d) && spec_is_b_rate(d);
                            let j = choose|j: int|
                                0 <= j < e@.len() && crate::ies::supported_rates::spec_rate_of(
                                    e@[j],
                                ) == Some(d);
                            assert(rs@.contains(d));
                            let k = choose|k: int| 0 <= k < rs@.len() && rs@[k] == d;
                            assert(spec_is_b_rate(rs@[k]));
                        }
                    }
                    assert(eg == ie_has_g_rate(ies@[i as int])) by {
                        if eg {
                            let k = choose|k: int|
                                0 <= k < rs@.len() && spec_is_g_rate(#[trigger] rs@[k]);
                            assert(rate_listed(e@, rs@[k]));
                        }
                        if ie_has_g_rate(ies@[i as int]) {
                            let d = choose|d: DataRate| rate_listed(e@, d) && spec_is_g_rate(d);
                            let j = choose|j: int|
                                0 <= j < e@.len() && crate::ies::supported_rates::spec_rate_of(
                                    e@[j],
                                ) == Some(d);
                            assert(rs@.contains(d));
                            let k = choose|k: int| 0 <= k < rs@.len() && rs@[k] == d;
                            assert(spec_is_g_rate(rs@[k]));
                        }
                    }
                }
                b = b || eb;
                g = g || eg;
            },
            Ie::HtCapabilities(_) => {
                has_n = true;
            },
            Ie::VhtCapabilities(_) => {
                ac = true;
            },
            Ie::HeCapabilities(_) => {
                ax = true;
            },
            _ => {},
        }
        i = i + 1;
    }
    WifiProtocols { a: false, b, g, n: has_n, ac, ax }
}

} // verus!
