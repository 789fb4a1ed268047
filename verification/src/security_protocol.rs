//! Security protocols, and the classifier deriving them from the RSN and
//! WPA elements of a decoded element sequence.
//!
//! The classification rests on IEEE Std 802.11-2016, Table 9-133 (AKM suite
//! selectors, OUI 00-0F-AC): suite types 1 to 6 (802.1X and PSK families)
//! mark a WPA2 network; suite types 8 and 9 (SAE families) and 11 to 13
//! (Suite-B 802.1X families) mark a WPA3 network. A vendor-specific WPA
//! element marks WPA version 1. An RSN element whose AKM list is absent or
//! empty is taken as WPA2, the weakest protocol an RSN implies. WEP cannot
//! be told from the element sequence alone (it shows only in the privacy
//! capability bit, which travels outside the elements), so the WEP flag
//! stays unset.

use vstd::prelude::*;

use crate::ies::Ie;
use crate::ies::rsn::SuiteSelector;
use crate::ies::rsn::spec_rsn_akms;

verus! {

/// One security protocol.
#[derive(Debug, Copy, Clone, PartialEq, Eq, Structural, Hash)]
pub enum SecurityProtocol {
    WEP,
    WPA,
    WPA2,
    WPA3,
}

/// A set of security protocols: one membership flag each.
#[derive(Debug, Copy, Clone, PartialEq, Eq, Structural)]
pub struct SecurityProtocols {
    pub wep: bool,
    pub wpa: bool,
    pub wpa2: bool,
    pub wpa3: bool,
}

impl SecurityProtocols {
    /// The empty set of protocols.
    pub fn empty() -> (r: SecurityProtocols)
        ensures
            r == (SecurityProtocols { wep: false, wpa: false, wpa2: false, wpa3: false }),
    {
        SecurityProtocols { wep: false, wpa: false, wpa2: false, wpa3: false }
    }

    /// Whether `p` is a member of the set.
    pub fn contains(&self, p: SecurityProtocol) -> (r: bool)
        ensures
            r == match p {
                SecurityProtocol::WEP => self.wep,
                SecurityProtocol::WPA => self.wpa,
                SecurityProtocol::WPA2 => self.wpa2,
                SecurityProtocol::WPA3 => self.wpa3,
            },
    {
        match p {
            SecurityProtocol::WEP => self.wep,
            SecurityProtocol::WPA => self.wpa,
            SecurityProtocol::WPA2 => self.wpa2,
            SecurityProtocol::WPA3 => self.wpa3,
        }
    }
}

/// Whether the AKM suite marks a WPA2 network: a standard OUI with suite
/// type 1 to 6.
pub open spec fn spec_akm_is_wpa2(s: SuiteSelector) -> bool {
    s.spec_is_standard() && 1 <= s.suite_type <= 6
}

/// Whether the AKM suite marks a WPA3 network: a standard OUI with suite
/// type 8, 9, 11, 12 or 13.
pub open spec fn spec_akm_is_wpa3(s: SuiteSelector) -> bool {
    s.spec_is_standard() && (s.suite_type == 8 || s.suite_type == 9 || s.suite_type == 11
        || s.suite_type == 12 || s.suite_type == 13)
}

/// Whether an RSN payload marks a WPA2 network: some AKM suite of the WPA2
/// family, or no readable AKM suite at all (an RSN implies WPA2 at least).
pub open spec fn spec_rsn_is_wpa2(bytes: Seq<u8>) -> bool {
    ||| spec_rsn_akms(bytes).len() == 0
    ||| exists|k: int|
        0 <= k < spec_rsn_akms(bytes).len() && spec_akm_is_wpa2(#[trigger] spec_rsn_akms(bytes)[k])
}

/// Whether an RSN payload marks a WPA3 network: some AKM suite of the WPA3
/// family.
pub open spec fn spec_rsn_is_wpa3(bytes: Seq<u8>) -> bool {
    exists|k: int|
        0 <= k < spec_rsn_akms(bytes).len() && spec_akm_is_wpa3(#[trigger] spec_rsn_akms(bytes)[k])
}

/// The security protocols a decoded element sequence advertises: WPA from
/// a WPA element's presence, WPA2 and WPA3 from the AKM suites of RSN
/// elements; WEP stays unset.
pub open spec fn spec_security_protocols(ies: Seq<Ie>) -> SecurityProtocols {
    SecurityProtocols {
        wep: false,
        wpa: exists|i: int| 0 <= i < ies.len() && (#[trigger] ies[i]) is Wpa,
        wpa2: exists|i: int|
            0 <= i < ies.len() && ((#[trigger] ies[i]) matches Ie::Rsn(e) && spec_rsn_is_wpa2(e@)),
        wpa3: exists|i: int|
            0 <= i < ies.len() && ((#[trigger] ies[i]) matches Ie::Rsn(e) && spec_rsn_is_wpa3(e@)),
    }
}

/// Whether `akms` holds a WPA2-family suite.
fn any_wpa2_akm(akms: &Vec<SuiteSelector>) -> (r: bool)
    ensures
        r == exists|k: int| 0 <= k < akms@.len() && spec_akm_is_wpa2(#[trigger] akms@[k]),
{
    let n = akms.len();
    let mut k: usize = 0;
    while k < n
        invariant
            k <= n,
            n == akms@.len(),
            forall|kk: int| 0 <= kk < k ==> !spec_akm_is_wpa2(#[trigger] akms@[kk]),
        decreases n - k,
    {
        let s = akms[k];
        if s.is_standard() && 1 <= s.suite_type && s.suite_type <= 6 {
            return true;
        }
        k = k + 1;
    }
    false
}

/// Whether `akms` holds a WPA3-family suite.
fn any_wpa3_akm(akms: &Vec<SuiteSelector>) -> (r: bool)
    ensures
        r == exists|k: int| 0 <= k < akms@.len() && spec_akm_is_wpa3(#[trigger] akms@[k]),
{
    let n = akms.len();
    let mut k: usize = 0;
    while k < n
        invariant
            k <= n,
            n == akms@.len(),
            forall|kk: int| 0 <= kk < k ==> !spec_akm_is_wpa3(#[trigger] akms@[kk]),
        decreases n - k,
    {
        let s = akms[k];
        if s.is_standard() && (s.suite_type == 8 || s.suite_type == 9 || s.suite_type == 11
            || s.suite_type == 12 || s.suite_type == 13) {
            return true;
        }
        k = k + 1;
    }
    false
}

/// Classifies the security protocols of a decoded element sequence; the
/// rules are spelled out at [`spec_security_protocols`], whose result this
/// function returns exactly.
pub fn security_protocols(ies: &Vec<Ie>) -> (r: SecurityProtocols)
    ensures
        r == spec_security_protocols(ies@),
{
    let mut wpa = false;
    let mut wpa2 = false;
    let mut wpa3 = false;
    let n = ies.len();
    let mut i: usize = 0;
    while i < n
        invariant
            i <= n,
            n == ies@.len(),
            wpa == exists|ii: int| 0 <= ii < i && (#[trigger] ies@[ii]) is Wpa,
            wpa2 == exists|ii: int|
                0 <= ii < i && ((#[trigger] ies@[ii]) matches Ie::Rsn(e) && spec_rsn_is_wpa2(e@)),
            wpa3 == exists|ii: int|
                0 <= ii < i && ((#[trigger] ies@[ii]) matches Ie::Rsn(e) && spec_rsn_is_wpa3(e@)),
        decreases n - i,
    {
        match &ies[i] {
            Ie::Wpa(_) => {
                wpa = true;
            },
            Ie::Rsn(e) => {
                let akms = e.akm_suites();
                let e2 = akms.is_empty() || any_wpa2_akm(&akms);
                let e3 = any_wpa3_akm(&akms);
                proof {
                    assert(e2 == spec_rsn_is_wpa2(e@));
                    assert(e3 == spec_rsn_is_wpa3(e@));
                }
                wpa2 = wpa2 || e2;
                wpa3 = wpa3 || e3;
            },
            _ => {},
        }
        i = i + 1;
    }
    SecurityProtocols { wep: false, wpa, wpa2, wpa3 }
}

} // verus!
