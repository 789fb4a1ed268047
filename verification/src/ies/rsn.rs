//! RSN element: the Robust Security Network parameters negotiated by
//! 802.11i, read far enough to classify a network's security protocols.
//!
//! Field layout follows IEEE Std 802.11-2016, 9.4.2.25: a 16-bit version,
//! the group data cipher suite, a counted list of pairwise cipher suites, a
//! counted list of AKM (authentication and key management) suites, and the
//! RSN capabilities. Every field is optional: a truncated payload yields
//! whatever lies fully within it, without error.

use vstd::prelude::*;

use crate::ies::InformationElement;

verus! {

/// A four-byte suite selector: a three-byte OUI and a suite type.
#[derive(Debug, Copy, Clone, PartialEq, Eq, Structural)]
pub struct SuiteSelector {
    pub oui_a: u8,
    pub oui_b: u8,
    pub oui_c: u8,
    pub suite_type: u8,
}

impl SuiteSelector {
    /// Whether the selector carries the OUI 00-0F-AC that the standard
    /// assigns to its own cipher and AKM suites.
    pub open spec fn spec_is_standard(self) -> bool {
        self.oui_a == 0x00 && self.oui_b == 0x0F && self.oui_c == 0xAC
    }

    /// Whether the selector carries the OUI 00-0F-AC that the standard
    /// assigns to its own cipher and AKM suites.
    pub fn is_standard(&self) -> (r: bool)
        ensures
            r == self.spec_is_standard(),
    {
        self.oui_a == 0x00 && self.oui_b == 0x0F && self.oui_c == 0xAC
    }
}

/// The suite selector at offset `i` of `data`.
pub open spec fn spec_suite_at(data: Seq<u8>, i: int) -> SuiteSelector {
    SuiteSelector {
        oui_a: data[i],
        oui_b: data[i + 1],
        oui_c: data[i + 2],
        suite_type: data[i + 3],
    }
}

/// The first `n` suite selectors of `data`, or as many complete four-byte
/// selectors as `data` holds, whichever runs out first.
pub open spec fn spec_suites(data: Seq<u8>, n: nat) -> Seq<SuiteSelector>
    decreases n,
{
    if n == 0 || data.len() < 4 {
        Seq::empty()
    } else {
        seq![spec_suite_at(data, 0)] + spec_suites(data.skip(4), (n - 1) as nat)
    }
}

/// The little-endian 16-bit value at offset `i` of `data`.
pub open spec fn spec_u16_le(data: Seq<u8>, i: int) -> int {
    data[i] + 0x100 * data[i + 1]
}

/// The pairwise cipher suites an RSN payload declares: empty when the
/// payload does not reach the pairwise suite list.
pub open spec fn spec_rsn_pairwise(bytes: Seq<u8>) -> Seq<SuiteSelector> {
    if bytes.len() >= 8 {
        spec_suites(bytes.skip(8), spec_u16_le(bytes, 6) as nat)
    } else {
        Seq::empty()
    }
}

/// The AKM suites an RSN payload declares: empty when the payload does not
/// reach the AKM suite list, whose offset follows from the declared
/// pairwise suite count.
pub open spec fn spec_rsn_akms(bytes: Seq<u8>) -> Seq<SuiteSelector> {
    let off = 8 + 4 * spec_u16_le(bytes, 6);
    if bytes.len() >= 8 && bytes.len() >= off + 2 {
        spec_suites(bytes.skip(off + 2), spec_u16_le(bytes, off) as nat)
    } else {
        Seq::empty()
    }
}

/// The RSN capabilities field, which follows the AKM suite list; absent
/// when the payload does not reach it.
pub open spec fn spec_rsn_capabilities(bytes: Seq<u8>) -> Option<u16> {
    let off = 8 + 4 * spec_u16_le(bytes, 6);
    if bytes.len() >= 8 && bytes.len() >= off + 2 {
        let cap_off = off + 2 + 4 * spec_u16_le(bytes, off);
        if bytes.len() >= cap_off + 2 {
            Some(spec_u16_le(bytes, cap_off) as u16)
        } else {
            None
        }
    } else {
        None
    }
}

/// The little-endian 16-bit value at offset `i`.
fn u16_le_at(bytes: &Vec<u8>, i: usize) -> (r: u16)
    requires
        i + 1 < bytes@.len(),
    ensures
        r == spec_u16_le(bytes@, i as int),
{
    let n = bytes.len();
    bytes[i] as u16 + 0x100 * bytes[i + 1] as u16
}

/// Parses up to `n` four-byte suite selectors starting at `start`.
fn parse_suites(bytes: &Vec<u8>, start: usize, n: usize) -> (r: Vec<SuiteSelector>)
    requires
        start <= bytes@.len(),
    ensures
        r@ == spec_suites(bytes@.skip(start as int), n as nat),
{
    let mut out: Vec<SuiteSelector> = Vec::new();
    let mut k: usize = 0;
    let mut pos = start;
    while k < n && bytes.len() - pos >= 4
        invariant
            k <= n,
            start <= pos <= bytes@.len(),
            pos == start + 4 * k,
            out@ + spec_suites(bytes@.skip(pos as int), (n - k) as nat) =~= spec_suites(
                bytes@.skip(start as int),
                n as nat,
            ),
        decreases n - k,
    {
        proof {
            let tail = bytes@.skip(pos as int);
            assert(tail[0] == bytes@[pos as int]);
            assert(tail[1] == bytes@[pos as int + 1]);
            assert(tail[2] == bytes@[pos as int + 2]);
            assert(tail[3] == bytes@[pos as int + 3]);
            assert(tail.skip(4) =~= bytes@.skip(pos as int + 4));
        }
        out.push(
            SuiteSelector {
                oui_a: bytes[pos],
                oui_b: bytes[pos + 1],
                oui_c: bytes[pos + 2],
                suite_type: bytes[pos + 3],
            },
        );
        pos = pos + 4;
        k = k + 1;
    }
    proof {
        assert(out@ =~= spec_suites(bytes@.skip(start as int), n as nat));
    }
    out
}

/// RSN element (ID 48): any byte count; fields beyond the payload's end
/// are simply absent.
#[derive(Debug, PartialEq, Eq)]
pub struct Rsn {
    bytes: Vec<u8>,
}

impl Rsn {
    pub const ID: u8 = 48;

    /// Builds the element from its payload; any byte count, including zero,
    /// is accepted.
    pub fn new(bytes: Vec<u8>) -> (r: Rsn)
        ensures
            r@ == bytes@,
    {
        Rsn { bytes }
    }

    /// The RSN version, read little-endian from bytes 0-1; absent when the
    /// payload does not reach it.
    pub fn version(&self) -> (r: Option<u16>)
        ensures
            self@.len() >= 2 ==> r == Some(spec_u16_le(self@, 0) as u16),
            self@.len() < 2 ==> r is None,
    {
        if self.bytes.len() >= 2 {
            Some(u16_le_at(&self.bytes, 0))
        } else {
            None
        }
    }

    /// The group data cipher suite, from bytes 2-5; absent when the payload
    /// does not reach it.
    pub fn group_cipher_suite(&self) -> (r: Option<SuiteSelector>)
        ensures
            self@.len() >= 6 ==> r == Some(spec_suite_at(self@, 2)),
            self@.len() < 6 ==> r is None,
    {
        if self.bytes.len() >= 6 {
            Some(
                SuiteSelector {
                    oui_a: self.bytes[2],
                    oui_b: self.bytes[3],
                    oui_c: self.bytes[4],
                    suite_type: self.bytes[5],
                },
            )
        } else {
            None
        }
    }

    /// The declared pairwise cipher suites, as far as the payload reaches.
    pub fn pairwise_cipher_suites(&self) -> (r: Vec<SuiteSelector>)
        ensures
            r@ == spec_rsn_pairwise(self@),
    {
        if self.bytes.len() >= 8 {
            let count = u16_le_at(&self.bytes, 6);
            parse_suites(&self.bytes, 8, count as usize)
        } else {
            Vec::new()
        }
    }

    /// The declared AKM suites, as far as the payload reaches; the AKM list
    /// offset follows from the declared pairwise suite count.
    pub fn akm_suites(&self) -> (r: Vec<SuiteSelector>)
        ensures
            r@ == spec_rsn_akms(self@),
    {
        if self.bytes.len() < 8 {
            return Vec::new();
        }
        let count = u16_le_at(&self.bytes, 6) as usize;
        let off = 8 + 4 * count;
        if self.bytes.len() < off + 2 {
            return Vec::new();
        }
        let akm_count = u16_le_at(&self.bytes, off);
        parse_suites(&self.bytes, off + 2, akm_count as usize)
    }

    /// The RSN capabilities, read little-endian after the AKM suite list;
    /// absent when the payload does not reach them.
    pub fn rsn_capabilities(&self) -> (r: Option<u16>)
        ensures
            r == spec_rsn_capabilities(self@),
    {
        if self.bytes.len() < 8 {
            return None;
        }
        let count = u16_le_at(&self.bytes, 6) as usize;
        let off = 8 + 4 * count;
        if self.bytes.len() < off + 2 {
            return None;
        }
        let akm_count = u16_le_at(&self.bytes, off) as usize;
        let cap_off = off + 2 + 4 * akm_count;
        if self.bytes.len() >= cap_off + 2 {
            Some(u16_le_at(&self.bytes, cap_off))
        } else {
            None
        }
    }
}

impl View for Rsn {
    type V = Seq<u8>;

    closed spec fn view(&self) -> Seq<u8> {
        self.bytes@
    }
}

impl InformationElement for Rsn {
    open spec fn spec_name(&self) -> Seq<char> {
        "RSN"@
    }

    open spec fn spec_id(&self) -> u8 {
        48
    }

    open spec fn spec_id_ext(&self) -> Option<u8> {
        None
    }

    open spec fn payload(&self) -> Seq<u8> {
        self@
    }

    fn name(&self) -> (r: &'static str) {
        "RSN"
    }

    fn id(&self) -> (r: u8) {
        48
    }

    fn id_ext(&self) -> (r: Option<u8>) {
        None
    }

    fn bytes(&self) -> (r: &[u8]) {
        self.bytes.as_slice()
    }
}

} // verus!
