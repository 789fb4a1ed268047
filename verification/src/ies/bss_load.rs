//! BSS Load element: station count, channel utilization and admission capacity.

use vstd::prelude::*;

use crate::ies::{is_invalid_length, IeError, InformationElement};

verus! {

/// BSS Load element (ID 11): exactly five bytes of load figures.
#[derive(Debug, PartialEq, Eq)]
pub struct BssLoad {
    bytes: Vec<u8>,
}

impl BssLoad {
    pub const ID: u8 = 11;

    pub const LENGTH: usize = 5;

    #[verifier::type_invariant]
    closed spec fn len_contract(self) -> bool {
        self.bytes@.len() == 5
    }

    /// Builds the element from its payload; any length other than
    /// 5 bytes is rejected.
    pub fn new(bytes: Vec<u8>) -> (r: Result<BssLoad, IeError>)
        ensures
            bytes@.len() == 5 ==> (r matches Ok(a) && a@ == bytes@),
            bytes@.len() != 5 ==> (r matches Err(e) && is_invalid_length(
                e,
                "Bss Load"@,
                5,
                bytes@.len() as int,
            )),
    {
        if bytes.len() == 5 {
            Ok(BssLoad { bytes })
        } else {
            let actual_length = bytes.len();
            Err(
                IeError::InvalidLength {
                    ie_name: "Bss Load",
                    expected_length: 5,
                    actual_length,
                },
            )
        }
    }

    /// The number of associated stations, read little-endian from bytes 0-1.
    pub fn station_count(&self) -> (r: u16)
        ensures
            r == self@[0] + 0x100 * self@[1],
    {
        proof {
            use_type_invariant(self);
        }
        self.bytes[0] as u16 + 0x100 * self.bytes[1] as u16
    }

    /// The fraction of time the channel was sensed busy, in 255ths.
    pub fn channel_utilization(&self) -> (r: u8)
        ensures
            r == self@[2],
    {
        proof {
            use_type_invariant(self);
        }
        self.bytes[2]
    }

    /// The remaining admission capacity, in units of 32 microseconds per
    /// second, read little-endian from bytes 3-4.
    pub fn available_admission_capacity(&self) -> (r: u16)
        ensures
            r == self@[3] + 0x100 * self@[4],
    {
        proof {
            use_type_invariant(self);
        }
        self.bytes[3] as u16 + 0x100 * self.bytes[4] as u16
    }
}

impl View for BssLoad {
    type V = Seq<u8>;

    closed spec fn view(&self) -> Seq<u8> {
        self.bytes@
    }
}

impl InformationElement for BssLoad {
    open spec fn spec_name(&self) -> Seq<char> {
        "Bss Load"@
    }

    open spec fn spec_id(&self) -> u8 {
        11
    }

    open spec fn spec_id_ext(&self) -> Option<u8> {
        None
    }

    open spec fn payload(&self) -> Seq<u8> {
        self@
    }

    fn name(&self) -> (r: &'static str) {
        "Bss Load"
    }

    fn id(&self) -> (r: u8) {
        11
    }

    fn id_ext(&self) -> (r: Option<u8>) {
        None
    }

    fn bytes(&self) -> (r: &[u8]) {
        proof {
            use_type_invariant(self);
        }
        self.bytes.as_slice()
    }
}

} // verus!
