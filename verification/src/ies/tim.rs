//! TIM element: the traffic indication map announcing buffered frames.

use vstd::prelude::*;

use crate::ies::InformationElement;

verus! {

/// TIM (Traffic Indication Map) element (ID 5): any byte count. A complete
/// TIM holds the DTIM count (byte 0), the DTIM period (byte 1), the bitmap
/// control (byte 2) and the partial virtual bitmap (the rest); each field is
/// exposed only when the payload reaches it.
#[derive(Debug, PartialEq, Eq)]
pub struct Tim {
    bytes: Vec<u8>,
}

impl Tim {
    pub const ID: u8 = 5;

    /// Builds the element from its payload; any byte count, including zero,
    /// is accepted.
    pub fn new(bytes: Vec<u8>) -> (r: Tim)
        ensures
            r@ == bytes@,
    {
        Tim { bytes }
    }

    /// How many beacon frames remain until the next DTIM; 0 means this
    /// beacon carries the DTIM.
    pub fn dtim_count(&self) -> (r: Option<u8>)
        ensures
            r == if self@.len() >= 1 {
                Some(self@[0])
            } else {
                None::<u8>
            },
    {
        if self.bytes.len() >= 1 {
            Some(self.bytes[0])
        } else {
            None
        }
    }

    /// The number of beacon intervals between successive DTIMs.
    pub fn dtim_period(&self) -> (r: Option<u8>)
        ensures
            r == if self@.len() >= 2 {
                Some(self@[1])
            } else {
                None::<u8>
            },
    {
        if self.bytes.len() >= 2 {
            Some(self.bytes[1])
        } else {
            None
        }
    }

    /// The bitmap control byte: bit 0 signals buffered group-addressed
    /// traffic, bits 1-7 are the bitmap offset.
    pub fn bitmap_control(&self) -> (r: Option<u8>)
        ensures
            r == if self@.len() >= 3 {
                Some(self@[2])
            } else {
                None::<u8>
            },
    {
        if self.bytes.len() >= 3 {
            Some(self.bytes[2])
        } else {
            None
        }
    }

    /// The partial virtual bitmap: one bit per association ID with buffered
    /// traffic; empty when the payload holds no bitmap bytes.
    pub fn partial_virtual_bitmap(&self) -> (r: &[u8])
        ensures
            self@.len() >= 3 ==> r@ == self@.subrange(3, self@.len() as int),
            self@.len() < 3 ==> r@.len() == 0,
    {
        if self.bytes.len() >= 3 {
            self.bytes.as_slice().split_at(3).1
        } else {
            self.bytes.as_slice().split_at(self.bytes.len()).1
        }
    }
}

impl View for Tim {
    type V = Seq<u8>;

    closed spec fn view(&self) -> Seq<u8> {
        self.bytes@
    }
}

impl InformationElement for Tim {
    open spec fn spec_name(&self) -> Seq<char> {
        "TIM"@
    }

    open spec fn spec_id(&self) -> u8 {
        5
    }

    open spec fn spec_id_ext(&self) -> Option<u8> {
        None
    }

    open spec fn payload(&self) -> Seq<u8> {
        self@
    }

    fn name(&self) -> (r: &'static str) {
        "TIM"
    }

    fn id(&self) -> (r: u8) {
        5
    }

    fn id_ext(&self) -> (r: Option<u8>) {
        None
    }

    fn bytes(&self) -> (r: &[u8]) {
        self.bytes.as_slice()
    }
}

} // verus!
