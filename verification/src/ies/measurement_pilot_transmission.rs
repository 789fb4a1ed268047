//! Measurement Pilot Transmission element: the pilot interval, followed by
//! a run of (id, length, data) sub-elements.

use vstd::prelude::*;
use vstd::slice::slice_to_vec;

use crate::ies::{is_invalid_length, IeError, InformationElement};

verus! {

/// The sub-elements encoded by `data` as (id, length, data) triples, parsed
/// in order until the next declared sub-length cannot be satisfied; the
/// remainder is dropped without error.
pub open spec fn spec_subelements(data: Seq<u8>) -> Seq<(u8, u8, Seq<u8>)>
    decreases data.len(),
{
    if data.len() < 2 {
        Seq::empty()
    } else {
        let n = data[1] as int;
        if data.len() < 2 + n {
            Seq::empty()
        } else {
            seq![(data[0], data[1], data.subrange(2, 2 + n))] + spec_subelements(data.skip(2 + n))
        }
    }
}

/// The (id, length, payload view) triples of a run of owned sub-elements.
pub open spec fn subelement_views(s: Seq<(u8, u8, Vec<u8>)>) -> Seq<(u8, u8, Seq<u8>)> {
    s.map_values(|t: (u8, u8, Vec<u8>)| (t.0, t.1, t.2@))
}

/// Measurement Pilot Transmission element (ID 66): at least one byte, the
/// pilot interval, followed by sub-elements.
#[derive(Debug, PartialEq, Eq)]
pub struct MeasurementPilotTransmission {
    bytes: Vec<u8>,
}

impl MeasurementPilotTransmission {
    pub const ID: u8 = 66;

    pub const MIN_LENGTH: usize = 1;

    #[verifier::type_invariant]
    closed spec fn len_contract(self) -> bool {
        self.bytes@.len() >= 1
    }

    /// Builds the element from its payload; fewer than 1 byte is rejected,
    /// the trailing bytes carry sub-elements.
    pub fn new(bytes: Vec<u8>) -> (r: Result<MeasurementPilotTransmission, IeError>)
        ensures
            bytes@.len() >= 1 ==> (r matches Ok(a) && a@ == bytes@),
            bytes@.len() < 1 ==> (r matches Err(e) && is_invalid_length(
                e,
                "Measurement Pilot Transmission"@,
                1,
                bytes@.len() as int,
            )),
    {
        if bytes.len() >= 1 {
            Ok(MeasurementPilotTransmission { bytes })
        } else {
            let actual_length = bytes.len();
            Err(
                IeError::InvalidLength {
                    ie_name: "Measurement Pilot Transmission",
                    expected_length: 1,
                    actual_length,
                },
            )
        }
    }

    /// The measurement pilot interval, in time units.
    pub fn measurement_pilot_interval_tu(&self) -> (r: u8)
        ensures
            r == self@[0],
    {
        proof {
            use_type_invariant(self);
        }
        self.bytes[0]
    }

    /// The (id, length, data) sub-elements following the interval byte,
    /// parsed in order until a declared sub-length cannot be satisfied.
    pub fn subelements(&self) -> (r: Vec<(u8, u8, Vec<u8>)>)
        ensures
            subelement_views(r@) == spec_subelements(self@.skip(1)),
    {
        proof {
            use_type_invariant(self);
        }
        let mut out: Vec<(u8, u8, Vec<u8>)> = Vec::new();
        let n = self.bytes.len();
        let mut pos: usize = 1;
        while n - pos >= 2
            invariant_except_break
                1 <= pos <= n,
                n == self.bytes@.len(),
                subelement_views(out@) + spec_subelements(self@.skip(pos as int))
                    =~= spec_subelements(self@.skip(1)),
            ensures
                subelement_views(out@) =~= spec_subelements(self@.skip(1)),
            decreases n - pos,
        {
            proof {
                use_type_invariant(self);
                assert(self@.skip(pos as int)[0] == self@[pos as int]);
                assert(self@.skip(pos as int)[1] == self@[pos as int + 1]);
            }
            let se_id = self.bytes[pos];
            let se_len = self.bytes[pos + 1];
            if (se_len as usize) > n - pos - 2 {
                proof {
                    assert(spec_subelements(self@.skip(pos as int)) =~= Seq::empty());
                }
                break ;
            }
            let se_data = slice_to_vec(
                self.bytes.as_slice().split_at(pos + 2).1.split_at(se_len as usize).0,
            );
            proof {
                let tail = self@.skip(pos as int);
                assert(se_data@ =~= tail.subrange(2, 2 + se_len as int));
                assert(tail.skip(2 + se_len as int) =~= self@.skip(pos + 2 + se_len as int));
            }
            let ghost prev = out@;
            out.push((se_id, se_len, se_data));
            proof {
                assert(subelement_views(out@) =~= subelement_views(prev).push(
                    (se_id, se_len, se_data@),
                ));
            }
            pos = pos + 2 + se_len as usize;
        }
        out
    }
}

impl View for MeasurementPilotTransmission {
    type V = Seq<u8>;

    closed spec fn view(&self) -> Seq<u8> {
        self.bytes@
    }
}

impl InformationElement for MeasurementPilotTransmission {
    open spec fn spec_name(&self) -> Seq<char> {
        "Measurement Pilot Transmission"@
    }

    open spec fn spec_id(&self) -> u8 {
        66
    }

    open spec fn spec_id_ext(&self) -> Option<u8> {
        None
    }

    open spec fn payload(&self) -> Seq<u8> {
        self@
    }

    fn name(&self) -> (r: &'static str) {
        "Measurement Pilot Transmission"
    }

    fn id(&self) -> (r: u8) {
        66
    }

    fn id_ext(&self) -> (r: Option<u8>) {
        None
    }

    fn bytes(&self) -> (r: &[u8]) {
        proof {
            use_type_invariant(self);
        }
        self.bytes.as_slice()
    }
}

} // verus!
