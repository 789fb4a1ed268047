//! Mesh ID element: the identifier of a mesh BSS.

use vstd::prelude::*;

use crate::ies::InformationElement;

verus! {

/// Mesh ID element (ID 114): any byte count, the mesh identifier.
#[derive(Debug, PartialEq, Eq)]
pub struct MeshId {
    bytes: Vec<u8>,
}

impl MeshId {
    pub const ID: u8 = 114;

    /// Builds the element from its payload; any byte count, including
    /// zero, is accepted.
    pub fn new(bytes: Vec<u8>) -> (r: MeshId)
        ensures
            r@ == bytes@,
    {
        MeshId { bytes }
    }

    /// The mesh identifier bytes.
    pub fn mesh_id(&self) -> (r: &[u8])
        ensures
            r@ == self@,
    {
        self.bytes.as_slice()
    }
}

impl View for MeshId {
    type V = Seq<u8>;

    closed spec fn view(&self) -> Seq<u8> {
        self.bytes@
    }
}

impl InformationElement for MeshId {
    open spec fn spec_name(&self) -> Seq<char> {
        "Mesh ID"@
    }

    open spec fn spec_id(&self) -> u8 {
        114
    }

    open spec fn spec_id_ext(&self) -> Option<u8> {
        None
    }

    open spec fn payload(&self) -> Seq<u8> {
        self@
    }

    fn name(&self) -> (r: &'static str) {
        "Mesh ID"
    }

    fn id(&self) -> (r: u8) {
        114
    }

    fn id_ext(&self) -> (r: Option<u8>) {
        None
    }

    fn bytes(&self) -> (r: &[u8]) {
        self.bytes.as_slice()
    }
}

} // verus!
