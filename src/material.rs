use vstd::prelude::*;

use vstd::string::StringSliceAdditionalSpecFns;

use crate::identity::Identity;

verus! {

/// The custody record of one material item.
#[derive(Clone, Copy, Debug, PartialEq, Eq)]
pub struct Material {
    /// The party currently entitled to hand the item on.
    pub current_holder: Identity,
    /// Number of custody transfers that have taken place.
    pub last_sequence: u64,
    /// The item's identifier, left-aligned and zero-padded.
    pub id: [u8; 20],
}

impl Material {
    /// Largest number of identifier bytes a record keeps.
    pub const MAX_ID_LEN: usize = 20;

    /// Encoded size of a record: an 8-byte header, the holder identity, the
    /// 8-byte transfer counter and the fixed identifier field.
    pub const SIZE: usize = 8 + 32 + 8 + 20;
}

/// The mathematical state of a custody record.
pub struct MaterialView {
    pub holder: Seq<u8>,
    pub sequence: nat,
    pub id: Seq<u8>,
}

impl View for Material {
    type V = MaterialView;

    open spec fn view(&self) -> MaterialView {
        MaterialView {
            holder: self.current_holder@,
            sequence: self.last_sequence as nat,
            id: self.id@,
        }
    }
}

/// The identifier field stored for the identifier bytes `bytes`: the first
/// `MAX_ID_LEN` of them, followed by zeros up to `MAX_ID_LEN` bytes.
pub open spec fn stored_id(bytes: Seq<u8>) -> Seq<u8> {
    Seq::new(Material::MAX_ID_LEN as nat, |i: int| if i < bytes.len() { bytes[i] } else { 0u8 })
}

/// The accounts taking part in the creation of a record.
pub struct InitializeMaterial {
    /// The signer who pays for the record and becomes its first holder.
    pub initializer: Identity,
}

/// Creates the custody record of an item named `material_id`, held by the
/// initializer, with no transfers yet. Identifiers longer than `MAX_ID_LEN`
/// bytes are cut to their first `MAX_ID_LEN` bytes.
pub fn initialize_material(ctx: &InitializeMaterial, material_id: &str) -> (m: Material)
    ensures
        m@.holder == ctx.initializer@,
        m@.sequence == 0,
        m@.id == stored_id(material_id.spec_bytes()),
{
    let id_bytes = material_id.as_bytes();
    let len: usize = if id_bytes.len() < Material::MAX_ID_LEN {
        id_bytes.len()
    } else {
        Material::MAX_ID_LEN
    };
    let mut id: [u8; 20] = [0u8; 20];
    let mut i: usize = 0;
    while i < Material::MAX_ID_LEN
        invariant
            0 <= i <= Material::MAX_ID_LEN,
            len <= id_bytes@.len(),
            len == Material::MAX_ID_LEN || len == id_bytes@.len(),
            id@.len() == Material::MAX_ID_LEN,
            forall|j: int| 0 <= j < i ==> id@[j] == stored_id(id_bytes@)[j],
            forall|j: int| i <= j < Material::MAX_ID_LEN ==> id@[j] == 0u8,
        decreases Material::MAX_ID_LEN - i,
    {
        if i < len {
            id[i] = id_bytes[i];
        }
        i = i + 1;
    }
    assert(id@ =~= stored_id(id_bytes@));
    Material { current_holder: ctx.initializer, last_sequence: 0, id }
}

} // verus!
