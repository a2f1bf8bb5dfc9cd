use vstd::prelude::*;

use crate::identity::Identity;
use crate::material::{Material, MaterialView};

verus! {

/// Why a custody operation was refused.
#[derive(Clone, Copy, Debug, PartialEq, Eq, Structural)]
pub enum CustodyError {
    /// The signer of a transfer is not the record's current holder.
    UnauthorizedTransfer,
}

/// The accounts taking part in a transfer: the record and the signer.
pub struct TransferMaterial {
    pub material_account: Material,
    /// The identity that signed the transfer.
    pub current_holder: Identity,
}

/// Only the current holder may hand a record on.
pub open spec fn may_transfer(record: MaterialView, signer: Seq<u8>) -> bool {
    signer == record.holder
}

/// The record after a successful transfer to `new_holder`: the holder is
/// replaced, the counter advances by one and the identifier is kept.
pub open spec fn transferred(record: MaterialView, new_holder: Seq<u8>) -> MaterialView {
    MaterialView { holder: new_holder, sequence: record.sequence + 1, id: record.id }
}

/// The record after an attempt by `signer` to transfer it to `new_holder`,
/// or `None` when the attempt is refused.
pub open spec fn transfer_outcome(
    record: MaterialView,
    signer: Seq<u8>,
    new_holder: Seq<u8>,
) -> Option<MaterialView> {
    if may_transfer(record, signer) {
        Some(transferred(record, new_holder))
    } else {
        None
    }
}

/// Hands custody of the record to `new_holder` when the signer is its
/// current holder; otherwise leaves the record as it is.
pub fn transfer_material(ctx: &mut TransferMaterial, new_holder: Identity) -> (r: Result<
    (),
    CustodyError,
>)
    requires
        may_transfer(old(ctx).material_account@, old(ctx).current_holder@)
            ==> old(ctx).material_account.last_sequence < u64::MAX,
    ensures
        r is Ok <==> may_transfer(old(ctx).material_account@, old(ctx).current_holder@),
        r is Ok ==> final(ctx).material_account@ == transferred(
            old(ctx).material_account@,
            new_holder@,
        ),
        r is Err ==> r == Err::<(), CustodyError>(CustodyError::UnauthorizedTransfer)
            && final(ctx).material_account == old(ctx).material_account,
        final(ctx).current_holder == old(ctx).current_holder,
{
    if !ctx.current_holder.same_as(&ctx.material_account.current_holder) {
        return Err(CustodyError::UnauthorizedTransfer);
    }
    ctx.material_account.current_holder = new_holder;
    ctx.material_account.last_sequence = ctx.material_account.last_sequence + 1;
    Ok(())
}

} // verus!
