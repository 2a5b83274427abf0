use crate::error::ErrorCode;
use crate::identity::Identity;
use crate::state::{fee_in_bounds, spec_fee_in_bounds, Account, Protocol};
use vstd::prelude::*;

verus! {

/// The accounts of `set_fee`: the caller, and the configuration record.
#[derive(Clone, Copy, Debug, PartialEq, Eq)]
pub struct SetFee {
    pub authority: Identity,
    pub protocol: Account<Protocol>,
}

/// Replaces the fee of the protocol.
///
/// Only the authority stored in the record may do so, whatever the fee; a fee out of bounds
/// is refused. After a refusal the record is as it was, and the authority never changes.
pub fn handler(ctx: &mut SetFee, fee: u64) -> (r: Result<(), ErrorCode>)
    ensures
        r is Ok <==> old(ctx).authority == old(ctx).protocol.data.authority && spec_fee_in_bounds(
            fee,
        ),
        old(ctx).authority != old(ctx).protocol.data.authority ==> r == Err::<(), ErrorCode>(
            ErrorCode::Unauthorized,
        ),
        old(ctx).authority == old(ctx).protocol.data.authority && !spec_fee_in_bounds(fee) ==> r
            == Err::<(), ErrorCode>(ErrorCode::InvalidFee),
        r is Ok ==> {
            &&& final(ctx).protocol.data.fee == fee
            &&& final(ctx).protocol.data.valid()
            &&& final(ctx).protocol.data.authority == old(ctx).protocol.data.authority
            &&& final(ctx).protocol.key == old(ctx).protocol.key
            &&& final(ctx).authority == old(ctx).authority
        },
        r is Err ==> *final(ctx) == *old(ctx),
{
    if ctx.authority != ctx.protocol.data.authority {
        return Err(ErrorCode::Unauthorized);
    }
    if !fee_in_bounds(fee) {
        return Err(ErrorCode::InvalidFee);
    }
    ctx.protocol.data.fee = fee;
    Ok(())
}

} // verus!
