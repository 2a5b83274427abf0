use crate::error::ErrorCode;
use crate::identity::Identity;
use crate::state::{fee_in_bounds, spec_fee_in_bounds, Account, Protocol};
use vstd::prelude::*;

verus! {

/// The accounts of `initialize`: who pays for the record, and the record, freshly created
/// and not yet filled in.
#[derive(Clone, Copy, Debug, PartialEq, Eq)]
pub struct Initialize {
    pub payer: Identity,
    pub protocol: Account<Protocol>,
}

/// Fills in the configuration record with its authority and its first fee.
///
/// A fee out of bounds is refused, and the record is left as it was.
pub fn handler(ctx: &mut Initialize, authority: Identity, initial_fee: u64) -> (r: Result<
    (),
    ErrorCode,
>)
    ensures
        r is Ok <==> spec_fee_in_bounds(initial_fee),
        r is Ok ==> {
            &&& final(ctx).protocol.data == (Protocol { authority, fee: initial_fee })
            &&& final(ctx).protocol.data.valid()
            &&& final(ctx).protocol.key == old(ctx).protocol.key
            &&& final(ctx).payer == old(ctx).payer
        },
        r is Err ==> r == Err::<(), ErrorCode>(ErrorCode::InvalidFee) && *final(ctx) == *old(ctx),
{
    if !fee_in_bounds(initial_fee) {
        return Err(ErrorCode::InvalidFee);
    }
    ctx.protocol.data.authority = authority;
    ctx.protocol.data.fee = initial_fee;
    Ok(())
}

} // verus!
