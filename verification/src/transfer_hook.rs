//! The transfer gate: a veto the external token engine consults
//! immediately before committing any transfer. It reads the blacklist
//! and never writes anything; the engine must treat its rejection as a
//! mandatory abort of the transfer.
use vstd::prelude::*;

use crate::blacklist::Blacklist;
use crate::errors::ProgramError;
use crate::state::Address;

verus! {

/// Whether the blacklist currently vetoes `holder`.
pub open spec fn blocked(blacklist: Map<Seq<u8>, bool>, holder: Seq<u8>) -> bool {
    blacklist.dom().contains(holder) && blacklist[holder]
}

/// Decide a transfer of `amount` between the accounts owned by
/// `sender_owner` and `destination_owner`: reject with
/// `AccountBlacklisted` when either party is currently blacklisted, and
/// raise no objection otherwise, in particular for parties no record
/// governs. Sender and destination owners are consulted alike. The hook
/// mutates nothing and moves no funds; the amount plays no part in it.
pub fn transfer_hook_execute(
    blacklist: &Blacklist,
    sender_owner: &Address,
    destination_owner: &Address,
    _amount: u64,
) -> (r: Result<(), ProgramError>)
    ensures
        r is Ok <==> !blocked(blacklist@, sender_owner@) && !blocked(
            blacklist@,
            destination_owner@,
        ),
        r is Err ==> r->Err_0 == ProgramError::AccountBlacklisted,
{
    if blacklist.is_blacklisted(sender_owner) {
        return Err(ProgramError::AccountBlacklisted);
    }
    if blacklist.is_blacklisted(destination_owner) {
        return Err(ProgramError::AccountBlacklisted);
    }
    Ok(())
}

} // verus!
